use skeleton_rs::props::SkeletonProps;
use skeleton_rs::style::{append_decimal, class_names, resolve_style};
use skeleton_rs::{Animation, Direction, Theme, Variant};

fn decimal_of(i: i64) -> String {
    let mut s = String::from("x");
    append_decimal(&mut s, i);
    s
}

#[test]
fn default_style_is_exact() {
    let p = SkeletonProps::default();
    assert_eq!(
        resolve_style(&p),
        "width: 100%; height: 1em; background-color: #e0e0e0; border-radius: 4px; \
         display: inline-block; position: relative; overflow: hidden; margin: ; line-height: 1;\
         animation: skeleton-rs-pulse 1.5s ease-in-out infinite;"
    );
}

#[test]
fn resolve_is_deterministic() {
    let p = SkeletonProps {
        variant: Variant::Rounded,
        animation: Animation::Wave,
        direction: Direction::TopToBottom,
        theme: Theme::Dark,
        font_size: Some("14px"),
        custom_style: "color: red;",
        ..SkeletonProps::default()
    };
    let q = p;
    let a = resolve_style(&p);
    let b = resolve_style(&q);
    assert_eq!(a.as_bytes(), b.as_bytes());
    assert_eq!(class_names(&p), class_names(&q));
}

#[test]
fn circular_variant_overrides_radius() {
    let p = SkeletonProps {
        variant: Variant::Circular,
        border_radius: "4px",
        ..SkeletonProps::default()
    };
    let s = resolve_style(&p);
    assert!(s.contains("border-radius: 50%;"));
    assert!(!s.contains("border-radius: 4px"));
}

#[test]
fn each_variant_radius() {
    let cases = [
        (Variant::Text, "3px"),
        (Variant::Circular, "50%"),
        (Variant::Rectangular, "0"),
        (Variant::Rounded, "8px"),
        (Variant::Image, "3px"),
        (Variant::Avatar, "50%"),
        (Variant::Button, "6px"),
    ];
    for (variant, radius) in cases {
        let p = SkeletonProps { variant, border_radius: "3px", ..SkeletonProps::default() };
        let expected = format!("; border-radius: {radius}; display:");
        assert!(resolve_style(&p).contains(&expected), "{expected}");
    }
}

#[test]
fn custom_theme_color_is_used_verbatim() {
    let p = SkeletonProps { theme: Theme::Custom("#0099ff"), ..SkeletonProps::default() };
    assert!(resolve_style(&p).contains("background-color: #0099ff;"));
}

#[test]
fn dark_theme_color() {
    let p = SkeletonProps { theme: Theme::Dark, ..SkeletonProps::default() };
    assert!(resolve_style(&p).contains("background-color: #444444;"));
}

#[test]
fn inferred_size_leaves_out_geometry() {
    let p = SkeletonProps {
        infer_size: true,
        animation: Animation::Off,
        margin: "2px",
        ..SkeletonProps::default()
    };
    assert_eq!(
        resolve_style(&p),
        "background-color: #e0e0e0; border-radius: 4px; display: inline-block; \
         position: relative; overflow: hidden; margin: 2px;"
    );
}

#[test]
fn size_limits_in_fixed_order() {
    let p = SkeletonProps {
        animation: Animation::Off,
        min_height: Some("1px"),
        max_width: Some("600px"),
        font_size: Some("2em"),
        min_width: Some("10px"),
        max_height: Some("3em"),
        ..SkeletonProps::default()
    };
    let s = resolve_style(&p);
    assert!(s.ends_with(
        "line-height: 1; font-size: 2em; max-width: 600px; min-width: 10px; max-height: 3em; min-height: 1px;"
    ));
}

#[test]
fn wave_angle_follows_direction() {
    let cases = [
        (Direction::LeftToRight, "90"),
        (Direction::RightToLeft, "270"),
        (Direction::TopToBottom, "180"),
        (Direction::BottomToTop, "0"),
        (Direction::CustomAngle(-45), "-45"),
        (Direction::CustomAngle(135), "135"),
    ];
    for (direction, angle) in cases {
        let p = SkeletonProps { animation: Animation::Wave, direction, ..SkeletonProps::default() };
        let expected = format!(
            "line-height: 1;background: linear-gradient({angle}deg, #e0e0e0 25%, #f5f5f5 50%, #e0e0e0 75%); \
             background-size: 200% 100%; animation: skeleton-rs-wave 1.6s linear infinite;"
        );
        assert!(resolve_style(&p).ends_with(&expected), "{expected}");
    }
}

#[test]
fn no_animation_declares_none() {
    let p = SkeletonProps { animation: Animation::Off, ..SkeletonProps::default() };
    let s = resolve_style(&p);
    assert!(!s.contains("animation"));
    assert!(s.ends_with("line-height: 1;"));
}

#[test]
fn custom_style_comes_last() {
    let p = SkeletonProps { custom_style: " opacity: 0.5;", ..SkeletonProps::default() };
    assert!(resolve_style(&p).ends_with("infinite; opacity: 0.5;"));
}

#[test]
fn class_list_follows_triggers() {
    let p = SkeletonProps::default();
    assert_eq!(class_names(&p), "skeleton-rs");
    let p = SkeletonProps {
        animate_on_hover: true,
        animate_on_focus: true,
        animate_on_active: true,
        ..SkeletonProps::default()
    };
    assert_eq!(class_names(&p), "skeleton-rs skeleton-hover skeleton-focus skeleton-active");
    let p = SkeletonProps { animate_on_focus: true, ..SkeletonProps::default() };
    assert_eq!(class_names(&p), "skeleton-rs skeleton-focus");
}

#[test]
fn decimal_text_of_integers() {
    assert_eq!(decimal_of(0), "x0");
    assert_eq!(decimal_of(7), "x7");
    assert_eq!(decimal_of(10), "x10");
    assert_eq!(decimal_of(1234), "x1234");
    assert_eq!(decimal_of(-1), "x-1");
    assert_eq!(decimal_of(i64::MAX), "x9223372036854775807");
    assert_eq!(decimal_of(i64::MIN), "x-9223372036854775808");
}

#[test]
fn theme_and_direction_helpers() {
    assert_eq!(Theme::Light.background_color(), "#e0e0e0");
    assert_eq!(Theme::Custom("teal").background_color(), "teal");
    assert_eq!(Direction::RightToLeft.angle(), 270);
    assert_eq!(Direction::CustomAngle(12).angle(), 12);
    assert_eq!(Variant::Button.radius("1px"), "6px");
    assert_eq!(Variant::Image.radius("1px"), "1px");
}
