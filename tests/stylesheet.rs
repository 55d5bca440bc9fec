use skeleton_rs::stylesheet::{
    global_stylesheet, injection_for, wave_keyframes, DocumentHead, StyleBlock, STYLE_ELEMENT_ID,
};
use skeleton_rs::Direction;

fn count(head: &DocumentHead) -> usize {
    head.blocks.iter().filter(|b| b.id == STYLE_ELEMENT_ID).count()
}

#[test]
fn repeated_injection_leaves_one_block() {
    let mut head = DocumentHead::new();
    for _ in 0..5 {
        head.ensure_global_styles_injected(&Direction::LeftToRight);
    }
    assert_eq!(head.blocks.len(), 1);
    assert_eq!(count(&head), 1);
}

#[test]
fn first_direction_wins() {
    let mut head = DocumentHead::new();
    head.ensure_global_styles_injected(&Direction::TopToBottom);
    head.ensure_global_styles_injected(&Direction::RightToLeft);
    assert_eq!(count(&head), 1);
    assert_eq!(head.blocks[0].css, global_stylesheet(&Direction::TopToBottom));
    assert!(head.blocks[0].css.contains("0 -200%"));
}

#[test]
fn other_blocks_are_kept() {
    let mut head = DocumentHead::new();
    head.blocks.push(StyleBlock { id: String::from("app"), css: String::from("body {}") });
    assert!(!head.has_block(STYLE_ELEMENT_ID));
    assert!(head.has_block("app"));
    head.ensure_global_styles_injected(&Direction::LeftToRight);
    head.ensure_global_styles_injected(&Direction::LeftToRight);
    assert_eq!(head.blocks.len(), 2);
    assert_eq!(head.blocks[0].id, "app");
    assert_eq!(head.blocks[1].id, "skeleton-rs-style");
    assert!(head.has_block(STYLE_ELEMENT_ID));
}

#[test]
fn injection_only_when_absent() {
    assert!(injection_for(true, &Direction::LeftToRight).is_none());
    let css = injection_for(false, &Direction::BottomToTop).unwrap();
    assert_eq!(css, global_stylesheet(&Direction::BottomToTop));
}

#[test]
fn stylesheet_holds_all_rules() {
    let css = global_stylesheet(&Direction::RightToLeft);
    assert!(css.contains("@keyframes skeleton-rs-pulse"));
    assert!(css.contains("50% { opacity: 0.4; }"));
    assert!(css.contains("@keyframes skeleton-rs-wave"));
    assert!(css.contains("0%   { background-position: -200% 0; }"));
    assert!(css.contains(".skeleton-hover:hover"));
    assert!(css.contains(".skeleton-focus:focus"));
    assert!(css.contains(".skeleton-active:active"));
    let pulse = css.find("skeleton-rs-pulse").unwrap();
    let wave = css.find("skeleton-rs-wave").unwrap();
    let hover = css.find(".skeleton-hover").unwrap();
    assert!(pulse < wave && wave < hover);
}

#[test]
fn custom_angle_waves_left_to_right() {
    assert_eq!(wave_keyframes(&Direction::CustomAngle(30)), wave_keyframes(&Direction::LeftToRight));
    assert_ne!(wave_keyframes(&Direction::TopToBottom), wave_keyframes(&Direction::BottomToTop));
    assert!(wave_keyframes(&Direction::LeftToRight).contains("0%   { background-position: 200% 0; }"));
}
