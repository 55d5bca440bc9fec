use vstd::prelude::*;

use crate::common::{direction_angle, theme_color, Animation, Direction, Theme, Variant};
use crate::props::SkeletonProps;

verus! {

/// The character of decimal digit `d`.
pub open spec fn digit_char(d: nat) -> char {
    if d < 10 {
        ((d + '0' as nat) as u8) as char
    } else {
        '?'
    }
}

/// The decimal digits of `n`, most significant first, without leading zeros.
pub open spec fn decimal_digits(n: nat) -> Seq<char>
    decreases n,
{
    if n < 10 {
        seq![digit_char(n)]
    } else {
        decimal_digits(n / 10).push(digit_char(n % 10))
    }
}

/// The decimal text of `i`, with a leading minus sign when it is negative.
pub open spec fn decimal(i: int) -> Seq<char> {
    if i < 0 {
        seq!['-'] + decimal_digits((-i) as nat)
    } else {
        decimal_digits(i as nat)
    }
}

fn digit_str(d: u64) -> (r: &'static str)
    requires
        d < 10,
    ensures
        r@ == seq![digit_char(d as nat)],
{
    proof {
        reveal_strlit("0");
        reveal_strlit("1");
        reveal_strlit("2");
        reveal_strlit("3");
        reveal_strlit("4");
        reveal_strlit("5");
        reveal_strlit("6");
        reveal_strlit("7");
        reveal_strlit("8");
        reveal_strlit("9");
    }
    let r = match d {
        0 => "0",
        1 => "1",
        2 => "2",
        3 => "3",
        4 => "4",
        5 => "5",
        6 => "6",
        7 => "7",
        8 => "8",
        _ => "9",
    };
    assert(r@ =~= seq![digit_char(d as nat)]);
    r
}

fn append_digits(s: &mut String, n: u64)
    ensures
        final(s)@ == old(s)@ + decimal_digits(n as nat),
    decreases n,
{
    if n >= 10 {
        append_digits(s, n / 10);
    }
    s.append(digit_str(n % 10));
    assert(final(s)@ =~= old(s)@ + decimal_digits(n as nat));
}

/// Appends the decimal text of `i` to `s`.
pub fn append_decimal(s: &mut String, i: i64)
    ensures
        final(s)@ == old(s)@ + decimal(i as int),
{
    if i < 0 {
        proof {
            reveal_strlit("-");
        }
        s.append("-");
        let magnitude: u64 = ((-(i + 1)) as u64) + 1;
        append_digits(s, magnitude);
        assert(final(s)@ =~= old(s)@ + decimal(i as int));
    } else {
        append_digits(s, i as u64);
    }
}

} // verus!

verus! {

/// The declaration that starts the pulse animation.
pub const PULSE_DECLARATION: &'static str = "animation: skeleton-rs-pulse 1.5s ease-in-out infinite;";

/// The start of the wave declaration, before the gradient angle.
pub const WAVE_PREFIX: &'static str = "background: linear-gradient(";

/// The rest of the wave declaration, after the gradient angle.
pub const WAVE_SUFFIX: &'static str = "deg, #e0e0e0 25%, #f5f5f5 50%, #e0e0e0 75%); background-size: 200% 100%; animation: skeleton-rs-wave 1.6s linear infinite;";

/// The class that every placeholder box carries.
pub const BASE_CLASS: &'static str = "skeleton-rs";

/// The border radius of a box of variant `v`: the shape-defining variants
/// fix their own, the others use `given`.
pub open spec fn variant_radius(v: Variant, given: Seq<char>) -> Seq<char> {
    match v {
        Variant::Circular | Variant::Avatar => "50%"@,
        Variant::Rectangular => "0"@,
        Variant::Rounded => "8px"@,
        Variant::Button => "6px"@,
        Variant::Text | Variant::Image => given,
    }
}

/// The declarations that size, colour and place the box.
pub open spec fn box_style(p: SkeletonProps) -> Seq<char> {
    let common = "background-color: "@ + theme_color(p.theme) + "; border-radius: "@
        + variant_radius(p.variant, p.border_radius@) + "; display: "@ + p.display@
        + "; position: "@ + p.position@ + "; overflow: "@ + p.overflow@ + "; margin: "@
        + p.margin@;
    if p.infer_size {
        common + ";"@
    } else {
        "width: "@ + p.width@ + "; height: "@ + p.height@ + "; "@ + common + "; line-height: "@
            + p.line_height@ + ";"@
    }
}

/// `" name: value;"` when a value is given, nothing otherwise.
pub open spec fn optional_declaration(name: Seq<char>, value: Option<&'static str>) -> Seq<char> {
    match value {
        Some(v) => " "@ + name + ": "@ + v@ + ";"@,
        None => Seq::empty(),
    }
}

/// The optional size limits, in their fixed order.
pub open spec fn limits_style(p: SkeletonProps) -> Seq<char> {
    optional_declaration("font-size"@, p.font_size) + optional_declaration(
        "max-width"@,
        p.max_width,
    ) + optional_declaration("min-width"@, p.min_width) + optional_declaration(
        "max-height"@,
        p.max_height,
    ) + optional_declaration("min-height"@, p.min_height)
}

/// The animation declarations of a box animated by `a` in direction `d`.
pub open spec fn animation_style(a: Animation, d: Direction) -> Seq<char> {
    match a {
        Animation::Pulse => PULSE_DECLARATION@,
        Animation::Wave => WAVE_PREFIX@ + decimal(direction_angle(d)) + WAVE_SUFFIX@,
        Animation::Off => Seq::empty(),
    }
}

/// The whole inline style of a placeholder box configured by `p`.
pub open spec fn resolved_style(p: SkeletonProps) -> Seq<char> {
    box_style(p) + limits_style(p) + animation_style(p.animation, p.direction) + p.custom_style@
}

/// The class list of a placeholder box configured by `p`.
pub open spec fn resolved_class(p: SkeletonProps) -> Seq<char> {
    BASE_CLASS@ + (if p.animate_on_hover {
        " skeleton-hover"@
    } else {
        Seq::empty()
    }) + (if p.animate_on_focus {
        " skeleton-focus"@
    } else {
        Seq::empty()
    }) + (if p.animate_on_active {
        " skeleton-active"@
    } else {
        Seq::empty()
    })
}

impl Variant {
    /// The border radius of a box of this variant when `given` is configured.
    pub fn radius(&self, given: &'static str) -> (r: &'static str)
        ensures
            r@ == variant_radius(*self, given@),
    {
        match self {
            Variant::Circular | Variant::Avatar => "50%",
            Variant::Rectangular => "0",
            Variant::Rounded => "8px",
            Variant::Button => "6px",
            Variant::Text | Variant::Image => given,
        }
    }
}

fn append_optional(s: &mut String, name: &'static str, value: Option<&'static str>)
    ensures
        final(s)@ == old(s)@ + optional_declaration(name@, value),
{
    if let Some(v) = value {
        s.append(" ");
        s.append(name);
        s.append(": ");
        s.append(v);
        s.append(";");
        assert(final(s)@ =~= old(s)@ + optional_declaration(name@, value));
    } else {
        assert(final(s)@ =~= old(s)@ + optional_declaration(name@, value));
    }
}

} // verus!

verus! {

/// Computes the inline style of a placeholder box configured by `p`.
pub fn resolve_style(p: &SkeletonProps) -> (r: String)
    ensures
        r@ == resolved_style(*p),
{
    let mut s = String::new();
    let background = p.theme.background_color();
    let radius = p.variant.radius(p.border_radius);
    if !p.infer_size {
        s.append("width: ");
        s.append(p.width);
        s.append("; height: ");
        s.append(p.height);
        s.append("; ");
    }
    s.append("background-color: ");
    s.append(background);
    s.append("; border-radius: ");
    s.append(radius);
    s.append("; display: ");
    s.append(p.display);
    s.append("; position: ");
    s.append(p.position);
    s.append("; overflow: ");
    s.append(p.overflow);
    s.append("; margin: ");
    s.append(p.margin);
    if !p.infer_size {
        s.append("; line-height: ");
        s.append(p.line_height);
    }
    s.append(";");
    assert(s@ =~= box_style(*p));
    let ghost boxed = s@;
    append_optional(&mut s, "font-size", p.font_size);
    append_optional(&mut s, "max-width", p.max_width);
    append_optional(&mut s, "min-width", p.min_width);
    append_optional(&mut s, "max-height", p.max_height);
    append_optional(&mut s, "min-height", p.min_height);
    assert(s@ =~= boxed + limits_style(*p));
    let ghost limited = s@;
    match p.animation {
        Animation::Pulse => {
            s.append(PULSE_DECLARATION);
        },
        Animation::Wave => {
            s.append(WAVE_PREFIX);
            append_decimal(&mut s, p.direction.angle());
            s.append(WAVE_SUFFIX);
        },
        Animation::Off => {},
    }
    assert(s@ =~= limited + animation_style(p.animation, p.direction));
    s.append(p.custom_style);
    assert(s@ =~= resolved_style(*p));
    s
}

/// Computes the class list of a placeholder box configured by `p`: the base
/// class, then a hook for each pseudo-class trigger that is switched on.
pub fn class_names(p: &SkeletonProps) -> (r: String)
    ensures
        r@ == resolved_class(*p),
{
    let mut s = String::from_str(BASE_CLASS);
    if p.animate_on_hover {
        s.append(" skeleton-hover");
    }
    if p.animate_on_focus {
        s.append(" skeleton-focus");
    }
    if p.animate_on_active {
        s.append(" skeleton-active");
    }
    assert(s@ =~= resolved_class(*p));
    s
}

} // verus!

verus! {

/// `t` occurs somewhere in `s`.
pub open spec fn contains(s: Seq<char>, t: Seq<char>) -> bool {
    exists|i: int| 0 <= i && i + t.len() <= s.len() && #[trigger] s.subrange(i, i + t.len()) == t
}

proof fn lemma_contains_at(s: Seq<char>, t: Seq<char>, a: Seq<char>, b: Seq<char>)
    requires
        s == a + t + b,
    ensures
        contains(s, t),
{
    assert(s.subrange(a.len() as int, (a.len() + t.len()) as int) =~= t);
}

/// The style depends on the configuration alone: resolving equal
/// configurations gives the same text.
pub proof fn lemma_resolve_deterministic(p: SkeletonProps, q: SkeletonProps)
    requires
        p == q,
    ensures
        resolved_style(p) == resolved_style(q),
        resolved_class(p) == resolved_class(q),
{
}

/// A circular or avatar box is fully rounded whatever border radius is
/// configured: the style declares `border-radius: 50%;`.
pub proof fn lemma_variant_radius_wins(p: SkeletonProps)
    requires
        p.variant == Variant::Circular || p.variant == Variant::Avatar,
    ensures
        variant_radius(p.variant, p.border_radius@) == "50%"@,
        contains(resolved_style(p), "border-radius: 50%;"@),
{
    reveal_strlit("; border-radius: ");
    reveal_strlit("border-radius: 50%;");
    reveal_strlit("50%");
    reveal_strlit("; display: ");
    let pre = if p.infer_size {
        Seq::<char>::empty()
    } else {
        "width: "@ + p.width@ + "; height: "@ + p.height@ + "; "@
    };
    let a = pre + "background-color: "@ + theme_color(p.theme) + seq![';', ' '];
    let t = "border-radius: 50%;"@;
    let b = resolved_style(p).subrange((a.len() + t.len()) as int, resolved_style(p).len() as int);
    assert(resolved_style(p) =~= a + t + b);
    lemma_contains_at(resolved_style(p), t, a, b);
}

/// A custom theme colours the background with its own value verbatim.
pub proof fn lemma_custom_theme_color(p: SkeletonProps, c: &'static str)
    requires
        p.theme == Theme::Custom(c),
    ensures
        contains(resolved_style(p), "background-color: "@ + c@ + ";"@),
{
    reveal_strlit("; border-radius: ");
    reveal_strlit(";");
    let a = if p.infer_size {
        Seq::<char>::empty()
    } else {
        "width: "@ + p.width@ + "; height: "@ + p.height@ + "; "@
    };
    let t = "background-color: "@ + c@ + ";"@;
    let b = resolved_style(p).subrange((a.len() + t.len()) as int, resolved_style(p).len() as int);
    assert(resolved_style(p) =~= a + t + b);
    lemma_contains_at(resolved_style(p), t, a, b);
}

} // verus!
