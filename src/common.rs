use vstd::prelude::*;

verus! {

/// The shape category of a placeholder box.
#[derive(Clone, Copy, Debug, PartialEq, Eq, Structural)]
pub enum Variant {
    Text,
    Circular,
    Rectangular,
    Rounded,
    Image,
    Avatar,
    Button,
}

/// The animation that plays on a placeholder box.
#[derive(Clone, Copy, Debug, PartialEq, Eq, Structural)]
pub enum Animation {
    Pulse,
    Wave,
    /// No animation at all.
    Off,
}

/// The colour scheme of a placeholder box.
#[derive(Clone, Copy, Debug, PartialEq, Eq)]
pub enum Theme {
    Light,
    Dark,
    /// Any CSS colour value, used verbatim.
    Custom(&'static str),
}

/// The direction in which a wave animation travels.
#[derive(Clone, Copy, Debug, PartialEq, Eq, Structural)]
pub enum Direction {
    LeftToRight,
    RightToLeft,
    TopToBottom,
    BottomToTop,
    /// A gradient angle in degrees.
    CustomAngle(i64),
}

impl Default for Variant {
    fn default() -> (r: Self)
        ensures
            r == Variant::Text,
    {
        Variant::Text
    }
}

impl Default for Animation {
    fn default() -> (r: Self)
        ensures
            r == Animation::Pulse,
    {
        Animation::Pulse
    }
}

impl Default for Theme {
    fn default() -> (r: Self)
        ensures
            r == Theme::Light,
    {
        Theme::Light
    }
}

impl Default for Direction {
    fn default() -> (r: Self)
        ensures
            r == Direction::LeftToRight,
    {
        Direction::LeftToRight
    }
}

/// The background colour that a theme stands for.
pub open spec fn theme_color(t: Theme) -> Seq<char> {
    match t {
        Theme::Light => "#e0e0e0"@,
        Theme::Dark => "#444444"@,
        Theme::Custom(c) => c@,
    }
}

/// The gradient angle, in degrees, of a wave travelling in direction `d`.
pub open spec fn direction_angle(d: Direction) -> int {
    match d {
        Direction::LeftToRight => 90,
        Direction::RightToLeft => 270,
        Direction::TopToBottom => 180,
        Direction::BottomToTop => 0,
        Direction::CustomAngle(deg) => deg as int,
    }
}

impl Theme {
    /// The CSS colour of the box's background.
    pub fn background_color(&self) -> (r: &'static str)
        ensures
            r@ == theme_color(*self),
    {
        match self {
            Theme::Light => "#e0e0e0",
            Theme::Dark => "#444444",
            Theme::Custom(c) => c,
        }
    }
}

impl Direction {
    /// The gradient angle of a wave in this direction.
    pub fn angle(&self) -> (r: i64)
        ensures
            r as int == direction_angle(*self),
    {
        match self {
            Direction::LeftToRight => 90,
            Direction::RightToLeft => 270,
            Direction::TopToBottom => 180,
            Direction::BottomToTop => 0,
            Direction::CustomAngle(deg) => *deg,
        }
    }
}

} // verus!
