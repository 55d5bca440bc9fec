use vstd::prelude::*;

use crate::common::{Animation, Direction, Theme, Variant};

verus! {

/// The configuration of one placeholder, read-only for one render pass.
///
/// Every geometry field is a CSS value used verbatim; the optional ones
/// are left out of the style when absent.
#[derive(Clone, Copy, Debug, PartialEq, Eq)]
pub struct SkeletonProps {
    pub variant: Variant,
    pub animation: Animation,
    /// Only read by the wave animation.
    pub direction: Direction,
    pub theme: Theme,
    pub width: &'static str,
    pub height: &'static str,
    pub font_size: Option<&'static str>,
    /// Used only by the variants that do not fix their own radius.
    pub border_radius: &'static str,
    pub display: &'static str,
    pub line_height: &'static str,
    pub position: &'static str,
    pub overflow: &'static str,
    pub margin: &'static str,
    /// Appended verbatim at the end of the style.
    pub custom_style: &'static str,
    /// Leave width, height and line height to the content.
    pub infer_size: bool,
    /// The real content is ready: the placeholder is hidden.
    pub show: bool,
    /// Grace period, in milliseconds, before the placeholder appears.
    pub delay_ms: u32,
    pub responsive: bool,
    pub max_width: Option<&'static str>,
    pub min_width: Option<&'static str>,
    pub max_height: Option<&'static str>,
    pub min_height: Option<&'static str>,
    pub animate_on_hover: bool,
    pub animate_on_focus: bool,
    pub animate_on_active: bool,
    /// Reveal the placeholder once it enters the viewport.
    pub animate_on_visible: bool,
}

impl Default for SkeletonProps {
    fn default() -> (r: Self)
        ensures
            r.variant == Variant::Text,
            r.animation == Animation::Pulse,
            r.direction == Direction::LeftToRight,
            r.theme == Theme::Light,
            r.width@ == "100%"@,
            r.height@ == "1em"@,
            r.font_size.is_none(),
            r.border_radius@ == "4px"@,
            r.display@ == "inline-block"@,
            r.line_height@ == "1"@,
            r.position@ == "relative"@,
            r.overflow@ == "hidden"@,
            r.margin@ == ""@,
            r.custom_style@ == ""@,
            !r.infer_size,
            !r.show,
            r.delay_ms == 0,
            !r.responsive,
            r.max_width.is_none(),
            r.min_width.is_none(),
            r.max_height.is_none(),
            r.min_height.is_none(),
            !r.animate_on_hover,
            !r.animate_on_focus,
            !r.animate_on_active,
            !r.animate_on_visible,
    {
        SkeletonProps {
            variant: Variant::Text,
            animation: Animation::Pulse,
            direction: Direction::LeftToRight,
            theme: Theme::Light,
            width: "100%",
            height: "1em",
            font_size: None,
            border_radius: "4px",
            display: "inline-block",
            line_height: "1",
            position: "relative",
            overflow: "hidden",
            margin: "",
            custom_style: "",
            infer_size: false,
            show: false,
            delay_ms: 0,
            responsive: false,
            max_width: None,
            min_width: None,
            max_height: None,
            min_height: None,
            animate_on_hover: false,
            animate_on_focus: false,
            animate_on_active: false,
            animate_on_visible: false,
        }
    }
}

/// The style and class of the container that lays out a group of placeholders.
#[derive(Clone, Copy, Debug, PartialEq, Eq)]
pub struct SkeletonGroupProps {
    pub style: &'static str,
    pub class: &'static str,
}

impl Default for SkeletonGroupProps {
    fn default() -> (r: Self)
        ensures
            r.style@ == ""@,
            r.class@ == ""@,
    {
        SkeletonGroupProps { style: "", class: "" }
    }
}

} // verus!
