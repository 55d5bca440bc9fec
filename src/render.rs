use vstd::prelude::*;

use crate::props::{SkeletonGroupProps, SkeletonProps};
use crate::style::{class_names, resolve_style, resolved_class, resolved_style};

verus! {

/// The identifier by which the host finds the placeholder box to observe it.
///
/// Every instance carries the same one, so with more than one instance
/// observing the viewport at a time only one of them is found.
pub const ANCHOR_ID: &'static str = "skeleton-rs";

/// The role of the placeholder box: it is presentational only.
pub const PLACEHOLDER_ROLE: &'static str = "presentation";

/// The placeholder box is hidden from assistive technology.
pub const PLACEHOLDER_ARIA_HIDDEN: &'static str = "true";

/// The element that stands in for content that is not ready.
#[derive(Clone, Debug)]
pub struct PlaceholderBox {
    pub id: &'static str,
    pub class: String,
    pub style: String,
    pub role: &'static str,
    pub aria_hidden: &'static str,
}

/// What an instance renders.
#[derive(Clone, Debug)]
pub enum Rendered {
    /// The animated placeholder box, with the children suppressed.
    Placeholder(PlaceholderBox),
    /// The children verbatim, or nothing when there are none.
    Children,
}

/// The container of a group of placeholders.
#[derive(Clone, Debug)]
pub struct GroupBox {
    pub class: &'static str,
    pub style: &'static str,
}

/// Renders an instance configured by `p`: the placeholder box while
/// `visible` holds, the children otherwise.
pub fn skeleton(p: &SkeletonProps, visible: bool) -> (r: Rendered)
    ensures
        visible <==> r is Placeholder,
        r matches Rendered::Placeholder(b) ==> {
            &&& b.id@ == ANCHOR_ID@
            &&& b.class@ == resolved_class(*p)
            &&& b.style@ == resolved_style(*p)
            &&& b.role@ == PLACEHOLDER_ROLE@
            &&& b.aria_hidden@ == PLACEHOLDER_ARIA_HIDDEN@
        },
{
    if visible {
        Rendered::Placeholder(
            PlaceholderBox {
                id: ANCHOR_ID,
                class: class_names(p),
                style: resolve_style(p),
                role: PLACEHOLDER_ROLE,
                aria_hidden: PLACEHOLDER_ARIA_HIDDEN,
            },
        )
    } else {
        Rendered::Children
    }
}

/// Renders the container of a group: a box with the given class and style
/// around the group's placeholders.
pub fn skeleton_group(g: &SkeletonGroupProps) -> (r: GroupBox)
    ensures
        r.class@ == g.class@,
        r.style@ == g.style@,
{
    GroupBox { class: g.class, style: g.style }
}

} // verus!
