//! Skeleton loading placeholders, independent of any UI framework.
//!
//! A placeholder instance is described by a [`props::SkeletonProps`]. The
//! library computes its inline style and class list, decides when the
//! placeholder box is visible (explicit `show`, a delay timer, viewport
//! intersection), and keeps the shared animation stylesheet present exactly
//! once per document. A host performs the timers, observers and DOM writes
//! that the controller asks for, and reports their outcome back.

pub mod common;
pub mod props;
pub mod render;
pub mod style;
pub mod stylesheet;
pub mod visibility;

pub use common::{Animation, Direction, Theme, Variant};
