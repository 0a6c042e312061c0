//! The split decision: which orientation a freshly focused container's
//! split should take, given its geometry, and which containers are
//! tiled at all.

use vstd::prelude::*;

use crate::model::{Floating, Rect};

verus! {

/// A split orientation: children arranged side by side (`H`) or stacked
/// (`V`).
#[derive(Clone, Copy, Debug, PartialEq, Eq, Structural)]
pub enum Split {
    H,
    V,
}

/// The orientation chosen for a rectangle: vertical when it is taller
/// than it is wide, horizontal otherwise (ties included, since the
/// comparison is strict).
pub open spec fn split_of(width: int, height: int) -> Split {
    if height > width {
        Split::V
    } else {
        Split::H
    }
}

impl From<Rect> for Split {
    /// Chooses the split orientation for a container from its geometry.
    fn from(value: Rect) -> (r: Split)
        ensures
            r == split_of(value.width as int, value.height as int),
    {
        if value.height > value.width {
            Split::V
        } else {
            Split::H
        }
    }
}

impl vstd::std_specs::convert::FromSpecImpl<Rect> for Split {
    open spec fn obeys_from_spec() -> bool {
        true
    }

    open spec fn from_spec(value: Rect) -> Split {
        split_of(value.width as int, value.height as int)
    }
}

/// Whether a container participates in tiled layout: true exactly when
/// the compositor reports floating as switched off, automatically or by
/// the user. An absent classification counts as not tiled.
pub open spec fn spec_is_tiling(floating: Option<Floating>) -> bool {
    floating == Some(Floating::AutoOff) || floating == Some(Floating::UserOff)
}

/// The tiling predicate: whether a container is currently tiled rather
/// than floating.
pub fn is_tiling(floating: Option<Floating>) -> (r: bool)
    ensures
        r <==> spec_is_tiling(floating),
{
    matches!(floating, Some(Floating::AutoOff | Floating::UserOff))
}

} // verus!
