//! Snapshots of the compositor's state as the policy consumes them.
//!
//! The compositor owns the window tree; the daemon only ever sees
//! transient read-only snapshots of single containers, delivered inside
//! window events or re-queried from the tree. These types carry exactly
//! the attributes the policy reads.

use vstd::prelude::*;

verus! {

/// A container's geometry: the width and height of its rectangle.
#[derive(Clone, Copy, Debug, PartialEq, Eq, Structural)]
pub struct Rect {
    pub width: i32,
    pub height: i32,
}

/// The compositor's classification of a container's tiling mode, when it
/// reports one: floating switched on or off, either automatically or by
/// the user.
#[derive(Clone, Copy, Debug, PartialEq, Eq, Structural)]
pub enum Floating {
    AutoOn,
    AutoOff,
    UserOn,
    UserOff,
}

/// The kind of change a window event reports. Only focus, move and close
/// influence the policy; every other kind is `Other`.
#[derive(Clone, Copy, Debug, PartialEq, Eq, Structural)]
pub enum Change {
    Focus,
    Move,
    Close,
    Other,
}

/// A read-only snapshot of one container, as embedded in an event or
/// found in a tree query.
#[derive(Clone, Copy, Debug, PartialEq, Eq, Structural)]
pub struct Container {
    pub id: i64,
    pub rect: Rect,
    pub floating: Option<Floating>,
    pub visible: Option<bool>,
    pub focused: bool,
}

/// A window-change notification: the kind of change and the container
/// snapshot taken by the compositor at notification time.
#[derive(Clone, Copy, Debug, PartialEq, Eq, Structural)]
pub struct WindowEvent {
    pub change: Change,
    pub container: Container,
}

} // verus!
