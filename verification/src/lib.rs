//! Auto-tiling policy for a tiling compositor controlled over IPC.
//!
//! The library holds the decision core of the daemon: classifying window
//! events, mitigating the close/focus geometry race, choosing a split
//! orientation from a container's geometry, and rendering the layout
//! commands that are sent to the compositor. All socket I/O, the event
//! subscription and the signal handler live in the surrounding binary,
//! which feeds this library plain values and carries out the actions it
//! decides on.

pub mod commands;
pub mod digits;
pub mod model;
pub mod policy;
pub mod split;
