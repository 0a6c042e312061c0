//! The per-event decision policy of the main loop: which events warrant
//! a layout decision, how the close/focus geometry race is mitigated,
//! and what the loop must do next. Everything here is pure; the
//! surrounding binary performs the socket round-trips this policy asks
//! for and feeds the answers back in.

use vstd::prelude::*;

use crate::commands::{set_split_command, set_split_command_spec};
use crate::model::{Change, Container, Floating, WindowEvent};
use crate::split::{is_tiling, spec_is_tiling, split_of, Split};

verus! {

/// Whether a change kind can lead to a layout decision at all: only a
/// focus or a move can.
pub open spec fn decision_kind(c: Change) -> bool {
    c == Change::Focus || c == Change::Move
}

/// What the policy decides for one event: skip it, dispatch a split
/// command for the given container with the given orientation, or
/// query the tree for fresh geometry first because the preceding event
/// was a close.
#[derive(Clone, Copy, Debug, PartialEq, Eq, Structural)]
pub enum Step {
    Skip,
    Dispatch { id: i64, split: Split },
    QueryTree,
}

/// The per-event decision, together with the new value of the
/// previous-event-was-a-close flag.
///
/// An event whose kind is neither focus nor move is skipped and only
/// recorded in the flag. A decidable event is skipped when its
/// container is explicitly invisible or not tiled. Otherwise, when the
/// preceding event was a close, the embedded geometry is distrusted
/// and a tree query is requested; on the common path the split is
/// decided from the embedded snapshot directly. A processed decidable
/// event always lowers the flag, since it is not a close.
pub open spec fn decide_spec(prev_closed: bool, e: WindowEvent) -> (Step, bool) {
    if !decision_kind(e.change) {
        (Step::Skip, e.change == Change::Close)
    } else if e.container.visible == Some(false) {
        (Step::Skip, false)
    } else if !spec_is_tiling(e.container.floating) {
        (Step::Skip, false)
    } else if prev_closed {
        (Step::QueryTree, false)
    } else {
        (
            Step::Dispatch {
                id: e.container.id,
                split: split_of(e.container.rect.width as int, e.container.rect.height as int),
            },
            false,
        )
    }
}

/// Decides what to do for one event and how to update the
/// previous-close flag, exactly as `decide_spec` states.
pub fn decide_event(prev_closed: bool, e: &WindowEvent) -> (r: (Step, bool))
    ensures
        r == decide_spec(prev_closed, *e),
{
    match e.change {
        Change::Focus | Change::Move => {
            if matches!(e.container.visible, Some(false)) {
                (Step::Skip, false)
            } else if !is_tiling(e.container.floating) {
                (Step::Skip, false)
            } else if prev_closed {
                (Step::QueryTree, false)
            } else {
                (
                    Step::Dispatch { id: e.container.id, split: Split::from(e.container.rect) },
                    false,
                )
            }
        },
        Change::Close => (Step::Skip, true),
        _ => (Step::Skip, false),
    }
}

/// The failure of a fresh tree query: no node in the snapshot is marked
/// focused. This should not occur under correct compositor behaviour
/// and is fatal for the iteration that meets it.
#[derive(Clone, Copy, Debug, PartialEq, Eq, Structural)]
pub enum TreeQueryError {
    NoFocusedNode,
}

/// No node before position `i` is marked focused.
pub open spec fn no_focused_before(nodes: Seq<Container>, i: int) -> bool {
    forall|j: int| 0 <= j < i ==> !(#[trigger] nodes[j]).focused
}

/// Selects the currently focused node from a tree flattened to a list
/// of container snapshots: the first one marked focused, in list
/// order. Fails exactly when no node is marked focused.
pub fn find_focused(nodes: &Vec<Container>) -> (r: Result<usize, TreeQueryError>)
    ensures
        (match r {
            Ok(i) => i < nodes@.len() && nodes@[i as int].focused && no_focused_before(
                nodes@,
                i as int,
            ),
            Err(e) => e == TreeQueryError::NoFocusedNode,
        }),
        r is Err <==> no_focused_before(nodes@, nodes@.len() as int),
{
    let mut idx: usize = 0;
    while idx < nodes.len()
        invariant
            idx <= nodes@.len(),
            no_focused_before(nodes@, idx as int),
        decreases nodes@.len() - idx,
    {
        if nodes[idx].focused {
            return Ok(idx);
        }
        idx = idx + 1;
    }
    Err(TreeQueryError::NoFocusedNode)
}

/// Decides from a freshly queried tree, after a close: selects the
/// first focused node and renders the split command its geometry calls
/// for. Fails exactly when no node is marked focused.
pub fn fresh_command(nodes: &Vec<Container>) -> (r: Result<String, TreeQueryError>)
    ensures
        (match r {
            Ok(cmd) => exists|i: int|
                0 <= i < nodes@.len() && (#[trigger] nodes@[i]).focused && no_focused_before(
                    nodes@,
                    i,
                ) && cmd@ == set_split_command_spec(
                    nodes@[i].id as int,
                    split_of(nodes@[i].rect.width as int, nodes@[i].rect.height as int),
                ),
            Err(e) => e == TreeQueryError::NoFocusedNode,
        }),
        r is Err <==> no_focused_before(nodes@, nodes@.len() as int),
{
    match find_focused(nodes) {
        Ok(i) => {
            let c = nodes[i];
            let cmd = set_split_command(c.id, Split::from(c.rect));
            Ok(cmd)
        },
        Err(e) => Err(e),
    }
}

/// The loop-continuation predicate: the loop keeps pulling events only
/// while no termination signal has been observed and the last pull
/// succeeded. A failed pull ends the loop rather than being skipped,
/// so that a closed connection is observable and distinguishable from
/// idleness.
pub fn continue_loop(running: bool, pull_ok: bool) -> (r: bool)
    ensures
        r <==> (running && pull_ok),
{
    running && pull_ok
}

/// A split command is only ever dispatched for the container of a
/// focus or move event that is believed tiled and not explicitly
/// invisible, with the orientation its own rectangle calls for, and
/// only when the preceding event was not a close (otherwise the tree
/// is re-queried instead).
pub proof fn lemma_dispatch_only_for_tiled(prev_closed: bool, e: WindowEvent, id: i64, s: Split)
    requires
        decide_spec(prev_closed, e).0 == (Step::Dispatch { id, split: s }),
    ensures
        decision_kind(e.change),
        spec_is_tiling(e.container.floating),
        e.container.visible != Some(false),
        id == e.container.id,
        s == split_of(e.container.rect.width as int, e.container.rect.height as int),
        !prev_closed,
{
}

/// A move event for a floating container produces no dispatch and
/// lowers the previous-close flag, whatever that flag was before.
pub proof fn lemma_move_floating_skips(prev_closed: bool, e: WindowEvent)
    requires
        e.change == Change::Move,
        e.container.floating == Some(Floating::UserOn),
    ensures
        decide_spec(prev_closed, e) == (Step::Skip, false),
{
}

} // verus!
