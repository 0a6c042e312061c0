//! Rendering of the layout commands sent to the compositor, in its
//! textual command grammar: a split command scoped to one container id,
//! and a layout directive scoped to one workspace.

use vstd::prelude::*;

use crate::digits::{i64_to_dec, int_dec};
use crate::split::Split;

verus! {

/// The command keyword for a split orientation.
pub open spec fn split_keyword(s: Split) -> Seq<char> {
    match s {
        Split::H => "splith"@,
        Split::V => "splitv"@,
    }
}

/// The command keyword for a split orientation, as a string slice.
pub fn split_keyword_str(s: Split) -> (r: &'static str)
    ensures
        r@ == split_keyword(s),
{
    match s {
        Split::H => "splith",
        Split::V => "splitv",
    }
}

/// The command that sets the split orientation of the container with
/// the given id.
pub open spec fn set_split_command_spec(id: int, s: Split) -> Seq<char> {
    "[con_id=\""@ + int_dec(id) + "\"] "@ + split_keyword(s)
}

/// Renders the command that sets the split orientation of one
/// container, scoped to its id.
pub fn set_split_command(id: i64, split: Split) -> (r: String)
    ensures
        r@ == set_split_command_spec(id as int, split),
{
    let mut s = String::from_str("[con_id=\"");
    let digits = i64_to_dec(id);
    s.append(digits.as_str());
    s.append("\"] ");
    s.append(split_keyword_str(split));
    proof {
        assert(s@ =~= set_split_command_spec(id as int, split));
    }
    s
}

/// The command that restores the given layout on the workspace with the
/// given number.
pub open spec fn restore_command_spec(num: int, layout: Seq<char>) -> Seq<char> {
    "[workspace=\""@ + int_dec(num) + "\"] "@ + layout
}

/// Renders the command that restores one workspace's captured layout,
/// scoped to the workspace's number.
pub fn restore_command(num: i32, layout: &str) -> (r: String)
    ensures
        r@ == restore_command_spec(num as int, layout@),
{
    let mut s = String::from_str("[workspace=\"");
    let digits = i64_to_dec(num as i64);
    s.append(digits.as_str());
    s.append("\"] ");
    s.append(layout);
    proof {
        assert(s@ =~= restore_command_spec(num as int, layout@));
    }
    s
}

/// Renders the restoration command of every captured (workspace number,
/// layout) pair, one command per pair, in capture order.
pub fn restore_commands(snapshot: &Vec<(i32, String)>) -> (r: Vec<String>)
    ensures
        r@.len() == snapshot@.len(),
        forall|i: int|
            0 <= i < snapshot@.len() ==> r@[i]@ == restore_command_spec(
                snapshot@[i].0 as int,
                snapshot@[i].1@,
            ),
{
    let mut out: Vec<String> = Vec::new();
    let mut idx: usize = 0;
    while idx < snapshot.len()
        invariant
            idx <= snapshot@.len(),
            out@.len() == idx as int,
            forall|i: int|
                0 <= i < idx as int ==> out@[i]@ == restore_command_spec(
                    snapshot@[i].0 as int,
                    snapshot@[i].1@,
                ),
        decreases snapshot@.len() - idx,
    {
        let entry = &snapshot[idx];
        let cmd = restore_command(entry.0, entry.1.as_str());
        out.push(cmd);
        idx = idx + 1;
    }
    out
}

/// Dispatching the split command twice for the same container and the
/// same orientation repeats the identical command: the command depends
/// on the container id and the orientation alone, so a repeated
/// dispatch asks the compositor for the very state the first one did,
/// with no implicit toggling on this side of the channel.
pub proof fn lemma_set_split_command_repeatable(
    id: int,
    s: Split,
    first_cmd: Seq<char>,
    second_cmd: Seq<char>,
)
    requires
        first_cmd == set_split_command_spec(id, s),
        second_cmd == set_split_command_spec(id, s),
    ensures
        first_cmd == second_cmd,
{
}

} // verus!
