//! The editor boundary prober's decision core: where the editor's control
//! channel lives, what to ask it, and what its answers mean for the
//! boundary verdict. The channel itself is a unix socket the host drives;
//! this module fixes the path, the commands, and the verdict.

use vstd::prelude::*;

verus! {

use crate::direction::Direction;
use crate::resolver::BoundaryVerdict;
use crate::strutil::{append_decimal, decimal_digits};
use vstd::string::StringExecFns;

/// The deterministic path of the editor instance's control socket, derived
/// from the owning user's numeric id and the editor instance id.
pub fn socket_path(user_id: usize, instance_id: usize) -> (r: String)
    ensures
        r@ == "/run/user/"@ + decimal_digits(user_id as int) + "/nvim."@ + decimal_digits(
            instance_id as int,
        ) + ".0"@,
{
    let mut s = String::from_str("/run/user/");
    append_decimal(&mut s, user_id);
    s.append("/nvim.");
    append_decimal(&mut s, instance_id);
    s.append(".0");
    s
}

/// The expression whose evaluation asks the editor for its active window
/// number.
pub fn winnr_expression() -> (r: &'static str)
    ensures
        r@ == "winnr()"@,
{
    "winnr()"
}

/// The editor command that moves the active window one split in direction
/// `d`.
pub fn wincmd_command(d: Direction) -> (r: String)
    ensures
        r@ == "wincmd "@ + d.spec_vim(),
{
    let mut s = String::from_str("wincmd ");
    s.append(d.vim());
    s
}

/// The active window number the editor reported, with the zero it answers
/// on failure read as "unobtainable".
pub fn window_number(raw: u64) -> (r: Option<u64>)
    ensures
        raw == 0 ==> r is None,
        raw != 0 ==> r == Some(raw),
{
    if raw == 0 {
        None
    } else {
        Some(raw)
    }
}

/// The boundary verdict the editor's observations amount to: an absent
/// control socket is `Unreachable`; a window number that stayed equal, or
/// could not be read on either side of the move, is `AtEdge`; only a
/// window number that visibly changed is `Absorbed`.
pub open spec fn spec_editor_verdict(
    socket_exists: bool,
    old_winid: Option<u64>,
    new_winid: Option<u64>,
) -> BoundaryVerdict {
    if !socket_exists {
        BoundaryVerdict::Unreachable
    } else {
        match (old_winid, new_winid) {
            (Some(a), Some(b)) => if a != b {
                BoundaryVerdict::Absorbed
            } else {
                BoundaryVerdict::AtEdge
            },
            _ => BoundaryVerdict::AtEdge,
        }
    }
}

/// Decides whether a directional split-move was absorbed inside the
/// editor. `socket_exists` says whether the instance's control socket was
/// found; `old_winid` and `new_winid` are the active window numbers read
/// before and after issuing the move command, `None` where unobtainable.
/// On `AtEdge` or `Unreachable` the caller falls through to the next outer
/// layer with editor probing disabled, so the re-dispatch cannot loop back
/// into the same instance.
pub fn focus(socket_exists: bool, old_winid: Option<u64>, new_winid: Option<u64>) -> (v:
    BoundaryVerdict)
    ensures
        v == spec_editor_verdict(socket_exists, old_winid, new_winid),
{
    if !socket_exists {
        BoundaryVerdict::Unreachable
    } else {
        match (old_winid, new_winid) {
            (Some(a), Some(b)) => if a != b {
                BoundaryVerdict::Absorbed
            } else {
                BoundaryVerdict::AtEdge
            },
            _ => BoundaryVerdict::AtEdge,
        }
    }
}

} // verus!
