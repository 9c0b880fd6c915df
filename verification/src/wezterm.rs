//! The terminal emulator's boundary prober: given the emulator's answer to a
//! directional pane query, decide whether the move stays inside the
//! emulator's own pane grid.

use vstd::prelude::*;

verus! {

use crate::strutil::{append_decimal, decimal_digits, spec_parse_usize, spec_trim, parse_usize,
    trim};
use vstd::string::StringExecFns;

/// The identity a terminal-emulator pane embeds in a surface title: the
/// emulator process and the pane inside it.
#[derive(Clone, Copy, PartialEq, Eq, Structural, Debug)]
pub struct WezTermId {
    pub pid: usize,
    pub pane_id: usize,
}

impl WezTermId {
    /// The path of the emulator process's control socket under the runtime
    /// directory.
    pub fn socket(&self, runtime_dir: &str) -> (r: String)
        ensures
            r@ == runtime_dir@ + "/wezterm/gui-sock-"@ + decimal_digits(self.pid as int),
    {
        let mut s = String::from_str(runtime_dir);
        s.append("/wezterm/gui-sock-");
        append_decimal(&mut s, self.pid);
        s
    }
}

/// What the emulator's directional pane query must have answered for the
/// move to count as absorbed: a pane id other than the one we started from.
pub open spec fn spec_wezterm_absorbed(id: WezTermId, query_output: Option<Seq<char>>) -> bool {
    match query_output {
        Some(out) => match spec_parse_usize(spec_trim(out)) {
            Some(p) => p != id.pane_id,
            None => false,
        },
        None => false,
    }
}

/// Decides whether a directional move was absorbed by the emulator's own
/// pane grid. `query_output` is what the emulator's `get-pane-direction`
/// query printed, or `None` when the query could not be run. The move is
/// absorbed exactly when the answer names a pane other than the one we
/// started from; an unreachable emulator or an unparseable answer counts as
/// not absorbed. On absorption the caller still owes the emulator a
/// synthetic press of the pane-move shortcut, which nudges its rendering
/// pipeline to observe the focus change.
pub fn focus(wezterm_id: &WezTermId, query_output: Option<&str>) -> (absorbed: bool)
    ensures
        absorbed == spec_wezterm_absorbed(*wezterm_id, match query_output {
            Some(out) => Some(out@),
            None => None,
        }),
{
    match query_output {
        Some(out) => {
            match parse_usize(trim(out)) {
                Some(p) => p != wezterm_id.pane_id,
                None => false,
            }
        },
        None => false,
    }
}

} // verus!
