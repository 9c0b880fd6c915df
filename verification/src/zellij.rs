//! The nested-session boundary prober's decision core: a move inside a
//! fully isolated nested multiplexer session is observed by snapshotting
//! the session's layout before and after the move; the move was absorbed
//! exactly when the two snapshots differ. Coarse, but robust against the
//! nested session's internal representation.

use vstd::prelude::*;

verus! {

use crate::strutil::str_eq;

/// Decides whether the nested session absorbed the move: `before` and
/// `after` are its full layout dumps around the `move-focus` action, and
/// any textual difference means the move landed inside the session.
pub fn focus(before: &str, after: &str) -> (absorbed: bool)
    ensures
        absorbed == (before@ != after@),
{
    !str_eq(before, after)
}

} // verus!
