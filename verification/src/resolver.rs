//! The routing resolver: a stateless-per-invocation machine that walks the
//! fixed layer precedence — editor, terminal emulator, multiplexer, nested
//! session — over whatever identities the focused title carries, asks the
//! host to probe one layer at a time, and settles on the first absorption,
//! falling back to the host window manager when every inner layer reports
//! an edge.
//!
//! The host drives it as a plain loop: while `pending` names a query, run
//! the probe and hand the verdict to `report`; when `outcome` answers, do
//! what it says. All probing transports stay with the host; every routing
//! decision is made here.

use vstd::prelude::*;

verus! {

use crate::direction::Direction;
use crate::identity::FocusedSurfaceIdentity;
use vstd::string::StringExecFns;

/// What attempting a move inside one layer amounted to. `Unreachable` — the
/// layer's control channel could not be reached at all — falls through to
/// the next layer exactly as `AtEdge` does.
#[derive(Clone, Copy, PartialEq, Eq, Structural, Debug)]
pub enum BoundaryVerdict {
    /// The move happened and stayed inside the layer: stop.
    Absorbed,
    /// The layer has no further destination in this direction: fall
    /// through.
    AtEdge,
    /// The layer's control channel was missing or broken: fall through.
    Unreachable,
}

/// One probe the resolver asks its host to run. The direction of the move
/// is the resolver's own and does not vary per query.
#[derive(Clone, Debug)]
pub enum Query {
    /// Probe the editor instance's split grid; report what
    /// `nvim::focus` decides from the observations.
    EditorProbe { instance_id: usize },
    /// Probe the emulator's pane grid; report `Absorbed` when
    /// `wezterm::focus` says the move landed, else `AtEdge`.
    TerminalProbe { pid: usize, pane_id: usize },
    /// Compute the multiplexer edge test for the pane's window; report
    /// `AtEdge` when `tmux::is_tmux_edge` holds, else `Absorbed` — the
    /// multiplexer can take the move.
    MultiplexerEdge { pane_id: usize },
    /// Probe the nested session by layout snapshots; report `Absorbed`
    /// when `zellij::focus` saw them differ, else `AtEdge`.
    NestedSessionProbe { session_id: String },
}

/// What one whole resolution settles on.
#[derive(Clone, Copy, PartialEq, Eq, Structural, Debug)]
pub enum Outcome {
    /// An inner layer absorbed the move; nothing further to issue.
    Handled,
    /// The multiplexer pane is not at the edge: issue its focus command
    /// for this pane and stop.
    MultiplexerFocus { pane_id: usize },
    /// No layer absorbed the move: issue the host window manager's own
    /// focus command, the always-available outermost fallback.
    WindowManagerFocus,
}

/// Where the resolver stands: waiting on one layer's probe, or settled.
#[derive(Clone, Copy, PartialEq, Eq, Structural, Debug)]
pub enum Stage {
    Editor,
    Terminal,
    Multiplexer,
    Nested,
    Settled(Outcome),
}

/// The first layer at or below `Editor` in precedence that the identity
/// makes applicable; with none, the resolution settles on the window
/// manager at once.
pub open spec fn spec_entry_stage(identity: FocusedSurfaceIdentity, skip_editor: bool) -> Stage {
    if identity.editor_instance_id is Some && !skip_editor {
        Stage::Editor
    } else if identity.terminal_pid_and_pane is Some {
        Stage::Terminal
    } else if identity.multiplexer_pane_id is Some {
        Stage::Multiplexer
    } else if identity.nested_session_id is Some {
        Stage::Nested
    } else {
        Stage::Settled(Outcome::WindowManagerFocus)
    }
}

/// The stage a fall-through from `stage` lands on: the next applicable
/// layer in precedence, or the settled window-manager fallback.
pub open spec fn spec_next_stage(identity: FocusedSurfaceIdentity, stage: Stage) -> Stage {
    match stage {
        Stage::Editor => if identity.terminal_pid_and_pane is Some {
            Stage::Terminal
        } else if identity.multiplexer_pane_id is Some {
            Stage::Multiplexer
        } else if identity.nested_session_id is Some {
            Stage::Nested
        } else {
            Stage::Settled(Outcome::WindowManagerFocus)
        },
        Stage::Terminal => if identity.multiplexer_pane_id is Some {
            Stage::Multiplexer
        } else if identity.nested_session_id is Some {
            Stage::Nested
        } else {
            Stage::Settled(Outcome::WindowManagerFocus)
        },
        Stage::Multiplexer => if identity.nested_session_id is Some {
            Stage::Nested
        } else {
            Stage::Settled(Outcome::WindowManagerFocus)
        },
        Stage::Nested => Stage::Settled(Outcome::WindowManagerFocus),
        Stage::Settled(o) => Stage::Settled(o),
    }
}

/// The stage one verdict moves the resolver to. Absorption settles the
/// resolution; at the multiplexer stage a "not at edge" report settles on
/// the multiplexer's own focus command; everything else falls through.
pub open spec fn spec_step(
    identity: FocusedSurfaceIdentity,
    stage: Stage,
    verdict: BoundaryVerdict,
) -> Stage {
    match stage {
        Stage::Editor => match verdict {
            BoundaryVerdict::Absorbed => Stage::Settled(Outcome::Handled),
            _ => spec_next_stage(identity, Stage::Editor),
        },
        Stage::Terminal => match verdict {
            BoundaryVerdict::Absorbed => Stage::Settled(Outcome::Handled),
            _ => spec_next_stage(identity, Stage::Terminal),
        },
        Stage::Multiplexer => match verdict {
            BoundaryVerdict::Absorbed => match identity.multiplexer_pane_id {
                Some(pane_id) => Stage::Settled(Outcome::MultiplexerFocus { pane_id }),
                None => spec_next_stage(identity, Stage::Multiplexer),
            },
            _ => spec_next_stage(identity, Stage::Multiplexer),
        },
        Stage::Nested => match verdict {
            BoundaryVerdict::Absorbed => Stage::Settled(Outcome::Handled),
            _ => spec_next_stage(identity, Stage::Nested),
        },
        Stage::Settled(o) => Stage::Settled(o),
    }
}

/// One focus-routing resolution in flight. Constructed fresh per
/// keystroke; nothing survives an invocation.
#[derive(Clone, Debug)]
pub struct Resolver {
    /// The identities the focused title carries.
    pub identity: FocusedSurfaceIdentity,
    /// The direction of the move being routed.
    pub direction: Direction,
    /// Whether the editor layer is excluded, as on a re-dispatch after an
    /// editor-side edge.
    pub skip_editor: bool,
    /// Where the resolution stands.
    pub stage: Stage,
}

impl Resolver {
    /// The stage only names a layer whose identity is present (and, for
    /// the editor, not skipped).
    pub open spec fn wf(&self) -> bool {
        match self.stage {
            Stage::Editor => self.identity.editor_instance_id is Some && !self.skip_editor,
            Stage::Terminal => self.identity.terminal_pid_and_pane is Some,
            Stage::Multiplexer => self.identity.multiplexer_pane_id is Some,
            Stage::Nested => self.identity.nested_session_id is Some,
            Stage::Settled(_) => true,
        }
    }

    /// The probe the resolver is waiting on, if it has not settled.
    pub open spec fn spec_pending(&self) -> Option<Query> {
        match self.stage {
            Stage::Editor => match self.identity.editor_instance_id {
                Some(instance_id) => Some(Query::EditorProbe { instance_id }),
                None => None,
            },
            Stage::Terminal => match self.identity.terminal_pid_and_pane {
                Some(pp) => Some(Query::TerminalProbe { pid: pp.0, pane_id: pp.1 }),
                None => None,
            },
            Stage::Multiplexer => match self.identity.multiplexer_pane_id {
                Some(pane_id) => Some(Query::MultiplexerEdge { pane_id }),
                None => None,
            },
            Stage::Nested => match self.identity.nested_session_id {
                Some(session_id) => Some(Query::NestedSessionProbe { session_id }),
                None => None,
            },
            Stage::Settled(_) => None,
        }
    }

    /// What the resolution settled on, once it has.
    pub open spec fn spec_outcome(&self) -> Option<Outcome> {
        match self.stage {
            Stage::Settled(o) => Some(o),
            _ => None,
        }
    }

    /// Starts a resolution for one directional move over the identities a
    /// focused title decoded to. With `skip_editor`, the editor layer is
    /// left out of the precedence walk.
    pub fn new(identity: FocusedSurfaceIdentity, direction: Direction, skip_editor: bool) -> (r:
        Resolver)
        ensures
            r.identity == identity,
            r.direction == direction,
            r.skip_editor == skip_editor,
            r.stage == spec_entry_stage(identity, skip_editor),
            r.wf(),
    {
        let stage = if identity.editor_instance_id.is_some() && !skip_editor {
            Stage::Editor
        } else if identity.terminal_pid_and_pane.is_some() {
            Stage::Terminal
        } else if identity.multiplexer_pane_id.is_some() {
            Stage::Multiplexer
        } else if identity.nested_session_id.is_some() {
            Stage::Nested
        } else {
            Stage::Settled(Outcome::WindowManagerFocus)
        };
        Resolver { identity, direction, skip_editor, stage }
    }

    /// The probe the host should run next, or `None` once the resolution
    /// has settled.
    pub fn pending(&self) -> (q: Option<Query>)
        ensures
            q == self.spec_pending(),
            self.wf() ==> (q is None <==> self.spec_outcome() is Some),
    {
        match self.stage {
            Stage::Editor => match &self.identity.editor_instance_id {
                Some(instance_id) => Some(Query::EditorProbe { instance_id: *instance_id }),
                None => None,
            },
            Stage::Terminal => match &self.identity.terminal_pid_and_pane {
                Some(pp) => Some(Query::TerminalProbe { pid: pp.0, pane_id: pp.1 }),
                None => None,
            },
            Stage::Multiplexer => match &self.identity.multiplexer_pane_id {
                Some(pane_id) => Some(Query::MultiplexerEdge { pane_id: *pane_id }),
                None => None,
            },
            Stage::Nested => match &self.identity.nested_session_id {
                Some(session_id) => Some(
                    Query::NestedSessionProbe { session_id: session_id.clone() },
                ),
                None => None,
            },
            Stage::Settled(_) => None,
        }
    }

    /// Hands the resolver the verdict of the probe it was waiting on and
    /// moves it one step: absorption settles the resolution, an edge or an
    /// unreachable channel falls through to the next applicable layer, and
    /// a settled resolver stays put.
    pub fn report(self, verdict: BoundaryVerdict) -> (r: Resolver)
        ensures
            r.identity == self.identity,
            r.direction == self.direction,
            r.skip_editor == self.skip_editor,
            r.stage == spec_step(self.identity, self.stage, verdict),
            r.wf(),
    {
        let Resolver { identity, direction, skip_editor, stage } = self;
        let absorbed = matches!(verdict, BoundaryVerdict::Absorbed);
        let new_stage = match stage {
            Stage::Editor => if absorbed {
                Stage::Settled(Outcome::Handled)
            } else {
                Self::next_stage(&identity, Stage::Editor)
            },
            Stage::Terminal => if absorbed {
                Stage::Settled(Outcome::Handled)
            } else {
                Self::next_stage(&identity, Stage::Terminal)
            },
            Stage::Multiplexer => if absorbed {
                match &identity.multiplexer_pane_id {
                    Some(pane_id) => Stage::Settled(Outcome::MultiplexerFocus {
                        pane_id: *pane_id,
                    }),
                    None => Self::next_stage(&identity, Stage::Multiplexer),
                }
            } else {
                Self::next_stage(&identity, Stage::Multiplexer)
            },
            Stage::Nested => if absorbed {
                Stage::Settled(Outcome::Handled)
            } else {
                Self::next_stage(&identity, Stage::Nested)
            },
            Stage::Settled(o) => Stage::Settled(o),
        };
        Resolver { identity, direction, skip_editor, stage: new_stage }
    }

    /// What the resolution settled on, or `None` while a probe is still
    /// owed.
    pub fn outcome(&self) -> (r: Option<Outcome>)
        ensures
            r == self.spec_outcome(),
    {
        match self.stage {
            Stage::Settled(o) => Some(o),
            _ => None,
        }
    }

    /// The next applicable stage after falling through `from`.
    fn next_stage(identity: &FocusedSurfaceIdentity, from: Stage) -> (r: Stage)
        ensures
            r == spec_next_stage(*identity, from),
    {
        match from {
            Stage::Editor => if identity.terminal_pid_and_pane.is_some() {
                Stage::Terminal
            } else if identity.multiplexer_pane_id.is_some() {
                Stage::Multiplexer
            } else if identity.nested_session_id.is_some() {
                Stage::Nested
            } else {
                Stage::Settled(Outcome::WindowManagerFocus)
            },
            Stage::Terminal => if identity.multiplexer_pane_id.is_some() {
                Stage::Multiplexer
            } else if identity.nested_session_id.is_some() {
                Stage::Nested
            } else {
                Stage::Settled(Outcome::WindowManagerFocus)
            },
            Stage::Multiplexer => if identity.nested_session_id.is_some() {
                Stage::Nested
            } else {
                Stage::Settled(Outcome::WindowManagerFocus)
            },
            Stage::Nested => Stage::Settled(Outcome::WindowManagerFocus),
            Stage::Settled(o) => Stage::Settled(o),
        }
    }
}

/// The host window manager's own focus command for a direction, the
/// resolver's terminal fallback: `focus <direction>`.
pub fn wm_focus_command(direction: Direction) -> (r: String)
    ensures
        r@ == "focus "@ + direction.spec_name(),
{
    let mut s = String::from_str("focus ");
    s.append(direction.name());
    s
}

/// An identity with no present layer settles, without consulting any
/// layer, on the outermost window-manager focus command.
pub proof fn lemma_empty_identity_goes_to_window_manager(
    identity: FocusedSurfaceIdentity,
    skip_editor: bool,
)
    requires
        identity.editor_instance_id is None,
        identity.multiplexer_pane_id is None,
        identity.terminal_pid_and_pane is None,
        identity.nested_session_id is None,
    ensures
        spec_entry_stage(identity, skip_editor) == Stage::Settled(Outcome::WindowManagerFocus),
{
}

/// A title with no recognized sentinel leaves the resolver a single
/// action: the outermost window-manager focus command.
pub proof fn lemma_unrecognized_title_resolves_to_window_manager(
    title: Seq<char>,
    identity: FocusedSurfaceIdentity,
    skip_editor: bool,
)
    requires
        !crate::identity::has_sentinel(title),
        identity.editor_instance_id == crate::identity::spec_nvim_id(title),
        identity.multiplexer_pane_id == crate::identity::spec_tmux_id(title),
        identity.terminal_pid_and_pane == crate::identity::spec_wezterm_id(title),
        identity.nested_session_id.deep_view() == crate::identity::spec_zellij_id(title),
    ensures
        spec_entry_stage(identity, skip_editor) == Stage::Settled(Outcome::WindowManagerFocus),
{
    crate::identity::lemma_unrecognized_title_decodes_empty(title);
}

/// Resolution accrues no hidden state: two resolvers built for the same
/// identity-free title — as on two successive keystrokes — both settle at
/// once, owe no probe, and name the same single outermost command.
pub proof fn lemma_resolution_idempotent(
    identity: FocusedSurfaceIdentity,
    direction: Direction,
    skip_editor: bool,
    first: Resolver,
    second: Resolver,
)
    requires
        identity.editor_instance_id is None,
        identity.multiplexer_pane_id is None,
        identity.terminal_pid_and_pane is None,
        identity.nested_session_id is None,
        first.identity == identity,
        first.stage == spec_entry_stage(identity, skip_editor),
        second.identity == identity,
        second.stage == spec_entry_stage(identity, skip_editor),
    ensures
        first.spec_pending() is None,
        second.spec_pending() is None,
        first.spec_outcome() == Some(Outcome::WindowManagerFocus),
        second.spec_outcome() == first.spec_outcome(),
{
}

} // verus!
