use focus_router::direction::Direction;
use focus_router::identity::decode;
use focus_router::resolver::{BoundaryVerdict, Outcome, Query, Resolver, wm_focus_command};
use focus_router::tmux::is_tmux_edge;

#[test]
fn editor_absorption_issues_no_further_command() {
    // Scenario: focused title names editor instance 7; its probe absorbs a
    // leftward move. Neither a multiplexer nor a window-manager command may
    // follow.
    let id = decode("main.rs:nvim:7");
    assert_eq!(id.editor_instance_id, Some(7));
    let r = Resolver::new(id, Direction::Left, false);
    assert!(matches!(r.pending(), Some(Query::EditorProbe { instance_id: 7 })));
    let r = r.report(BoundaryVerdict::Absorbed);
    assert!(r.pending().is_none());
    assert_eq!(r.outcome(), Some(Outcome::Handled));
}

#[test]
fn multiplexer_edge_falls_back_to_window_manager() {
    // Scenario: pane 3 sits at the window's left edge, so a leftward move
    // leaves the multiplexer and lands on the window manager's own focus
    // command; no multiplexer command is issued.
    let id = decode("shell |t$3");
    assert_eq!(id.multiplexer_pane_id, Some(3));
    let r = Resolver::new(id, Direction::Left, false);
    assert!(matches!(r.pending(), Some(Query::MultiplexerEdge { pane_id: 3 })));
    let at_edge = is_tmux_edge(Direction::Left, Some("0::1\n"), None, None);
    assert!(at_edge);
    let r = r.report(BoundaryVerdict::AtEdge);
    assert!(r.pending().is_none());
    assert_eq!(r.outcome(), Some(Outcome::WindowManagerFocus));
    assert_eq!(wm_focus_command(Direction::Left), "focus left");
}

#[test]
fn multiplexer_inside_window_takes_the_move() {
    // Scenario: pane 3 is not at the right edge, so the resolver orders
    // exactly one multiplexer pane select for pane 3 and no window-manager
    // command.
    let id = decode("shell |t$3");
    let r = Resolver::new(id, Direction::Right, false);
    assert!(matches!(r.pending(), Some(Query::MultiplexerEdge { pane_id: 3 })));
    let at_edge = is_tmux_edge(Direction::Right, Some("40::1\n"), Some("80::1\n"), None);
    assert!(!at_edge);
    let r = r.report(BoundaryVerdict::Absorbed);
    assert!(r.pending().is_none());
    assert_eq!(r.outcome(), Some(Outcome::MultiplexerFocus { pane_id: 3 }));
    assert_eq!(
        focus_router::tmux::focus(3, Direction::Right),
        vec!["select-pane", "-t", "$3", "-R"]
    );
}

#[test]
fn identity_free_title_resolves_identically_twice() {
    // Two successive keystrokes over a title that decodes to nothing give
    // the same single outermost command: no state survives an invocation.
    let mut commands = Vec::new();
    for _ in 0..2 {
        let id = decode("plain editor window");
        let r = Resolver::new(id, Direction::Up, false);
        assert!(r.pending().is_none());
        assert_eq!(r.outcome(), Some(Outcome::WindowManagerFocus));
        commands.push(wm_focus_command(Direction::Up));
    }
    assert_eq!(commands[0], commands[1]);
    assert_eq!(commands[0], "focus up");
}

#[test]
fn precedence_walks_editor_before_nested() {
    let id = decode("Zellij (m):nvim:7");
    assert_eq!(id.editor_instance_id, Some(7));
    assert_eq!(id.nested_session_id.as_deref(), Some("m"));
    assert_eq!(id.multiplexer_pane_id, None);
    assert_eq!(id.terminal_pid_and_pane, None);

    let r = Resolver::new(id, Direction::Down, false);
    assert!(matches!(r.pending(), Some(Query::EditorProbe { instance_id: 7 })));
    let r = r.report(BoundaryVerdict::AtEdge);
    match r.pending() {
        Some(Query::NestedSessionProbe { session_id }) => assert_eq!(session_id, "m"),
        other => panic!("expected the nested-session probe, got {other:?}"),
    }
    let r = r.report(BoundaryVerdict::AtEdge);
    assert_eq!(r.outcome(), Some(Outcome::WindowManagerFocus));
}

#[test]
fn precedence_walks_multiplexer_before_nested() {
    let id = decode("Zellij (m) |t$3");
    assert_eq!(id.multiplexer_pane_id, Some(3));
    assert_eq!(id.nested_session_id.as_deref(), Some("m"));

    let r = Resolver::new(id, Direction::Down, false);
    assert!(matches!(r.pending(), Some(Query::MultiplexerEdge { pane_id: 3 })));
    let r = r.report(BoundaryVerdict::AtEdge);
    match r.pending() {
        Some(Query::NestedSessionProbe { session_id }) => assert_eq!(session_id, "m"),
        other => panic!("expected the nested-session probe, got {other:?}"),
    }
    let r = r.report(BoundaryVerdict::AtEdge);
    assert_eq!(r.outcome(), Some(Outcome::WindowManagerFocus));
}

#[test]
fn unreachable_editor_falls_through_like_an_edge() {
    let id = decode("Zellij (m):nvim:7");
    let r = Resolver::new(id, Direction::Down, false);
    assert!(matches!(r.pending(), Some(Query::EditorProbe { instance_id: 7 })));
    let r = r.report(BoundaryVerdict::Unreachable);
    assert!(matches!(r.pending(), Some(Query::NestedSessionProbe { .. })));
}

#[test]
fn skip_editor_leaves_the_editor_out() {
    let id = decode("Zellij (m):nvim:7");
    assert_eq!(id.editor_instance_id, Some(7));
    let r = Resolver::new(id, Direction::Left, true);
    assert!(matches!(r.pending(), Some(Query::NestedSessionProbe { .. })));
}

#[test]
fn terminal_absorption_settles_the_move() {
    let id = decode("sh |w$100:5");
    let r = Resolver::new(id, Direction::Right, false);
    assert!(matches!(r.pending(), Some(Query::TerminalProbe { pid: 100, pane_id: 5 })));
    let absorbed = focus_router::wezterm::focus(
        &focus_router::wezterm::WezTermId { pid: 100, pane_id: 5 },
        Some("7\n"),
    );
    assert!(absorbed);
    let r = r.report(BoundaryVerdict::Absorbed);
    assert_eq!(r.outcome(), Some(Outcome::Handled));
}

#[test]
fn nested_session_absorption_settles_the_move() {
    let id = decode("Zellij (main)");
    let r = Resolver::new(id, Direction::Left, false);
    match r.pending() {
        Some(Query::NestedSessionProbe { session_id }) => assert_eq!(session_id, "main"),
        other => panic!("expected the nested-session probe, got {other:?}"),
    }
    assert!(focus_router::zellij::focus("layout a", "layout b"));
    let r = r.report(BoundaryVerdict::Absorbed);
    assert_eq!(r.outcome(), Some(Outcome::Handled));
}

#[test]
fn settled_resolver_ignores_further_reports() {
    let id = decode("plain");
    let r = Resolver::new(id, Direction::Left, false);
    assert_eq!(r.outcome(), Some(Outcome::WindowManagerFocus));
    let r = r.report(BoundaryVerdict::Absorbed);
    assert_eq!(r.outcome(), Some(Outcome::WindowManagerFocus));
}

#[test]
fn wm_focus_command_names_each_direction() {
    assert_eq!(wm_focus_command(Direction::Left), "focus left");
    assert_eq!(wm_focus_command(Direction::Right), "focus right");
    assert_eq!(wm_focus_command(Direction::Up), "focus up");
    assert_eq!(wm_focus_command(Direction::Down), "focus down");
}
