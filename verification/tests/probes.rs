use focus_router::direction::Direction;
use focus_router::nvim::{focus as nvim_focus, socket_path, wincmd_command, window_number,
    winnr_expression};
use focus_router::resolver::BoundaryVerdict;
use focus_router::strutil::{parse_usize, split_lines, split_seq_str, trim, usize_to_string};
use focus_router::wezterm::{focus as wezterm_focus, WezTermId};
use focus_router::zellij::focus as zellij_focus;

#[test]
fn editor_verdict_requires_a_socket_and_a_visible_change() {
    assert_eq!(nvim_focus(false, Some(1), Some(2)), BoundaryVerdict::Unreachable);
    assert_eq!(nvim_focus(true, Some(2), Some(2)), BoundaryVerdict::AtEdge);
    assert_eq!(nvim_focus(true, Some(2), Some(3)), BoundaryVerdict::Absorbed);
    assert_eq!(nvim_focus(true, None, Some(1)), BoundaryVerdict::AtEdge);
    assert_eq!(nvim_focus(true, Some(1), None), BoundaryVerdict::AtEdge);
    assert_eq!(nvim_focus(true, None, None), BoundaryVerdict::AtEdge);
}

#[test]
fn editor_channel_is_addressed_by_user_and_instance() {
    assert_eq!(socket_path(1000, 7), "/run/user/1000/nvim.7.0");
    assert_eq!(socket_path(0, 0), "/run/user/0/nvim.0.0");
}

#[test]
fn editor_commands_are_built_from_the_direction() {
    assert_eq!(wincmd_command(Direction::Left), "wincmd h");
    assert_eq!(wincmd_command(Direction::Right), "wincmd l");
    assert_eq!(wincmd_command(Direction::Up), "wincmd k");
    assert_eq!(wincmd_command(Direction::Down), "wincmd j");
    assert_eq!(winnr_expression(), "winnr()");
    assert_eq!(window_number(0), None);
    assert_eq!(window_number(4), Some(4));
}

#[test]
fn emulator_absorption_compares_pane_ids() {
    let id = WezTermId { pid: 100, pane_id: 5 };
    assert!(wezterm_focus(&id, Some("7\n")), "a different pane means the move landed");
    assert!(!wezterm_focus(&id, Some("5\n")), "the same pane means the edge");
    assert!(!wezterm_focus(&id, Some("pane?")), "an unparseable answer means no move");
    assert!(!wezterm_focus(&id, None), "an unreachable emulator means no move");
    assert!(wezterm_focus(&id, Some("  7  ")), "whitespace around the answer is noise");
}

#[test]
fn emulator_socket_is_addressed_by_pid() {
    let id = WezTermId { pid: 4242, pane_id: 1 };
    assert_eq!(id.socket("/run/user/1000"), "/run/user/1000/wezterm/gui-sock-4242");
}

#[test]
fn nested_session_absorption_is_a_layout_difference() {
    assert!(zellij_focus("before", "after"));
    assert!(!zellij_focus("same", "same"));
    assert!(!zellij_focus("", ""));
}

#[test]
fn direction_tokens_match_each_layer() {
    assert_eq!(Direction::Left.name(), "left");
    assert_eq!(Direction::Down.name(), "down");
    assert_eq!(Direction::Left.vim(), "h");
    assert_eq!(Direction::Down.vim(), "j");
    assert_eq!(Direction::Left.tmux(), "-L");
    assert_eq!(Direction::Up.tmux(), "-U");
    assert_eq!(Direction::Right.wezterm(), "Right");
    assert_eq!(Direction::Right.wezterm_shortcut(), "l");
    assert_eq!(Direction::Up.zellij(), "up");
}

#[test]
fn direction_names_read_back() {
    for d in [Direction::Left, Direction::Right, Direction::Up, Direction::Down] {
        assert_eq!(Direction::from_name(d.name()), Some(d));
    }
    assert_eq!(Direction::from_name("sideways"), None);
    assert_eq!(Direction::from_name("Left"), None);
}

#[test]
fn numbers_parse_and_print_exactly() {
    assert_eq!(parse_usize("42"), Some(42));
    assert_eq!(parse_usize("+7"), Some(7));
    assert_eq!(parse_usize(""), None);
    assert_eq!(parse_usize("+"), None);
    assert_eq!(parse_usize("4 2"), None);
    assert_eq!(parse_usize("-4"), None);
    assert_eq!(parse_usize("99999999999999999999999999"), None);
    assert_eq!(usize_to_string(0), "0");
    assert_eq!(usize_to_string(42), "42");
    assert_eq!(usize_to_string(usize::MAX), format!("{}", usize::MAX));
    for n in [0usize, 1, 9, 10, 4096, 65535] {
        assert_eq!(parse_usize(&usize_to_string(n)), Some(n));
    }
}

#[test]
fn string_helpers_match_std() {
    assert_eq!(trim("  x \n"), "x");
    assert_eq!(trim("\u{a0}x\u{3000}"), "x");
    assert_eq!(trim("   "), "");
    assert_eq!(split_lines("a\nb\n"), vec!["a", "b"]);
    assert_eq!(split_lines("a\r\nb"), vec!["a", "b"]);
    assert_eq!(split_lines(""), Vec::<String>::new());
    assert_eq!(split_lines("a\r"), vec!["a\r"], "a final line keeps a bare carriage return");
    assert_eq!(split_lines("a\r\n"), vec!["a"]);
    assert_eq!(split_seq_str("a:::b", "::"), vec!["a", ":b"]);
    assert_eq!(split_seq_str("12::1", "::"), vec!["12", "1"]);
    assert_eq!(split_seq_str("none", "::"), vec!["none"]);
}
