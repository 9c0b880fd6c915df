use focus_router::direction::Direction;
use focus_router::tmux::{height_format, is_tmux_edge, list_panes_args, maybe_is_tmux_edge,
    offset_format, tmux_active_pane_format, tmux_height, tmux_offset, tmux_width, width_format};

#[test]
fn active_pane_line_is_found_and_read() {
    assert_eq!(tmux_active_pane_format("0::0\n3::1\n80::0\n"), Some(3));
    assert_eq!(tmux_active_pane_format("12::1"), Some(12));
    assert_eq!(tmux_active_pane_format("0::0\n80::0\n"), None, "no active line");
    assert_eq!(tmux_active_pane_format(""), None);
    assert_eq!(tmux_active_pane_format("abc::1\n"), None, "field must be numeric");
    assert_eq!(tmux_active_pane_format("5::1\n7::1\n"), Some(5), "first active line wins");
    assert_eq!(tmux_active_pane_format("1"), Some(1), "a bare 1 line is its own flag");
}

#[test]
fn offset_width_and_height_read_the_same_listing_shape() {
    assert_eq!(tmux_offset("0::1\n"), Some(0));
    assert_eq!(tmux_width("80::1\n"), Some(80));
    assert_eq!(tmux_height("24::1\n"), Some(24));
}

#[test]
fn pane_at_zero_offset_is_left_edge() {
    assert!(is_tmux_edge(Direction::Left, Some("0::1\n"), None, None));
}

#[test]
fn pane_at_nonzero_offset_is_not_left_edge() {
    assert!(!is_tmux_edge(Direction::Left, Some("3::1\n"), None, None));
}

#[test]
fn trailing_edges_compare_offset_to_extent() {
    assert!(is_tmux_edge(Direction::Right, Some("79::1\n"), Some("80::1\n"), None));
    assert!(!is_tmux_edge(Direction::Right, Some("40::1\n"), Some("80::1\n"), None));
    assert!(is_tmux_edge(Direction::Down, Some("23::1\n"), None, Some("24::1\n")));
    assert!(!is_tmux_edge(Direction::Down, Some("10::1\n"), None, Some("24::1\n")));
    assert!(is_tmux_edge(Direction::Up, Some("0::1\n"), None, None));
    assert!(!is_tmux_edge(Direction::Up, Some("1::1\n"), None, None));
}

#[test]
fn unreadable_geometry_counts_as_edge_in_every_direction() {
    for d in [Direction::Left, Direction::Right, Direction::Up, Direction::Down] {
        assert!(is_tmux_edge(d, None, Some("80::1\n"), Some("24::1\n")));
        assert!(is_tmux_edge(d, Some("0::0\n"), Some("80::1\n"), Some("24::1\n")));
        assert!(is_tmux_edge(d, Some("junk"), Some("80::1\n"), Some("24::1\n")));
    }
    assert!(is_tmux_edge(Direction::Right, Some("40::1\n"), None, None));
    assert!(is_tmux_edge(Direction::Down, Some("10::1\n"), None, None));
}

#[test]
fn maybe_edge_reports_unreadable_listings_as_none() {
    assert_eq!(maybe_is_tmux_edge(Direction::Left, None, None, None), None);
    assert_eq!(maybe_is_tmux_edge(Direction::Left, Some("0::1\n"), None, None), Some(true));
    assert_eq!(maybe_is_tmux_edge(Direction::Right, Some("40::1\n"), None, None), None);
}

#[test]
fn select_pane_arguments_name_the_pane_and_direction() {
    let args = focus_router::tmux::focus(3, Direction::Right);
    assert_eq!(args, vec!["select-pane", "-t", "$3", "-R"]);
    let args = focus_router::tmux::focus(0, Direction::Up);
    assert_eq!(args, vec!["select-pane", "-t", "$0", "-U"]);
}

#[test]
fn list_panes_arguments_carry_format_and_active_flag() {
    let args = list_panes_args(7, offset_format(Direction::Left));
    assert_eq!(
        args,
        vec!["list-panes", "-t", "$7", "-F", "#{pane_left}::#{pane_active}"]
    );
    assert_eq!(offset_format(Direction::Right), "#{pane_right}");
    assert_eq!(offset_format(Direction::Up), "#{pane_top}");
    assert_eq!(offset_format(Direction::Down), "#{pane_bottom}");
    assert_eq!(width_format(), "#{window_width}");
    assert_eq!(height_format(), "#{window_height}");
}
