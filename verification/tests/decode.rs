use focus_router::identity::{decode, get_nvim_id, get_tmux_id, get_wezterm_id, get_zellij_id};

#[test]
fn unrecognized_titles_decode_to_all_none() {
    for title in [
        "plain title",
        "",
        "Zellij without parens",
        "something: else",
        "42",
        "vim:7",
    ] {
        let id = decode(title);
        assert!(id.editor_instance_id.is_none(), "editor in {title:?}");
        assert!(id.multiplexer_pane_id.is_none(), "multiplexer in {title:?}");
        assert!(id.terminal_pid_and_pane.is_none(), "terminal in {title:?}");
        assert!(id.nested_session_id.is_none(), "nested in {title:?}");
    }
}

#[test]
fn multiplexer_pane_decodes_after_marker() {
    assert_eq!(decode("shell |t$42").multiplexer_pane_id, Some(42));
    assert_eq!(get_tmux_id("zsh |t$0"), Some(0));
    assert_eq!(get_tmux_id("zsh |t$abc"), None);
    assert_eq!(get_tmux_id("zsh |t$"), None);
    assert_eq!(get_tmux_id("zsh"), None);
}

#[test]
fn multiplexer_pane_takes_last_marker() {
    assert_eq!(decode("shell |t$42 |t$7").multiplexer_pane_id, Some(7));
    assert_eq!(get_tmux_id("a |t$1 |t$2 |t$3"), Some(3));
}

#[test]
fn editor_instance_decodes_only_for_exact_tag() {
    assert_eq!(decode("prefix:nvim:13").editor_instance_id, Some(13));
    assert_eq!(decode("prefix:vim:13").editor_instance_id, None);
    assert_eq!(get_nvim_id("main.rs:nvim:7"), Some(7));
    assert_eq!(get_nvim_id("main.rs:nvim:seven"), None);
    assert_eq!(get_nvim_id("nvim:7"), None, "something must precede the tag");
    assert_eq!(get_nvim_id("a:b:nvim:13"), Some(13), "the pair is read from the right");
    assert_eq!(get_nvim_id("a:nvim:7:rest"), None, "the number must be the trailing token");
}

#[test]
fn terminal_pid_and_pane_decode_after_marker() {
    assert_eq!(decode("shell |w$100:5").terminal_pid_and_pane, Some((100, 5)));
    assert_eq!(decode("shell |w$abc:5").terminal_pid_and_pane, None);
    let w = get_wezterm_id("sh |w$100:5").expect("pair expected");
    assert_eq!((w.pid, w.pane_id), (100, 5));
    assert!(get_wezterm_id("sh |w$100").is_none(), "no pane id");
    assert!(get_wezterm_id("sh |w$100:5:9").is_none(), "trailing text spoils the pane id");
    assert!(get_wezterm_id("sh").is_none());
}

#[test]
fn nested_session_decodes_from_prefix() {
    assert_eq!(decode("Zellij (main)").nested_session_id.as_deref(), Some("main"));
    assert_eq!(get_zellij_id("Zellij (work) extra").as_deref(), Some("work"));
    assert_eq!(get_zellij_id("Zellij ()").as_deref(), Some(""));
    assert!(get_zellij_id("Zellij (never closed").is_none());
    assert!(get_zellij_id("zellij (main)").is_none(), "prefix is case sensitive");
}

#[test]
fn decode_reads_several_identities_from_one_title() {
    let id = decode("Zellij (m):nvim:13");
    assert_eq!(id.editor_instance_id, Some(13));
    assert_eq!(id.nested_session_id.as_deref(), Some("m"));
    assert!(id.multiplexer_pane_id.is_none());
    assert!(id.terminal_pid_and_pane.is_none());
}

#[test]
fn numbers_parse_as_std_does() {
    assert_eq!(get_tmux_id("x |t$+7"), Some(7), "a leading plus is a number");
    assert_eq!(get_tmux_id("x |t$007"), Some(7), "leading zeros are a number");
    assert_eq!(get_tmux_id("x |t$ 7"), None, "inner whitespace is not");
    assert_eq!(
        get_tmux_id("x |t$99999999999999999999999999"),
        None,
        "overflow is rejected, not wrapped"
    );
}
