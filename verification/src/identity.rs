//! The identity decoder: reads the opaque title of the focused surface and
//! extracts whatever layer identities are embedded in it through fixed
//! textual sentinels. Decoding never fails; an absent or malformed sentinel
//! yields `None` for its field.

use vstd::prelude::*;

verus! {

use crate::strutil::{decimal_digits, first_index_of, has_match, is_digit, is_last_match,
    lemma_decimal_digits, lemma_first_index_of, lemma_last_match_unique, lemma_parse_of_decimal,
    match_at, parse_usize, rfind_sub, spec_parse_usize, spec_split_char, split_char, starts_with,
    str_eq, tail_after_last, find_char_from};
use crate::wezterm::WezTermId;
use vstd::string::StrSliceExecFns;
use vstd::string::StringExecFns;

/// The parsed view of a focused surface's raw title. Every field is
/// optional: most windows carry no embedded layer identity at all. The
/// resolver does not assume the fields are exclusive; it tries each present
/// candidate in precedence order.
#[derive(Clone, Debug)]
pub struct FocusedSurfaceIdentity {
    /// The editor instance embedded as `:nvim:<id>`.
    pub editor_instance_id: Option<usize>,
    /// The multiplexer pane embedded after the last ` |t$` marker.
    pub multiplexer_pane_id: Option<usize>,
    /// The emulator process and pane embedded after the last ` |w$` marker
    /// as `<pid>:<pane>`.
    pub terminal_pid_and_pane: Option<(usize, usize)>,
    /// The nested session named by a `Zellij (<session>)` prefix.
    pub nested_session_id: Option<String>,
}

/// The editor instance id embedded in a title: the last `:`-separated
/// token, read as a number, when the second-to-last token is exactly
/// `nvim` — the `:nvim:<id>` sentinel anchors to the end of the title.
pub open spec fn spec_nvim_id(title: Seq<char>) -> Option<usize> {
    let pieces = spec_split_char(title, ':');
    if pieces.len() >= 3 && pieces[pieces.len() - 2] == "nvim"@ {
        spec_parse_usize(pieces.last())
    } else {
        None
    }
}

/// The multiplexer pane id embedded in a title: the text after the last
/// ` |t$` marker, read as a number.
pub open spec fn spec_tmux_id(title: Seq<char>) -> Option<usize> {
    if has_match(title, " |t$"@) {
        spec_parse_usize(tail_after_last(title, " |t$"@))
    } else {
        None
    }
}

/// The emulator identity embedded in a title: the text after the last
/// ` |w$` marker, split once at `:` into a process id and a pane id, both
/// read as numbers.
pub open spec fn spec_wezterm_id(title: Seq<char>) -> Option<(usize, usize)> {
    if has_match(title, " |w$"@) {
        let tail = tail_after_last(title, " |w$"@);
        let k = first_index_of(tail, ':');
        if k >= 0 {
            match (
                spec_parse_usize(tail.subrange(0, k)),
                spec_parse_usize(tail.subrange(k + 1, tail.len() as int)),
            ) {
                (Some(pid), Some(pane)) => Some((pid, pane)),
                _ => None,
            }
        } else {
            None
        }
    } else {
        None
    }
}

/// The nested session named by a title: the text between the parentheses
/// of a leading `Zellij (`, taken verbatim up to the first `)`.
pub open spec fn spec_zellij_id(title: Seq<char>) -> Option<Seq<char>> {
    if title.len() >= 8 && title.subrange(0, 8) == "Zellij ("@ {
        let rel = first_index_of(title.subrange(8, title.len() as int), ')');
        if rel >= 0 {
            Some(title.subrange(8, 8 + rel))
        } else {
            None
        }
    } else {
        None
    }
}

/// Reads the editor instance id out of a title, if one is embedded.
pub fn get_nvim_id(name: &str) -> (r: Option<usize>)
    ensures
        r == spec_nvim_id(name@),
{
    let pieces = split_char(name, ':');
    let n = pieces.len();
    if n >= 3 && str_eq(pieces[n - 2].as_str(), "nvim") {
        proof {
            assert(pieces.deep_view()[n - 2] == pieces@[n - 2]@);
            assert(pieces.deep_view()[n - 1] == pieces@[n - 1]@);
        }
        parse_usize(pieces[n - 1].as_str())
    } else {
        proof {
            if n >= 3 {
                assert(pieces.deep_view()[n - 2] == pieces@[n - 2]@);
            }
        }
        None
    }
}

/// Reads the multiplexer pane id out of a title, if one is embedded.
pub fn get_tmux_id(name: &str) -> (r: Option<usize>)
    ensures
        r == spec_tmux_id(name@),
{
    match rfind_sub(name, " |t$") {
        Some(i) => {
            proof {
                reveal_strlit(" |t$");
                lemma_last_match_unique(name@, " |t$"@, i as int);
            }
            let n = name.unicode_len();
            let tail = name.substring_char(i + 4, n);
            proof {
                assert(tail@ =~= tail_after_last(name@, " |t$"@));
            }
            parse_usize(tail)
        },
        None => None,
    }
}

/// Reads the emulator identity out of a title, if one is embedded.
pub fn get_wezterm_id(name: &str) -> (r: Option<WezTermId>)
    ensures
        match r {
            Some(w) => spec_wezterm_id(name@) == Some((w.pid, w.pane_id)),
            None => spec_wezterm_id(name@) is None,
        },
{
    match rfind_sub(name, " |w$") {
        Some(i) => {
            proof {
                reveal_strlit(" |w$");
                lemma_last_match_unique(name@, " |w$"@, i as int);
            }
            let n = name.unicode_len();
            let tail = name.substring_char(i + 4, n);
            let ghost tail_spec = tail_after_last(name@, " |w$"@);
            proof {
                assert(tail@ =~= tail_spec);
                lemma_first_index_of(tail@, ':');
            }
            let tlen = tail.unicode_len();
            match find_char_from(tail, ':', 0) {
                Some(k) => {
                    proof {
                        assert(first_index_of(tail@, ':') == k as int);
                    }
                    let pid = parse_usize(tail.substring_char(0, k));
                    let pane = parse_usize(tail.substring_char(k + 1, tlen));
                    proof {
                        assert(tail@.subrange(0, k as int) =~= tail_spec.subrange(0, k as int));
                        assert(tail@.subrange(k + 1, tail@.len() as int) =~= tail_spec.subrange(
                            k + 1,
                            tail_spec.len() as int,
                        ));
                    }
                    match (pid, pane) {
                        (Some(pid), Some(pane_id)) => Some(WezTermId { pid, pane_id }),
                        _ => None,
                    }
                },
                None => {
                    proof {
                        assert(first_index_of(tail@, ':') == -1);
                    }
                    None
                },
            }
        },
        None => None,
    }
}

/// Reads the nested session id out of a title, if one is named.
pub fn get_zellij_id(name: &str) -> (r: Option<String>)
    ensures
        r.deep_view() == spec_zellij_id(name@),
{
    if starts_with(name, "Zellij (") {
        proof {
            reveal_strlit("Zellij (");
        }
        let n = name.unicode_len();
        let ghost inner = name@.subrange(8, name@.len() as int);
        proof {
            lemma_first_index_of(inner, ')');
            assert(forall|j: int| 0 <= j < inner.len() ==> inner[j] == name@[j + 8]);
        }
        match find_char_from(name, ')', 8) {
            Some(e) => {
                proof {
                    assert(inner[e - 8] == ')');
                    let f = first_index_of(inner, ')');
                    if f == -1 {
                        assert(false);
                    }
                    if f < e - 8 {
                        assert(name@[f + 8] == ')');
                        assert(false);
                    }
                    if f > e - 8 {
                        assert(false);
                    }
                }
                let id = String::from_str(name.substring_char(8, e));
                proof {
                    assert(name@.subrange(8, e as int) =~= name@.subrange(8, 8 + (e - 8)));
                }
                Some(id)
            },
            None => {
                proof {
                    let f = first_index_of(inner, ')');
                    if f != -1 {
                        assert(inner[f] == name@[f + 8]);
                        assert(false);
                    }
                }
                None
            },
        }
    } else {
        None
    }
}

/// Parses a focused surface's title into the layer identities embedded in
/// it. Never fails: a title without a recognized sentinel decodes to a
/// value whose every field is `None`.
pub fn decode(title: &str) -> (id: FocusedSurfaceIdentity)
    ensures
        id.editor_instance_id == spec_nvim_id(title@),
        id.multiplexer_pane_id == spec_tmux_id(title@),
        id.terminal_pid_and_pane == spec_wezterm_id(title@),
        id.nested_session_id.deep_view() == spec_zellij_id(title@),
{
    let terminal = match get_wezterm_id(title) {
        Some(w) => Some((w.pid, w.pane_id)),
        None => None,
    };
    FocusedSurfaceIdentity {
        editor_instance_id: get_nvim_id(title),
        multiplexer_pane_id: get_tmux_id(title),
        terminal_pid_and_pane: terminal,
        nested_session_id: get_zellij_id(title),
    }
}

// ---------------------------------------------------------------------------
// What decoding guarantees, title family by title family
// ---------------------------------------------------------------------------

/// The title carries the editor sentinel: its second-to-last
/// `:`-separated token is exactly `nvim`.
pub open spec fn has_editor_sentinel(t: Seq<char>) -> bool {
    let pieces = spec_split_char(t, ':');
    pieces.len() >= 3 && pieces[pieces.len() - 2] == "nvim"@
}

/// The title carries the multiplexer marker.
pub open spec fn has_multiplexer_sentinel(t: Seq<char>) -> bool {
    has_match(t, " |t$"@)
}

/// The title carries the terminal-emulator marker.
pub open spec fn has_terminal_sentinel(t: Seq<char>) -> bool {
    has_match(t, " |w$"@)
}

/// The title names a nested session.
pub open spec fn has_nested_sentinel(t: Seq<char>) -> bool {
    t.len() >= 8 && t.subrange(0, 8) == "Zellij ("@
}

/// The title carries some recognized sentinel.
pub open spec fn has_sentinel(t: Seq<char>) -> bool {
    has_editor_sentinel(t) || has_multiplexer_sentinel(t) || has_terminal_sentinel(t)
        || has_nested_sentinel(t)
}

/// A title with no recognized sentinel decodes to the identity whose
/// every field is `None`.
pub proof fn lemma_unrecognized_title_decodes_empty(t: Seq<char>)
    requires
        !has_sentinel(t),
    ensures
        spec_nvim_id(t) is None,
        spec_tmux_id(t) is None,
        spec_wezterm_id(t) is None,
        spec_zellij_id(t) is None,
{
}

/// Appending the multiplexer marker and a pane number to any title makes
/// the pane number decode back out, whatever the title held before — the
/// text after the last marker wins.
pub proof fn lemma_tmux_marker_decodes(prefix: Seq<char>, n: usize)
    ensures
        spec_tmux_id(prefix + " |t$"@ + decimal_digits(n as int)) == Some(n),
{
    reveal_strlit(" |t$");
    let pat = " |t$"@;
    assert(pat.len() == 4);
    assert(pat[0] == ' ' && pat[1] == '|' && pat[2] == 't' && pat[3] == '$');
    let digits = decimal_digits(n as int);
    lemma_decimal_digits(n as int);
    let t = prefix + pat + digits;
    let l = prefix.len() as int;
    assert(t.subrange(l, l + 4) =~= pat);
    assert(match_at(t, pat, l));
    assert forall|j: int| l < j implies !match_at(t, pat, j) by {
        if 0 <= j && j + 4 <= t.len() && match_at(t, pat, j) {
            assert(t.subrange(j, j + 4)[0] == pat[0]);
            assert(t[j] == ' ');
            if j < l + 4 {
                assert(t[j] == pat[j - l]);
            } else {
                assert(t[j] == digits[j - l - 4]);
                assert(is_digit(t[j]));
            }
            assert(false);
        }
    }
    assert(is_last_match(t, pat, l));
    lemma_last_match_unique(t, pat, l);
    assert(tail_after_last(t, pat) =~= digits);
    lemma_parse_of_decimal(n);
}

/// Appending the terminal-emulator marker and a `pid:pane` pair to any
/// title makes the pair decode back out.
pub proof fn lemma_terminal_marker_decodes(prefix: Seq<char>, pid: usize, pane: usize)
    ensures
        spec_wezterm_id(
            prefix + " |w$"@ + decimal_digits(pid as int) + ":"@ + decimal_digits(pane as int),
        ) == Some((pid, pane)),
{
    reveal_strlit(" |w$");
    reveal_strlit(":");
    let pat = " |w$"@;
    assert(pat.len() == 4);
    assert(pat[0] == ' ' && pat[1] == '|' && pat[2] == 'w' && pat[3] == '$');
    assert(":"@.len() == 1 && ":"@[0] == ':');
    let d1 = decimal_digits(pid as int);
    let d2 = decimal_digits(pane as int);
    lemma_decimal_digits(pid as int);
    lemma_decimal_digits(pane as int);
    let tail = d1 + ":"@ + d2;
    let t = prefix + pat + d1 + ":"@ + d2;
    let l = prefix.len() as int;
    assert(t =~= prefix + pat + tail);
    assert forall|k: int| 0 <= k < tail.len() implies tail[k] != ' ' by {
        if k < d1.len() {
            assert(tail[k] == d1[k]);
            assert(is_digit(tail[k]));
        } else if k == d1.len() {
            assert(tail[k] == ':');
        } else {
            assert(tail[k] == d2[k - d1.len() - 1]);
            assert(is_digit(tail[k]));
        }
    }
    assert(t.subrange(l, l + 4) =~= pat);
    assert(match_at(t, pat, l));
    assert forall|j: int| l < j implies !match_at(t, pat, j) by {
        if 0 <= j && j + 4 <= t.len() && match_at(t, pat, j) {
            assert(t.subrange(j, j + 4)[0] == pat[0]);
            assert(t[j] == ' ');
            if j < l + 4 {
                assert(t[j] == pat[j - l]);
            } else {
                assert(t[j] == tail[j - l - 4]);
            }
            assert(false);
        }
    }
    assert(is_last_match(t, pat, l));
    lemma_last_match_unique(t, pat, l);
    assert(tail_after_last(t, pat) =~= tail);
    lemma_first_index_of(tail, ':');
    assert(tail[d1.len() as int] == ':');
    let f = first_index_of(tail, ':');
    if f == -1 {
        assert(false);
    }
    if f < d1.len() {
        assert(tail[f] == d1[f]);
        assert(is_digit(tail[f]));
        assert(false);
    }
    if f > d1.len() {
        assert(false);
    }
    assert(f == d1.len());
    assert(tail.subrange(0, f) =~= d1);
    assert(tail.subrange(f + 1, tail.len() as int) =~= d2);
    lemma_parse_of_decimal(pid);
    lemma_parse_of_decimal(pane);
}

/// A split at a single character distributes over concatenation around
/// one separator.
proof fn lemma_split_char_concat(a: Seq<char>, b: Seq<char>, c: char)
    ensures
        spec_split_char(a + seq![c] + b, c) == spec_split_char(a, c) + spec_split_char(b, c),
    decreases a.len(),
{
    let t = a + seq![c] + b;
    lemma_first_index_of(a, c);
    lemma_first_index_of(t, c);
    let fa = first_index_of(a, c);
    let ft = first_index_of(t, c);
    assert(t[a.len() as int] == c);
    if ft == -1 {
        assert(false);
    }
    if fa == -1 {
        if ft < a.len() {
            assert(t[ft] == a[ft]);
            assert(false);
        }
        if ft > a.len() {
            assert(false);
        }
        assert(ft == a.len());
        assert(t.subrange(0, ft) =~= a);
        assert(t.subrange(ft + 1, t.len() as int) =~= b);
        assert(spec_split_char(a, c) == seq![a]);
        assert(spec_split_char(t, c) == seq![a] + spec_split_char(b, c));
    } else {
        assert(a[fa] == c);
        assert(t[fa] == a[fa]);
        if ft < fa {
            assert(t[ft] == a[ft]);
            assert(a[ft] != c);
            assert(false);
        }
        if ft > fa {
            assert(false);
        }
        assert(ft == fa);
        let a1 = a.subrange(fa + 1, a.len() as int);
        assert(t.subrange(0, ft) =~= a.subrange(0, fa));
        assert(t.subrange(ft + 1, t.len() as int) =~= a1 + seq![c] + b);
        lemma_split_char_concat(a1, b, c);
        assert(spec_split_char(t, c) == seq![a.subrange(0, fa)] + (spec_split_char(a1, c)
            + spec_split_char(b, c)));
        assert(seq![a.subrange(0, fa)] + (spec_split_char(a1, c) + spec_split_char(b, c)) =~= (
        seq![a.subrange(0, fa)] + spec_split_char(a1, c)) + spec_split_char(b, c));
        assert(spec_split_char(a, c) == seq![a.subrange(0, fa)] + spec_split_char(a1, c));
    }
}

/// Digit strings hold no separator.
proof fn lemma_digits_hold_no_char(s: Seq<char>, c: char)
    requires
        crate::strutil::all_digits(s),
        !is_digit(c),
    ensures
        forall|j: int| 0 <= j < s.len() ==> s[j] != c,
{
    assert forall|j: int| 0 <= j < s.len() implies s[j] != c by {
        assert(is_digit(s[j]));
    }
}

/// A tag directly followed by a numeric tail splits into exactly the tag
/// and the digits.
proof fn lemma_tag_and_digits_split(tag: Seq<char>, digits: Seq<char>)
    requires
        forall|j: int| 0 <= j < tag.len() ==> tag[j] != ':',
        crate::strutil::all_digits(digits),
    ensures
        spec_split_char(tag + seq![':'] + digits, ':') == seq![tag] + seq![digits],
{
    lemma_split_char_concat(tag, digits, ':');
    lemma_first_index_of(tag, ':');
    let ft = first_index_of(tag, ':');
    if ft != -1 {
        assert(tag[ft] == ':');
        assert(false);
    }
    assert(spec_split_char(tag, ':') == seq![tag]);
    lemma_digits_hold_no_char(digits, ':');
    lemma_first_index_of(digits, ':');
    let fd = first_index_of(digits, ':');
    if fd != -1 {
        assert(digits[fd] == ':');
        assert(is_digit(digits[fd]));
        assert(false);
    }
    assert(spec_split_char(digits, ':') == seq![digits]);
}

/// Any title of the shape `<prefix>:nvim:<number>` decodes the number as
/// the editor instance id, whatever the prefix holds: the pair is read
/// from the title's end.
pub proof fn lemma_editor_tag_decodes(prefix: Seq<char>, n: usize)
    ensures
        spec_nvim_id(prefix + ":nvim:"@ + decimal_digits(n as int)) == Some(n),
{
    reveal_strlit(":nvim:");
    reveal_strlit("nvim");
    assert(":nvim:"@.len() == 6);
    assert("nvim"@.len() == 4);
    assert("nvim"@[0] == 'n' && "nvim"@[1] == 'v' && "nvim"@[2] == 'i' && "nvim"@[3] == 'm');
    let digits = decimal_digits(n as int);
    lemma_decimal_digits(n as int);
    let t = prefix + ":nvim:"@ + digits;
    let mid = "nvim"@ + seq![':'] + digits;
    assert(t =~= prefix + seq![':'] + mid);
    lemma_split_char_concat(prefix, mid, ':');
    lemma_tag_and_digits_split("nvim"@, digits);
    let pa = spec_split_char(prefix, ':');
    crate::strutil::lemma_split_char_len(prefix, ':');
    let pieces = spec_split_char(t, ':');
    assert(pieces == pa + (seq!["nvim"@] + seq![digits]));
    assert(pieces.len() == pa.len() + 2);
    assert(pieces[pieces.len() - 2] == "nvim"@);
    assert(pieces.last() == digits);
    lemma_parse_of_decimal(n);
}

/// Any title of the shape `<prefix>:vim:<number>` decodes no editor
/// instance id: the tag before the trailing number must be exactly
/// `nvim`.
pub proof fn lemma_foreign_editor_tag_decodes_none(prefix: Seq<char>, n: usize)
    ensures
        spec_nvim_id(prefix + ":vim:"@ + decimal_digits(n as int)) is None,
{
    reveal_strlit(":vim:");
    reveal_strlit("vim");
    reveal_strlit("nvim");
    assert(":vim:"@.len() == 5);
    assert("vim"@.len() == 3);
    assert("nvim"@.len() == 4);
    assert("vim"@[0] == 'v' && "vim"@[1] == 'i' && "vim"@[2] == 'm');
    let digits = decimal_digits(n as int);
    lemma_decimal_digits(n as int);
    let t = prefix + ":vim:"@ + digits;
    let mid = "vim"@ + seq![':'] + digits;
    assert(t =~= prefix + seq![':'] + mid);
    lemma_split_char_concat(prefix, mid, ':');
    lemma_tag_and_digits_split("vim"@, digits);
    let pa = spec_split_char(prefix, ':');
    crate::strutil::lemma_split_char_len(prefix, ':');
    let pieces = spec_split_char(t, ':');
    assert(pieces == pa + (seq!["vim"@] + seq![digits]));
    assert(pieces[pieces.len() - 2] == "vim"@);
    assert(pieces[pieces.len() - 2] != "nvim"@);
}

} // verus!
