//! The multiplexer edge oracle: given the pane listings the multiplexer
//! prints for the window holding a pane, decide whether the active pane
//! sits at the window's outer edge in a direction. A listing that cannot be
//! read yields "at edge", never "not at edge": the resolver must prefer
//! escaping a broken probe over getting stuck inside it.

use vstd::prelude::*;

verus! {

use crate::direction::Direction;
use crate::strutil::{append_decimal, decimal_digits, lemma_split_seq_len, parse_usize,
    spec_lines, spec_parse_usize, spec_split_seq, split_lines, split_seq_str, str_eq};
use vstd::string::StrSliceExecFns;
use vstd::string::StringExecFns;

/// A listing line reports the active pane: its last `::`-separated field
/// is `1`.
pub open spec fn line_is_active(l: Seq<char>) -> bool {
    spec_split_seq(l, "::"@).last() == seq!['1']
}

/// The numeric field a listing line carries: its first `::`-separated
/// field, read as a number.
pub open spec fn line_value(l: Seq<char>) -> Option<usize> {
    spec_parse_usize(spec_split_seq(l, "::"@).first())
}

/// The value carried by the first line that reports the active pane, if
/// any line does and its field is numeric.
pub open spec fn spec_first_active_value(lines: Seq<Seq<char>>) -> Option<usize>
    decreases lines.len(),
{
    if lines.len() == 0 {
        None
    } else if line_is_active(lines.first()) {
        line_value(lines.first())
    } else {
        spec_first_active_value(lines.drop_first())
    }
}

/// What a whole pane listing says about the active pane: the numeric field
/// of the first line flagged active, or nothing when no line is flagged or
/// the field is not numeric.
pub open spec fn spec_active_pane_value(listing: Seq<char>) -> Option<usize> {
    spec_first_active_value(spec_lines(listing))
}

/// The view of an optional listing.
pub open spec fn opt_view(o: Option<&str>) -> Option<Seq<char>> {
    match o {
        Some(s) => Some(s@),
        None => None,
    }
}

/// The active pane's value in an optional listing; an absent listing
/// carries none.
pub open spec fn opt_listing_value(l: Option<Seq<char>>) -> Option<usize> {
    match l {
        Some(text) => spec_active_pane_value(text),
        None => None,
    }
}

/// Reads the field of the active pane's line out of a listing, as printed
/// by the multiplexer's `list-panes` with a format of
/// `<field>::#{pane_active}`.
pub fn tmux_active_pane_format(listing: &str) -> (r: Option<usize>)
    ensures
        r == spec_active_pane_value(listing@),
{
    let lines = split_lines(listing);
    let ghost lseq = lines.deep_view();
    proof {
        assert(lseq.subrange(0, lseq.len() as int) =~= lseq);
    }
    let mut i: usize = 0;
    while i < lines.len()
        invariant
            0 <= i <= lines.len(),
            lines.deep_view() == lseq,
            lseq == spec_lines(listing@),
            spec_first_active_value(lseq.subrange(i as int, lseq.len() as int))
                == spec_active_pane_value(listing@),
        decreases lines.len() - i,
    {
        let ghost rest = lseq.subrange(i as int, lseq.len() as int);
        let line = lines[i].as_str();
        proof {
            assert(line@ == lseq[i as int]);
            assert(rest.first() == lseq[i as int]);
            reveal_strlit("::");
            lemma_split_seq_len(line@, "::"@);
        }
        let pieces = split_seq_str(line, "::");
        let last_piece = pieces[pieces.len() - 1].as_str();
        proof {
            assert(last_piece@ == pieces.deep_view().last());
            reveal_strlit("1");
            assert("1"@ =~= seq!['1']);
        }
        if str_eq(last_piece, "1") {
            assert(line_is_active(lseq[i as int]));
            let first_piece = pieces[0].as_str();
            proof {
                assert(first_piece@ == pieces.deep_view().first());
            }
            return parse_usize(first_piece);
        }
        proof {
            assert(!line_is_active(lseq[i as int]));
            assert(rest.drop_first() =~= lseq.subrange(i + 1, lseq.len() as int));
        }
        i = i + 1;
    }
    proof {
        assert(lseq.subrange(lseq.len() as int, lseq.len() as int).len() == 0);
    }
    None
}

/// The active pane's leading or trailing offset on the axis of a
/// direction, read from the listing made with `offset_format`.
pub fn tmux_offset(listing: &str) -> (r: Option<usize>)
    ensures
        r == spec_active_pane_value(listing@),
{
    tmux_active_pane_format(listing)
}

/// The window's width, read from the listing made with `width_format`.
pub fn tmux_width(listing: &str) -> (r: Option<usize>)
    ensures
        r == spec_active_pane_value(listing@),
{
    tmux_active_pane_format(listing)
}

/// The window's height, read from the listing made with `height_format`.
pub fn tmux_height(listing: &str) -> (r: Option<usize>)
    ensures
        r == spec_active_pane_value(listing@),
{
    tmux_active_pane_format(listing)
}

/// The boundary offset the edge test needs for a direction: the pane's
/// leading offset for leftward and upward moves, its trailing offset for
/// rightward and downward ones.
pub open spec fn spec_offset_format(d: Direction) -> Seq<char> {
    match d {
        Direction::Left => "#{pane_left}"@,
        Direction::Right => "#{pane_right}"@,
        Direction::Up => "#{pane_top}"@,
        Direction::Down => "#{pane_bottom}"@,
    }
}

/// The multiplexer format token for the pane offset the edge test reads in
/// direction `d`.
pub fn offset_format(d: Direction) -> (r: &'static str)
    ensures
        r@ == spec_offset_format(d),
{
    match d {
        Direction::Left => "#{pane_left}",
        Direction::Right => "#{pane_right}",
        Direction::Up => "#{pane_top}",
        Direction::Down => "#{pane_bottom}",
    }
}

/// The multiplexer format token for the window's width.
pub fn width_format() -> (r: &'static str)
    ensures
        r@ == "#{window_width}"@,
{
    "#{window_width}"
}

/// The multiplexer format token for the window's height.
pub fn height_format() -> (r: &'static str)
    ensures
        r@ == "#{window_height}"@,
{
    "#{window_height}"
}

/// The edge verdict, when the listings needed for the direction can all be
/// read: a leftward or upward move is at the edge when the leading offset
/// is zero; a rightward or downward move when the window's extent exceeds
/// the trailing offset by exactly one.
pub open spec fn spec_maybe_is_tmux_edge(
    d: Direction,
    offset_listing: Option<Seq<char>>,
    width_listing: Option<Seq<char>>,
    height_listing: Option<Seq<char>>,
) -> Option<bool> {
    match opt_listing_value(offset_listing) {
        None => None,
        Some(offset) => match d {
            Direction::Left => Some(offset == 0),
            Direction::Up => Some(offset == 0),
            Direction::Right => match opt_listing_value(width_listing) {
                None => None,
                Some(w) => Some(w - offset == 1),
            },
            Direction::Down => match opt_listing_value(height_listing) {
                None => None,
                Some(h) => Some(h - offset == 1),
            },
        },
    }
}

/// The edge verdict with the fail-safe applied: a listing that is missing
/// or unreadable counts as "at edge".
pub open spec fn spec_is_tmux_edge(
    d: Direction,
    offset_listing: Option<Seq<char>>,
    width_listing: Option<Seq<char>>,
    height_listing: Option<Seq<char>>,
) -> bool {
    match spec_maybe_is_tmux_edge(d, offset_listing, width_listing, height_listing) {
        Some(b) => b,
        None => true,
    }
}

/// The edge verdict from the raw listings, when all those the direction
/// needs can be read. `offset_listing` was made with `offset_format(d)`;
/// `width_listing` and `height_listing` with `width_format` and
/// `height_format`; `None` stands for a query that could not be run.
pub fn maybe_is_tmux_edge(
    d: Direction,
    offset_listing: Option<&str>,
    width_listing: Option<&str>,
    height_listing: Option<&str>,
) -> (r: Option<bool>)
    ensures
        r == spec_maybe_is_tmux_edge(
            d,
            opt_view(offset_listing),
            opt_view(width_listing),
            opt_view(height_listing),
        ),
{
    let offset = match offset_listing {
        Some(l) => tmux_offset(l),
        None => None,
    };
    let offset = match offset {
        Some(o) => o,
        None => {
            return None;
        },
    };
    match d {
        Direction::Left => Some(offset == 0),
        Direction::Up => Some(offset == 0),
        Direction::Right => {
            let w = match width_listing {
                Some(l) => tmux_width(l),
                None => None,
            };
            match w {
                Some(w) => Some(w > offset && w - offset == 1),
                None => None,
            }
        },
        Direction::Down => {
            let h = match height_listing {
                Some(l) => tmux_height(l),
                None => None,
            };
            match h {
                Some(h) => Some(h > offset && h - offset == 1),
                None => None,
            }
        },
    }
}

/// Whether the active pane is at the window's edge in direction `d`,
/// treating any missing or unreadable listing as "at edge" so that a
/// broken probe degrades to the next outer layer instead of getting
/// stuck.
pub fn is_tmux_edge(
    d: Direction,
    offset_listing: Option<&str>,
    width_listing: Option<&str>,
    height_listing: Option<&str>,
) -> (r: bool)
    ensures
        r == spec_is_tmux_edge(
            d,
            opt_view(offset_listing),
            opt_view(width_listing),
            opt_view(height_listing),
        ),
{
    match maybe_is_tmux_edge(d, offset_listing, width_listing, height_listing) {
        Some(b) => b,
        None => true,
    }
}

/// Edge detection degrades safely: when the geometry query yields no
/// usable offset for the target pane, the pane counts as at the edge in
/// every direction.
pub proof fn lemma_edge_degrades_safely(
    d: Direction,
    offset_listing: Option<Seq<char>>,
    width_listing: Option<Seq<char>>,
    height_listing: Option<Seq<char>>,
)
    requires
        opt_listing_value(offset_listing) is None,
    ensures
        spec_is_tmux_edge(d, offset_listing, width_listing, height_listing),
{
}

/// The argument list of the multiplexer command that moves focus one pane
/// in direction `d` inside the window holding pane `id`.
pub fn focus(id: usize, d: Direction) -> (args: Vec<String>)
    ensures
        args.deep_view() == seq![
            "select-pane"@,
            "-t"@,
            "$"@ + decimal_digits(id as int),
            d.spec_tmux(),
        ],
{
    let mut target = String::from_str("$");
    append_decimal(&mut target, id);
    let mut args: Vec<String> = Vec::new();
    args.push(String::from_str("select-pane"));
    args.push(String::from_str("-t"));
    args.push(target);
    args.push(String::from_str(d.tmux()));
    proof {
        assert(args.deep_view() =~= seq![
            "select-pane"@,
            "-t"@,
            "$"@ + decimal_digits(id as int),
            d.spec_tmux(),
        ]);
    }
    args
}

/// The argument list of the multiplexer query that lists, for every pane
/// of the window holding pane `id`, the given format field beside the
/// pane's active flag.
pub fn list_panes_args(id: usize, format: &str) -> (args: Vec<String>)
    ensures
        args.deep_view() == seq![
            "list-panes"@,
            "-t"@,
            "$"@ + decimal_digits(id as int),
            "-F"@,
            format@ + "::#{pane_active}"@,
        ],
{
    let mut target = String::from_str("$");
    append_decimal(&mut target, id);
    let mut fmt = String::from_str(format);
    fmt.append("::#{pane_active}");
    let mut args: Vec<String> = Vec::new();
    args.push(String::from_str("list-panes"));
    args.push(String::from_str("-t"));
    args.push(target);
    args.push(String::from_str("-F"));
    args.push(fmt);
    proof {
        assert(args.deep_view() =~= seq![
            "list-panes"@,
            "-t"@,
            "$"@ + decimal_digits(id as int),
            "-F"@,
            format@ + "::#{pane_active}"@,
        ]);
    }
    args
}

} // verus!
