//! Verified character and string helpers: decimal parsing and formatting,
//! substring search, splitting and trimming, stated over `Seq<char>` views.

use vstd::prelude::*;

verus! {

use vstd::string::StrSliceExecFns;
use vstd::string::StringExecFns;

// ---------------------------------------------------------------------------
// Decimal digits
// ---------------------------------------------------------------------------

/// Whether `c` is a decimal ASCII digit.
pub open spec fn is_digit(c: char) -> bool {
    c == '0' || c == '1' || c == '2' || c == '3' || c == '4' || c == '5' || c == '6' || c == '7'
        || c == '8' || c == '9'
}

/// The numeric value of a decimal digit (0 for anything that is none).
pub open spec fn digit_val(c: char) -> int {
    if c == '0' {
        0
    } else if c == '1' {
        1
    } else if c == '2' {
        2
    } else if c == '3' {
        3
    } else if c == '4' {
        4
    } else if c == '5' {
        5
    } else if c == '6' {
        6
    } else if c == '7' {
        7
    } else if c == '8' {
        8
    } else if c == '9' {
        9
    } else {
        0
    }
}

/// The decimal digit with value `d` (for `d` up to 9).
pub open spec fn digit_char(d: int) -> char {
    if d == 0 {
        '0'
    } else if d == 1 {
        '1'
    } else if d == 2 {
        '2'
    } else if d == 3 {
        '3'
    } else if d == 4 {
        '4'
    } else if d == 5 {
        '5'
    } else if d == 6 {
        '6'
    } else if d == 7 {
        '7'
    } else if d == 8 {
        '8'
    } else {
        '9'
    }
}

/// Every character of `s` is a decimal digit.
pub open spec fn all_digits(s: Seq<char>) -> bool {
    forall|i: int| 0 <= i < s.len() ==> is_digit(#[trigger] s[i])
}

/// The value of a digit string read in base ten.
pub open spec fn digits_val(s: Seq<char>) -> int
    decreases s.len(),
{
    if s.len() == 0 {
        0
    } else {
        digits_val(s.drop_last()) * 10 + digit_val(s.last())
    }
}

/// The canonical decimal rendering of `n`: no sign, no leading zero except
/// for zero itself.
pub open spec fn decimal_digits(n: int) -> Seq<char>
    decreases n,
{
    if n < 10 {
        seq![digit_char(n)]
    } else {
        decimal_digits(n / 10).push(digit_char(n % 10))
    }
}

/// What `str::parse::<usize>` returns: digits with an optional leading `+`,
/// rejected when empty, on a stray character, or on overflow.
pub open spec fn spec_parse_usize(s: Seq<char>) -> Option<usize> {
    let body = if s.len() > 0 && s[0] == '+' {
        s.subrange(1, s.len() as int)
    } else {
        s
    };
    if body.len() > 0 && all_digits(body) && digits_val(body) <= usize::MAX {
        Some(digits_val(body) as usize)
    } else {
        None
    }
}

proof fn lemma_digits_val_nonneg(s: Seq<char>)
    ensures
        digits_val(s) >= 0,
    decreases s.len(),
{
    if s.len() > 0 {
        lemma_digits_val_nonneg(s.drop_last());
    }
}

/// A digit string is worth at least as much as any of its prefixes.
proof fn lemma_digits_val_prefix_le(s: Seq<char>, k: int)
    requires
        0 <= k <= s.len(),
    ensures
        digits_val(s.subrange(0, k)) <= digits_val(s),
    decreases s.len(),
{
    if k < s.len() {
        assert(s.drop_last() =~= s.subrange(0, s.len() - 1));
        assert(s.subrange(0, k) =~= s.drop_last().subrange(0, k));
        lemma_digits_val_prefix_le(s.drop_last(), k);
        lemma_digits_val_nonneg(s.drop_last());
        assert(digit_val(s.last()) >= 0);
    } else {
        assert(s.subrange(0, k) =~= s);
    }
}

/// The numeric value of a decimal digit, or `None` for any other character.
fn digit_of(c: char) -> (r: Option<u8>)
    ensures
        r is Some <==> is_digit(c),
        r is Some ==> r->Some_0 == digit_val(c),
{
    match c {
        '0' => Some(0),
        '1' => Some(1),
        '2' => Some(2),
        '3' => Some(3),
        '4' => Some(4),
        '5' => Some(5),
        '6' => Some(6),
        '7' => Some(7),
        '8' => Some(8),
        '9' => Some(9),
        _ => None,
    }
}

/// Parses `s` as `str::parse::<usize>` would.
pub fn parse_usize(s: &str) -> (r: Option<usize>)
    ensures
        r == spec_parse_usize(s@),
{
    let n = s.unicode_len();
    let start: usize = if n > 0 && s.get_char(0) == '+' {
        1
    } else {
        0
    };
    let ghost body = if s@.len() > 0 && s@[0] == '+' {
        s@.subrange(1, s@.len() as int)
    } else {
        s@
    };
    assert(body.len() == n - start);
    assert(forall|j: int| 0 <= j < body.len() ==> body[j] == s@[j + start]);
    if n == start {
        return None;
    }
    let mut val: usize = 0;
    let mut i: usize = start;
    while i < n
        invariant
            start <= i <= n,
            n == s@.len(),
            body == if s@.len() > 0 && s@[0] == '+' {
                s@.subrange(1, s@.len() as int)
            } else {
                s@
            },
            body.len() == n - start,
            forall|j: int| 0 <= j < body.len() ==> body[j] == s@[j + start],
            all_digits(body.subrange(0, i - start)),
            val == digits_val(body.subrange(0, i - start)),
        decreases n - i,
    {
        let c = s.get_char(i);
        let ghost prefix = body.subrange(0, i - start);
        let ghost prefix1 = body.subrange(0, i + 1 - start);
        assert(prefix1.drop_last() == prefix);
        match digit_of(c) {
            None => {
                assert(!is_digit(body[i - start]));
                return None;
            },
            Some(d) => {
                let grown = match val.checked_mul(10) {
                    Some(v) => v.checked_add(d as usize),
                    None => None,
                };
                match grown {
                    Some(v) => {
                        val = v;
                    },
                    None => {
                        proof {
                            lemma_digits_val_nonneg(prefix);
                            assert(digits_val(prefix1) > usize::MAX);
                            lemma_digits_val_prefix_le(body, i + 1 - start);
                        }
                        return None;
                    },
                }
            },
        }
        i = i + 1;
    }
    assert(body.subrange(0, n - start) == body);
    Some(val)
}

// ---------------------------------------------------------------------------
// Decimal formatting
// ---------------------------------------------------------------------------

/// A one-character string slice holding the digit with value `d`.
fn digit_str(d: u8) -> (r: &'static str)
    requires
        d <= 9,
    ensures
        r@ == seq![digit_char(d as int)],
{
    proof {
        reveal_strlit("0");
        reveal_strlit("1");
        reveal_strlit("2");
        reveal_strlit("3");
        reveal_strlit("4");
        reveal_strlit("5");
        reveal_strlit("6");
        reveal_strlit("7");
        reveal_strlit("8");
        reveal_strlit("9");
    }
    let r = match d {
        0 => "0",
        1 => "1",
        2 => "2",
        3 => "3",
        4 => "4",
        5 => "5",
        6 => "6",
        7 => "7",
        8 => "8",
        _ => "9",
    };
    assert(r@ =~= seq![digit_char(d as int)]);
    r
}

/// Appends the decimal rendering of `n` to `out`.
pub fn append_decimal(out: &mut String, n: usize)
    ensures
        final(out)@ == old(out)@ + decimal_digits(n as int),
    decreases n,
{
    if n < 10 {
        out.append(digit_str(n as u8));
    } else {
        append_decimal(out, n / 10);
        out.append(digit_str((n % 10) as u8));
        assert(old(out)@ + decimal_digits((n / 10) as int) + seq![
            digit_char((n % 10) as int),
        ] =~= old(out)@ + decimal_digits(n as int));
    }
}

/// The decimal rendering of `n` as an owned string.
pub fn usize_to_string(n: usize) -> (r: String)
    ensures
        r@ == decimal_digits(n as int),
{
    let mut s = String::new();
    append_decimal(&mut s, n);
    assert(s@ =~= decimal_digits(n as int));
    s
}

/// The decimal rendering of `n` consists of digits, never starts with `+`,
/// and reads back as `n`.
pub proof fn lemma_decimal_digits(n: int)
    requires
        n >= 0,
    ensures
        decimal_digits(n).len() >= 1,
        all_digits(decimal_digits(n)),
        digits_val(decimal_digits(n)) == n,
        is_digit(decimal_digits(n)[0]),
    decreases n,
{
    if n < 10 {
        let s = decimal_digits(n);
        assert(s =~= seq![digit_char(n)]);
        assert(s.drop_last() =~= Seq::<char>::empty());
        assert(digits_val(s.drop_last()) == 0);
        assert(digits_val(s) == digit_val(digit_char(n)));
        assert(digit_val(digit_char(n)) == n);
    } else {
        lemma_decimal_digits(n / 10);
        let s = decimal_digits(n);
        let p = decimal_digits(n / 10);
        assert(s == p.push(digit_char(n % 10)));
        assert(s.drop_last() =~= p);
        assert(s.last() == digit_char(n % 10));
        assert(digit_val(digit_char(n % 10)) == n % 10);
        assert(digits_val(s) == digits_val(p) * 10 + digit_val(digit_char(n % 10)));
        assert(n / 10 * 10 + n % 10 == n);
        assert forall|i: int| 0 <= i < s.len() implies is_digit(#[trigger] s[i]) by {
            if i < p.len() {
                assert(s[i] == p[i]);
            }
        }
    }
}

/// Parsing the decimal rendering of a machine integer gives it back.
pub proof fn lemma_parse_of_decimal(n: usize)
    ensures
        spec_parse_usize(decimal_digits(n as int)) == Some(n),
{
    lemma_decimal_digits(n as int);
    let s = decimal_digits(n as int);
    assert(s[0] != '+');
}

// ---------------------------------------------------------------------------
// Substring search
// ---------------------------------------------------------------------------

/// `pat` occurs in `s` starting at position `i`.
pub open spec fn match_at(s: Seq<char>, pat: Seq<char>, i: int) -> bool {
    0 <= i && i + pat.len() <= s.len() && s.subrange(i, i + pat.len()) == pat
}

/// `pat` occurs somewhere in `s`.
pub open spec fn has_match(s: Seq<char>, pat: Seq<char>) -> bool {
    exists|i: int| match_at(s, pat, i)
}

/// `i` is the start of the rightmost occurrence of `pat` in `s`.
pub open spec fn is_last_match(s: Seq<char>, pat: Seq<char>, i: int) -> bool {
    match_at(s, pat, i) && forall|j: int| i < j ==> !match_at(s, pat, j)
}

/// The start of the rightmost occurrence of `pat` in `s` (meaningful only
/// when one exists).
pub open spec fn last_match(s: Seq<char>, pat: Seq<char>) -> int {
    choose|i: int| is_last_match(s, pat, i)
}

/// The text that follows the rightmost occurrence of `pat` in `s`.
pub open spec fn tail_after_last(s: Seq<char>, pat: Seq<char>) -> Seq<char> {
    s.subrange(last_match(s, pat) + pat.len(), s.len() as int)
}

/// A rightmost occurrence is unique, so `last_match` returns the one at
/// hand.
pub proof fn lemma_last_match_unique(s: Seq<char>, pat: Seq<char>, i: int)
    requires
        is_last_match(s, pat, i),
    ensures
        last_match(s, pat) == i,
{
    let lm = last_match(s, pat);
    assert(is_last_match(s, pat, lm));
    if lm < i {
        assert(!match_at(s, pat, i));
    }
    if lm > i {
        assert(!match_at(s, pat, lm));
    }
}

/// Whether `pat` occurs in `s` at position `i`.
fn match_at_exec(s: &str, pat: &str, i: usize) -> (r: bool)
    requires
        i + pat@.len() <= s@.len(),
    ensures
        r == match_at(s@, pat@, i as int),
{
    let plen = pat.unicode_len();
    let slen = s.unicode_len();
    let mut k: usize = 0;
    while k < plen
        invariant
            0 <= k <= plen,
            plen == pat@.len(),
            slen == s@.len(),
            i + plen <= slen,
            forall|j: int| 0 <= j < k ==> s@[i + j] == pat@[j],
        decreases plen - k,
    {
        if s.get_char(i + k) != pat.get_char(k) {
            assert(s@.subrange(i as int, i + pat@.len())[k as int] != pat@[k as int]);
            return false;
        }
        k = k + 1;
    }
    assert(s@.subrange(i as int, i + pat@.len()) =~= pat@);
    true
}

/// The start of the rightmost occurrence of `pat` in `s`, if any.
pub fn rfind_sub(s: &str, pat: &str) -> (r: Option<usize>)
    ensures
        match r {
            Some(i) => is_last_match(s@, pat@, i as int),
            None => !has_match(s@, pat@),
        },
{
    let n = s.unicode_len();
    let plen = pat.unicode_len();
    if plen > n {
        assert(forall|i: int| !match_at(s@, pat@, i));
        return None;
    }
    let mut i: usize = n - plen;
    loop
        invariant
            0 <= i <= n - plen,
            n == s@.len(),
            plen == pat@.len(),
            forall|j: int| i < j ==> !match_at(s@, pat@, j),
        decreases i + 1,
    {
        if match_at_exec(s, pat, i) {
            return Some(i);
        }
        if i == 0 {
            assert(forall|j: int| !match_at(s@, pat@, j));
            return None;
        }
        i = i - 1;
    }
}

/// The start of the leftmost occurrence of `pat` in `s`, or -1 when `pat`
/// does not occur.
pub open spec fn first_match_index(s: Seq<char>, pat: Seq<char>) -> int
    decreases s.len(),
{
    if pat.len() > s.len() {
        -1
    } else if s.subrange(0, pat.len() as int) == pat {
        0
    } else if s.len() == 0 {
        -1
    } else {
        let r = first_match_index(s.drop_first(), pat);
        if r < 0 {
            -1
        } else {
            r + 1
        }
    }
}

/// What `first_match_index` means position by position.
pub proof fn lemma_first_match_index(s: Seq<char>, pat: Seq<char>)
    ensures
        first_match_index(s, pat) == -1 ==> !has_match(s, pat),
        first_match_index(s, pat) != -1 ==> {
            let i = first_match_index(s, pat);
            &&& match_at(s, pat, i)
            &&& forall|j: int| j < i ==> !match_at(s, pat, j)
        },
    decreases s.len(),
{
    let plen = pat.len() as int;
    if pat.len() > s.len() {
        assert(forall|j: int| !match_at(s, pat, j));
    } else if s.subrange(0, plen) == pat {
    } else if s.len() == 0 {
        assert(forall|j: int| !match_at(s, pat, j));
    } else {
        lemma_first_match_index(s.drop_first(), pat);
        let d = s.drop_first();
        assert forall|j: int| 0 <= j && j + plen <= d.len() implies (match_at(d, pat, j)
            <==> match_at(s, pat, j + 1)) by {
            assert(d.subrange(j, j + plen) =~= s.subrange(j + 1, j + 1 + plen));
        }
        let r = first_match_index(d, pat);
        if r < 0 {
            assert forall|j: int| !match_at(s, pat, j) by {
                if 0 <= j && j + plen <= s.len() {
                    if j == 0 {
                        assert(s.subrange(0, plen) != pat);
                    } else {
                        assert(!match_at(d, pat, j - 1));
                    }
                }
            }
        } else {
            let i = first_match_index(s, pat);
            assert(i == r + 1);
            assert(match_at(d, pat, r));
            assert(match_at(s, pat, i));
            assert forall|j: int| j < i implies !match_at(s, pat, j) by {
                if 0 < j {
                    assert(!match_at(d, pat, j - 1));
                } else if j == 0 {
                    assert(s.subrange(0, plen) != pat);
                }
            }
        }
    }
}

/// The pieces of `s` between non-overlapping, left-to-right occurrences of
/// the separator `sep`, as `str::split` yields them. A separator that is
/// absent, or empty, leaves `s` whole.
pub open spec fn spec_split_seq(s: Seq<char>, sep: Seq<char>) -> Seq<Seq<char>>
    decreases s.len(),
{
    if sep.len() == 0 {
        seq![s]
    } else {
        let i = first_match_index(s, sep);
        if 0 <= i && i + sep.len() <= s.len() {
            seq![s.subrange(0, i)] + spec_split_seq(s.subrange(i + sep.len(), s.len() as int), sep)
        } else {
            seq![s]
        }
    }
}

/// The start of the leftmost occurrence of `pat` in `s` at or after `from`.
fn find_sub_from(s: &str, pat: &str, from: usize) -> (r: Option<usize>)
    requires
        from <= s@.len(),
    ensures
        match r {
            Some(i) => from <= i && match_at(s@, pat@, i as int) && forall|j: int|
                from <= j < i ==> !match_at(s@, pat@, j),
            None => forall|j: int| from <= j ==> !match_at(s@, pat@, j),
        },
{
    let n = s.unicode_len();
    let plen = pat.unicode_len();
    if plen == 0 {
        assert(s@.subrange(from as int, from as int) =~= pat@);
        return Some(from);
    }
    if plen > n || from > n - plen {
        assert(forall|j: int| from <= j ==> !match_at(s@, pat@, j));
        return None;
    }
    let mut i: usize = from;
    while i <= n - plen
        invariant
            from <= i,
            i <= n - plen + 1,
            1 <= plen <= n,
            n == s@.len(),
            plen == pat@.len(),
            forall|j: int| from <= j < i ==> !match_at(s@, pat@, j),
        decreases n - plen - i + 1,
    {
        if match_at_exec(s, pat, i) {
            return Some(i);
        }
        i = i + 1;
    }
    assert(forall|j: int| from <= j ==> !match_at(s@, pat@, j));
    None
}

/// Splits `s` at every non-overlapping occurrence of `sep`, left to right.
pub fn split_seq_str(s: &str, sep: &str) -> (r: Vec<String>)
    ensures
        r.deep_view() == spec_split_seq(s@, sep@),
{
    let n = s.unicode_len();
    let seplen = sep.unicode_len();
    if seplen == 0 {
        let mut r: Vec<String> = Vec::new();
        r.push(String::from_str(s));
        proof {
            assert(r.deep_view() =~= seq![s@]);
        }
        return r;
    }
    let mut r: Vec<String> = Vec::new();
    let mut pos: usize = 0;
    proof {
        assert(s@.subrange(0, n as int) =~= s@);
        assert(r.deep_view() + spec_split_seq(s@, sep@) =~= spec_split_seq(s@, sep@));
    }
    loop
        invariant
            pos <= n,
            n == s@.len(),
            seplen == sep@.len(),
            seplen >= 1,
            r.deep_view() + spec_split_seq(s@.subrange(pos as int, n as int), sep@)
                == spec_split_seq(s@, sep@),
        decreases n - pos,
    {
        let ghost suffix = s@.subrange(pos as int, n as int);
        let ghost prev = r.deep_view();
        proof {
            lemma_first_match_index(suffix, sep@);
            assert forall|j: int| 0 <= j && j + sep@.len() <= suffix.len() implies (match_at(
                suffix,
                sep@,
                j,
            ) <==> match_at(s@, sep@, j + pos)) by {
                assert(suffix.subrange(j, j + sep@.len()) =~= s@.subrange(
                    pos + j,
                    pos + j + sep@.len(),
                ));
            }
        }
        match find_sub_from(s, sep, pos) {
            Some(i) => {
                proof {
                    assert(match_at(suffix, sep@, i - pos));
                    assert(forall|j: int| 0 <= j < i - pos ==> !match_at(suffix, sep@, j));
                    assert(first_match_index(suffix, sep@) == i - pos);
                    assert(suffix.subrange(0, i - pos) =~= s@.subrange(pos as int, i as int));
                    assert(suffix.subrange(i - pos + seplen, suffix.len() as int) =~= s@.subrange(
                        i + seplen,
                        n as int,
                    ));
                }
                let piece = String::from_str(s.substring_char(pos, i));
                r.push(piece);
                proof {
                    assert(r.deep_view() =~= prev.push(s@.subrange(pos as int, i as int)));
                    assert(r.deep_view() + spec_split_seq(s@.subrange(i + seplen, n as int), sep@)
                        =~= prev + spec_split_seq(suffix, sep@));
                }
                pos = i + seplen;
            },
            None => {
                proof {
                    assert(first_match_index(suffix, sep@) == -1) by {
                        if first_match_index(suffix, sep@) != -1 {
                            let k = first_match_index(suffix, sep@);
                            assert(match_at(suffix, sep@, k));
                            assert(match_at(s@, sep@, k + pos));
                        }
                    }
                    assert(spec_split_seq(suffix, sep@) == seq![suffix]);
                }
                let piece = String::from_str(s.substring_char(pos, n));
                r.push(piece);
                proof {
                    assert(r.deep_view() =~= prev.push(suffix));
                    assert(r.deep_view() =~= prev + spec_split_seq(suffix, sep@));
                }
                return r;
            },
        }
    }
}

/// A split on a separator always yields at least one piece.
pub proof fn lemma_split_seq_len(s: Seq<char>, sep: Seq<char>)
    ensures
        spec_split_seq(s, sep).len() >= 1,
    decreases s.len(),
{
    if sep.len() >= 1 {
        let i = first_match_index(s, sep);
        if 0 <= i && i + sep.len() <= s.len() {
            lemma_split_seq_len(s.subrange(i + sep.len(), s.len() as int), sep);
        }
    }
}

// ---------------------------------------------------------------------------
// Character search and equality
// ---------------------------------------------------------------------------

/// The index of the first occurrence of `c` in `s`, or -1 when `c` does not
/// occur.
pub open spec fn first_index_of(s: Seq<char>, c: char) -> int
    decreases s.len(),
{
    if s.len() == 0 {
        -1
    } else if s[0] == c {
        0
    } else {
        let r = first_index_of(s.drop_first(), c);
        if r < 0 {
            -1
        } else {
            r + 1
        }
    }
}

/// What `first_index_of` means position by position.
pub proof fn lemma_first_index_of(s: Seq<char>, c: char)
    ensures
        first_index_of(s, c) == -1 ==> forall|j: int| 0 <= j < s.len() ==> s[j] != c,
        first_index_of(s, c) != -1 ==> {
            let i = first_index_of(s, c);
            &&& 0 <= i < s.len()
            &&& s[i] == c
            &&& forall|j: int| 0 <= j < i ==> s[j] != c
        },
    decreases s.len(),
{
    if s.len() > 0 && s[0] != c {
        lemma_first_index_of(s.drop_first(), c);
        let r = first_index_of(s.drop_first(), c);
        if r < 0 {
            assert forall|j: int| 0 <= j < s.len() implies s[j] != c by {
                if j > 0 {
                    assert(s.drop_first()[j - 1] == s[j]);
                }
            }
        } else {
            let i = first_index_of(s, c);
            assert(s.drop_first()[r] == s[i]);
            assert forall|j: int| 0 <= j < i implies s[j] != c by {
                if j > 0 {
                    assert(s.drop_first()[j - 1] == s[j]);
                }
            }
        }
    }
}

/// The index of the first occurrence of `c` in `s` at or after `from`.
pub fn find_char_from(s: &str, c: char, from: usize) -> (r: Option<usize>)
    requires
        from <= s@.len(),
    ensures
        match r {
            Some(i) => from <= i < s@.len() && s@[i as int] == c && forall|j: int|
                from <= j < i ==> s@[j] != c,
            None => forall|j: int| from <= j < s@.len() ==> s@[j] != c,
        },
{
    let n = s.unicode_len();
    let mut i: usize = from;
    while i < n
        invariant
            from <= i <= n,
            n == s@.len(),
            forall|j: int| from <= j < i ==> s@[j] != c,
        decreases n - i,
    {
        if s.get_char(i) == c {
            return Some(i);
        }
        i = i + 1;
    }
    None
}

/// Whether two string slices hold the same characters.
pub fn str_eq(a: &str, b: &str) -> (r: bool)
    ensures
        r == (a@ == b@),
{
    let n = a.unicode_len();
    if n != b.unicode_len() {
        return false;
    }
    let mut i: usize = 0;
    while i < n
        invariant
            0 <= i <= n,
            n == a@.len() == b@.len(),
            forall|j: int| 0 <= j < i ==> a@[j] == b@[j],
        decreases n - i,
    {
        if a.get_char(i) != b.get_char(i) {
            return false;
        }
        i = i + 1;
    }
    assert(a@ =~= b@);
    true
}

/// `s` begins with `p`.
pub open spec fn spec_starts(s: Seq<char>, p: Seq<char>) -> bool {
    p.len() <= s.len() && s.subrange(0, p.len() as int) == p
}

/// Whether `s` begins with `p`.
pub fn starts_with(s: &str, p: &str) -> (r: bool)
    ensures
        r == spec_starts(s@, p@),
{
    let plen = p.unicode_len();
    if plen > s.unicode_len() {
        return false;
    }
    match_at_exec(s, p, 0)
}

/// `c` occurs somewhere in `s`.
pub open spec fn contains_char(s: Seq<char>, c: char) -> bool {
    exists|j: int| 0 <= j < s.len() && s[j] == c
}

/// Whether `c` occurs somewhere in `s`.
pub fn has_char(s: &str, c: char) -> (r: bool)
    ensures
        r == contains_char(s@, c),
{
    match find_char_from(s, c, 0) {
        Some(i) => {
            assert(contains_char(s@, c));
            true
        },
        None => false,
    }
}

/// `s` with every `from` replaced by the single character of `to`.
pub open spec fn spec_replace(s: Seq<char>, from: char, to: char) -> Seq<char> {
    s.map_values(|c: char| if c == from {
        to
    } else {
        c
    })
}

/// Replaces every occurrence of `from` with the one-character string
/// `to`.
pub fn replace_char(s: &str, from: char, to: &str) -> (r: String)
    requires
        to@.len() == 1,
    ensures
        r@ == spec_replace(s@, from, to@[0]),
{
    let n = s.unicode_len();
    let mut out = String::new();
    let mut i: usize = 0;
    proof {
        assert(out@ =~= spec_replace(s@.subrange(0, 0), from, to@[0]));
    }
    while i < n
        invariant
            0 <= i <= n,
            n == s@.len(),
            to@.len() == 1,
            out@ == spec_replace(s@.subrange(0, i as int), from, to@[0]),
        decreases n - i,
    {
        let c = s.get_char(i);
        if c == from {
            out.append(to);
        } else {
            out.append(s.substring_char(i, i + 1));
        }
        proof {
            assert(out@ =~= spec_replace(s@.subrange(0, i + 1), from, to@[0]));
        }
        i = i + 1;
    }
    proof {
        assert(s@.subrange(0, n as int) =~= s@);
    }
    out
}

/// `s` with every leading copy of the prefix `p` removed, as
/// `str::trim_start_matches` leaves it.
pub open spec fn strip_prefix_rep(s: Seq<char>, p: Seq<char>) -> Seq<char>
    decreases s.len(),
{
    if p.len() > 0 && spec_starts(s, p) {
        strip_prefix_rep(s.subrange(p.len() as int, s.len() as int), p)
    } else {
        s
    }
}

/// Strips every leading copy of `p` off `s`, as `str::trim_start_matches`
/// does.
pub fn strip_prefix_repeated<'a>(s: &'a str, p: &str) -> (r: &'a str)
    ensures
        r@ == strip_prefix_rep(s@, p@),
{
    let plen = p.unicode_len();
    if plen == 0 {
        return s;
    }
    let mut cur: &str = s;
    let mut n = cur.unicode_len();
    loop
        invariant
            plen == p@.len(),
            plen >= 1,
            n == cur@.len(),
            strip_prefix_rep(cur@, p@) == strip_prefix_rep(s@, p@),
        decreases n,
    {
        if !starts_with(cur, p) {
            return cur;
        }
        let ghost prev = cur@;
        cur = cur.substring_char(plen, n);
        proof {
            assert(cur@ == prev.subrange(plen as int, prev.len() as int));
        }
        n = n - plen;
    }
}

// ---------------------------------------------------------------------------
// Splitting
// ---------------------------------------------------------------------------

/// The pieces of `s` between occurrences of the separator `c`, as
/// `str::split` yields them: `n` separators give `n + 1` pieces, empty
/// pieces included.
pub open spec fn spec_split_char(s: Seq<char>, c: char) -> Seq<Seq<char>>
    decreases s.len(),
{
    let i = first_index_of(s, c);
    if 0 <= i < s.len() {
        seq![s.subrange(0, i)] + spec_split_char(s.subrange(i + 1, s.len() as int), c)
    } else {
        seq![s]
    }
}

/// Splits `s` at every occurrence of `c`.
pub fn split_char(s: &str, c: char) -> (r: Vec<String>)
    ensures
        r.deep_view() == spec_split_char(s@, c),
{
    let n = s.unicode_len();
    let mut r: Vec<String> = Vec::new();
    let mut pos: usize = 0;
    proof {
        assert(s@.subrange(0, n as int) =~= s@);
        assert(r.deep_view() + spec_split_char(s@, c) =~= spec_split_char(s@, c));
    }
    loop
        invariant
            pos <= n,
            n == s@.len(),
            r.deep_view() + spec_split_char(s@.subrange(pos as int, n as int), c)
                == spec_split_char(s@, c),
        decreases n - pos,
    {
        let ghost suffix = s@.subrange(pos as int, n as int);
        let ghost prev = r.deep_view();
        proof {
            lemma_first_index_of(suffix, c);
        }
        match find_char_from(s, c, pos) {
            Some(i) => {
                proof {
                    assert(suffix[i - pos] == c);
                    assert(forall|j: int| 0 <= j < i - pos ==> suffix[j] != c);
                    assert(first_index_of(suffix, c) == i - pos);
                    assert(suffix.subrange(0, i - pos) =~= s@.subrange(pos as int, i as int));
                    assert(suffix.subrange(i - pos + 1, suffix.len() as int) =~= s@.subrange(
                        i + 1,
                        n as int,
                    ));
                }
                let piece = String::from_str(s.substring_char(pos, i));
                r.push(piece);
                proof {
                    assert(r.deep_view() =~= prev.push(s@.subrange(pos as int, i as int)));
                    assert(r.deep_view() + spec_split_char(s@.subrange(i + 1, n as int), c) =~=
                        prev + spec_split_char(suffix, c));
                }
                pos = i + 1;
            },
            None => {
                proof {
                    assert(first_index_of(suffix, c) == -1);
                    assert(spec_split_char(suffix, c) == seq![suffix]);
                }
                let piece = String::from_str(s.substring_char(pos, n));
                r.push(piece);
                proof {
                    assert(r.deep_view() =~= prev.push(suffix));
                    assert(r.deep_view() =~= prev + spec_split_char(suffix, c));
                }
                return r;
            },
        }
    }
}

/// A split always yields at least one piece.
pub proof fn lemma_split_char_len(s: Seq<char>, c: char)
    ensures
        spec_split_char(s, c).len() >= 1,
    decreases s.len(),
{
    let i = first_index_of(s, c);
    if 0 <= i < s.len() {
        lemma_split_char_len(s.subrange(i + 1, s.len() as int), c);
    }
}

/// `l` without one trailing carriage return, as `str::lines` strips it.
pub open spec fn strip_cr(l: Seq<char>) -> Seq<char> {
    if l.len() > 0 && l.last() == '\r' {
        l.drop_last()
    } else {
        l
    }
}

/// What `str::lines` yields: the text split at every newline, one final
/// empty piece dropped, and one trailing carriage return stripped from
/// every line whose newline was consumed — a final line that no newline
/// ends keeps its carriage return.
pub open spec fn spec_lines(s: Seq<char>) -> Seq<Seq<char>> {
    let pieces = spec_split_char(s, '\n');
    let kept = if pieces.last().len() == 0 {
        pieces.drop_last()
    } else {
        pieces
    };
    kept.map(|i: int, l: Seq<char>| if pieces.last().len() == 0 || i < kept.len() - 1 {
        strip_cr(l)
    } else {
        l
    })
}

/// Splits `s` into lines, as `str::lines` does.
pub fn split_lines(s: &str) -> (r: Vec<String>)
    ensures
        r.deep_view() == spec_lines(s@),
{
    proof {
        lemma_split_char_len(s@, '\n');
    }
    let mut pieces = split_char(s, '\n');
    let ghost all = pieces.deep_view();
    let dropped: bool = if pieces[pieces.len() - 1].as_str().is_empty() {
        pieces.pop();
        proof {
            assert(pieces.deep_view() =~= all.drop_last());
        }
        true
    } else {
        false
    };
    let ghost kept = pieces.deep_view();
    let mut out: Vec<String> = Vec::new();
    let mut i: usize = 0;
    while i < pieces.len()
        invariant
            0 <= i <= pieces.len(),
            pieces.deep_view() == kept,
            spec_lines(s@).len() == kept.len(),
            forall|j: int| 0 <= j < kept.len() ==> #[trigger] spec_lines(s@)[j] == (if dropped || j
                < kept.len() - 1 {
                strip_cr(kept[j])
            } else {
                kept[j]
            }),
            out.deep_view() == spec_lines(s@).subrange(0, i as int),
        decreases pieces.len() - i,
    {
        let ghost prev = out.deep_view();
        let piece = pieces[i].as_str();
        let plen = piece.unicode_len();
        let stripping = dropped || i + 1 < pieces.len();
        if stripping && plen > 0 && piece.get_char(plen - 1) == '\r' {
            out.push(String::from_str(piece.substring_char(0, plen - 1)));
            proof {
                assert(piece@.subrange(0, plen - 1) =~= strip_cr(kept[i as int]));
            }
        } else {
            out.push(String::from_str(piece));
            proof {
                if stripping {
                    assert(piece@ =~= strip_cr(kept[i as int]));
                }
            }
        }
        proof {
            assert(out.deep_view() =~= prev.push(spec_lines(s@)[i as int]));
            assert(out.deep_view() =~= spec_lines(s@).subrange(0, i + 1));
        }
        i = i + 1;
    }
    proof {
        assert(spec_lines(s@).subrange(0, kept.len() as int) =~= spec_lines(s@));
    }
    out
}

// ---------------------------------------------------------------------------
// Whitespace and trimming
// ---------------------------------------------------------------------------

/// Whether `c` has the Unicode `White_Space` property, the test behind
/// `char::is_whitespace`.
pub open spec fn is_space(c: char) -> bool {
    c == ' ' || c == '\t' || c == '\n' || c == '\u{b}' || c == '\u{c}' || c == '\r' || c
        == '\u{85}' || c == '\u{a0}' || c == '\u{1680}' || c == '\u{2000}' || c == '\u{2001}' || c
        == '\u{2002}' || c == '\u{2003}' || c == '\u{2004}' || c == '\u{2005}' || c == '\u{2006}'
        || c == '\u{2007}' || c == '\u{2008}' || c == '\u{2009}' || c == '\u{200a}' || c
        == '\u{2028}' || c == '\u{2029}' || c == '\u{202f}' || c == '\u{205f}' || c == '\u{3000}'
}

/// Whether `c` is whitespace in the sense of `char::is_whitespace`.
fn is_space_char(c: char) -> (r: bool)
    ensures
        r == is_space(c),
{
    match c {
        ' ' | '\t' | '\n' | '\u{b}' | '\u{c}' | '\r' | '\u{85}' | '\u{a0}' | '\u{1680}'
            | '\u{2000}' | '\u{2001}' | '\u{2002}' | '\u{2003}' | '\u{2004}' | '\u{2005}'
            | '\u{2006}' | '\u{2007}' | '\u{2008}' | '\u{2009}' | '\u{200a}' | '\u{2028}'
            | '\u{2029}' | '\u{202f}' | '\u{205f}' | '\u{3000}' => true,
        _ => false,
    }
}

/// How many whitespace characters `s` begins with.
pub open spec fn trim_start_count(s: Seq<char>) -> int
    decreases s.len(),
{
    if s.len() == 0 || !is_space(s[0]) {
        0
    } else {
        1 + trim_start_count(s.drop_first())
    }
}

/// How many whitespace characters `s` ends with.
pub open spec fn trim_end_count(s: Seq<char>) -> int
    decreases s.len(),
{
    if s.len() == 0 || !is_space(s.last()) {
        0
    } else {
        1 + trim_end_count(s.drop_last())
    }
}

/// What `str::trim` returns: `s` without its leading and trailing
/// whitespace.
pub open spec fn spec_trim(s: Seq<char>) -> Seq<char> {
    let rest = s.subrange(trim_start_count(s), s.len() as int);
    rest.subrange(0, rest.len() - trim_end_count(rest))
}

proof fn lemma_trim_start_count(s: Seq<char>)
    ensures
        0 <= trim_start_count(s) <= s.len(),
        forall|j: int| 0 <= j < trim_start_count(s) ==> is_space(#[trigger] s[j]),
        trim_start_count(s) < s.len() ==> !is_space(s[trim_start_count(s)]),
    decreases s.len(),
{
    if s.len() > 0 && is_space(s[0]) {
        lemma_trim_start_count(s.drop_first());
        let a = trim_start_count(s);
        assert forall|j: int| 0 <= j < a implies is_space(#[trigger] s[j]) by {
            if j > 0 {
                assert(s.drop_first()[j - 1] == s[j]);
            }
        }
        if a < s.len() {
            assert(s.drop_first()[a - 1] == s[a]);
        }
    }
}

proof fn lemma_trim_end_count(s: Seq<char>)
    ensures
        0 <= trim_end_count(s) <= s.len(),
        forall|j: int| s.len() - trim_end_count(s) <= j < s.len() ==> is_space(#[trigger] s[j]),
        trim_end_count(s) < s.len() ==> !is_space(s[s.len() - trim_end_count(s) - 1]),
    decreases s.len(),
{
    if s.len() > 0 && is_space(s.last()) {
        lemma_trim_end_count(s.drop_last());
        let e = trim_end_count(s);
        assert forall|j: int| s.len() - e <= j < s.len() implies is_space(#[trigger] s[j]) by {
            if j < s.len() - 1 {
                assert(s.drop_last()[j] == s[j]);
            }
        }
        if e < s.len() {
            assert(s.drop_last()[s.len() - e - 1] == s[s.len() - e - 1]);
        }
    }
}

/// Strips leading and trailing whitespace, as `str::trim` does.
pub fn trim(s: &str) -> (r: &str)
    ensures
        r@ == spec_trim(s@),
{
    let n = s.unicode_len();
    proof {
        lemma_trim_start_count(s@);
    }
    let mut a: usize = 0;
    while a < n && is_space_char(s.get_char(a))
        invariant
            0 <= a <= n,
            n == s@.len(),
            forall|j: int| 0 <= j < a ==> is_space(#[trigger] s@[j]),
        decreases n - a,
    {
        a = a + 1;
    }
    proof {
        let sa = trim_start_count(s@);
        if sa < a {
            assert(is_space(s@[sa]));
            assert(false);
        }
        if a < sa {
            assert(is_space(s@[a as int]));
            assert(false);
        }
    }
    let ghost rest = s@.subrange(a as int, n as int);
    proof {
        lemma_trim_end_count(rest);
    }
    let mut b: usize = n;
    while b > a && is_space_char(s.get_char(b - 1))
        invariant
            a <= b <= n,
            n == s@.len(),
            forall|j: int| b <= j < n ==> is_space(#[trigger] s@[j]),
        decreases b,
    {
        b = b - 1;
    }
    proof {
        let e = trim_end_count(rest);
        assert(forall|j: int| 0 <= j < rest.len() ==> rest[j] == s@[j + a]);
        if a < n {
            assert(!is_space(rest[0]));
        }
        if n - b < e {
            if b > a {
                assert(is_space(rest[b - a - 1]));
                assert(!is_space(rest[rest.len() - e - 1]));
                assert(rest.len() - e - 1 <= b - a - 1);
                assert(is_space(rest[rest.len() - e - 1]) || rest.len() - e - 1 == b - a - 1);
                assert(false);
            } else {
                assert(rest.len() == 0);
                assert(false);
            }
        }
        if n - b > e {
            assert(is_space(rest[rest.len() - (n - b) as int]));
            assert(rest.len() - (n - b) >= rest.len() - e);
            assert(false);
        }
        assert(s@.subrange(a as int, b as int) =~= spec_trim(s@));
    }
    s.substring_char(a, b)
}

} // verus!
