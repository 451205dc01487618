//! Verified text utilities: prefix/suffix matching, substring search, line
//! splitting, whitespace trimming and decimal conversion.  The narrow wire
//! formats of the device profiles are parsed with these alone.

use vstd::prelude::*;
use vstd::string::StrSliceExecFns;
use vstd::string::StringExecFns;

verus! {

// ---------------------------------------------------------------------------
// Prefix, suffix and containment
// ---------------------------------------------------------------------------

pub open spec fn spec_starts_with(s: Seq<char>, p: Seq<char>) -> bool {
    p.len() <= s.len() && s.take(p.len() as int) == p
}

pub open spec fn spec_ends_with(s: Seq<char>, p: Seq<char>) -> bool {
    p.len() <= s.len() && s.skip(s.len() - p.len()) == p
}

/// `p` occurs in `s` starting at position `i`.
pub open spec fn spec_match_at(s: Seq<char>, p: Seq<char>, i: int) -> bool {
    0 <= i && i + p.len() <= s.len() && s.subrange(i, i + p.len()) == p
}

pub open spec fn spec_contains_str(s: Seq<char>, p: Seq<char>) -> bool {
    exists|i: int| spec_match_at(s, p, i)
}

/// Whether `p` occurs in `s` at `i`, by character comparison.
fn match_at(s: &str, p: &str, i: usize) -> (r: bool)
    requires
        i + p@.len() <= s@.len(),
        s@.len() <= usize::MAX,
    ensures
        r == spec_match_at(s@, p@, i as int),
{
    let n = p.unicode_len();
    let mut k: usize = 0;
    while k < n
        invariant
            k <= n,
            n == p@.len(),
            i + n <= s@.len(),
            s@.len() <= usize::MAX,
            forall|j: int| 0 <= j < k ==> s@[i + j] == p@[j],
        decreases n - k,
    {
        if s.get_char(i + k) != p.get_char(k) {
            assert(s@.subrange(i as int, i + p@.len())[k as int] == s@[i + k]);
            return false;
        }
        k += 1;
    }
    assert(s@.subrange(i as int, i + p@.len()) =~= p@);
    true
}

pub fn str_starts_with(s: &str, p: &str) -> (r: bool)
    ensures
        r == spec_starts_with(s@, p@),
{
    let n = p.unicode_len();
    if n > s.unicode_len() {
        return false;
    }
    let r = match_at(s, p, 0);
    assert(s@.subrange(0, p@.len() as int) == s@.take(p@.len() as int));
    r
}

pub fn str_ends_with(s: &str, p: &str) -> (r: bool)
    ensures
        r == spec_ends_with(s@, p@),
{
    let n = p.unicode_len();
    let m = s.unicode_len();
    if n > m {
        return false;
    }
    let r = match_at(s, p, m - n);
    assert(s@.subrange(s@.len() - p@.len(), s@.len() - p@.len() + p@.len()) == s@.skip(
        s@.len() - p@.len(),
    ));
    r
}

/// Whether `p` occurs anywhere in `s`.
pub fn str_contains(s: &str, p: &str) -> (r: bool)
    ensures
        r == spec_contains_str(s@, p@),
{
    let n = p.unicode_len();
    let m = s.unicode_len();
    if n > m {
        assert(forall|i: int| !spec_match_at(s@, p@, i));
        return false;
    }
    if n == 0 {
        assert(spec_match_at(s@, p@, 0)) by {
            assert(s@.subrange(0, 0) =~= p@);
        }
        return true;
    }
    let last = m - n;
    let mut i: usize = 0;
    loop
        invariant
            i <= last,
            n == p@.len(),
            m == s@.len(),
            1 <= n <= m,
            last == m - n,
            forall|j: int| 0 <= j < i ==> !spec_match_at(s@, p@, j),
        decreases last - i,
    {
        if match_at(s, p, i) {
            return true;
        }
        if i == last {
            assert(forall|j: int| spec_match_at(s@, p@, j) ==> 0 <= j <= last);
            return false;
        }
        i += 1;
    }
}

// ---------------------------------------------------------------------------
// Character search
// ---------------------------------------------------------------------------

/// Position of the first occurrence of `c` in `s` at or after `i`.
pub open spec fn spec_find(s: Seq<char>, c: char, i: int) -> Option<int>
    decreases s.len() - i,
{
    if i < 0 || i >= s.len() {
        None
    } else if s[i] == c {
        Some(i)
    } else {
        spec_find(s, c, i + 1)
    }
}

pub proof fn lemma_find_bounds(s: Seq<char>, c: char, i: int)
    requires
        0 <= i,
    ensures
        match spec_find(s, c, i) {
            Some(j) => i <= j < s.len() && s[j] == c && forall|k: int| i <= k < j ==> s[k] != c,
            None => forall|k: int| i <= k < s.len() ==> s[k] != c,
        },
    decreases s.len() - i,
{
    if 0 <= i < s.len() && s[i] != c {
        lemma_find_bounds(s, c, i + 1);
    }
}

pub fn find_char(s: &str, c: char, from: usize) -> (r: Option<usize>)
    ensures
        match r {
            Some(j) => from <= j < s@.len() && spec_find(s@, c, from as int) == Some(j as int),
            None => spec_find(s@, c, from as int) is None,
        },
{
    let m = s.unicode_len();
    let mut i: usize = from;
    while i < m
        invariant
            from <= i,
            m == s@.len(),
            spec_find(s@, c, from as int) == spec_find(s@, c, i as int),
        decreases m - i,
    {
        if s.get_char(i) == c {
            return Some(i);
        }
        i += 1;
    }
    None
}

// ---------------------------------------------------------------------------
// Trimming trailing whitespace
// ---------------------------------------------------------------------------

pub open spec fn spec_is_space(c: char) -> bool {
    c == ' ' || c == '\t' || c == '\r' || c == '\n'
}

pub open spec fn spec_trim_end(s: Seq<char>) -> Seq<char>
    decreases s.len(),
{
    if s.len() == 0 {
        s
    } else if spec_is_space(s.last()) {
        spec_trim_end(s.drop_last())
    } else {
        s
    }
}

fn is_space(c: char) -> (r: bool)
    ensures
        r == spec_is_space(c),
{
    c == ' ' || c == '\t' || c == '\r' || c == '\n'
}

/// Copy of `s` without trailing whitespace.
pub fn trim_end(s: &str) -> (r: String)
    ensures
        r@ == spec_trim_end(s@),
{
    let mut end = s.unicode_len();
    assert(s@.take(s@.len() as int) =~= s@);
    loop
        invariant
            end <= s@.len(),
            s@.len() <= usize::MAX,
            spec_trim_end(s@) == spec_trim_end(s@.take(end as int)),
        ensures
            end <= s@.len(),
            spec_trim_end(s@) == spec_trim_end(s@.take(end as int)),
            end == 0 || !spec_is_space(s@[end - 1]),
        decreases end,
    {
        if end == 0 {
            break;
        }
        if !is_space(s.get_char(end - 1)) {
            break;
        }
        assert(s@.take(end as int).drop_last() =~= s@.take(end - 1));
        end = end - 1;
    }
    let kept = s.substring_char(0, end);
    proof {
        if end > 0 {
            assert(s@.take(end as int).last() == s@[end - 1]);
        }
        assert(kept@ =~= s@.take(end as int));
    }
    kept.to_owned()
}

// ---------------------------------------------------------------------------
// Line splitting
// ---------------------------------------------------------------------------

/// A line with a trailing carriage return stripped.
pub open spec fn spec_strip_cr(l: Seq<char>) -> Seq<char> {
    if l.len() > 0 && l.last() == '\r' {
        l.drop_last()
    } else {
        l
    }
}

/// The lines of `s` from position `pos` on, split at newlines; a final
/// newline does not open an extra empty line.
pub open spec fn spec_lines_from(s: Seq<char>, pos: int) -> Seq<Seq<char>>
    decreases s.len() - pos,
    via spec_lines_from_decreases
{
    if pos < 0 || pos >= s.len() {
        Seq::empty()
    } else {
        match spec_find(s, '\n', pos) {
            Some(i) => seq![spec_strip_cr(s.subrange(pos, i))] + spec_lines_from(s, i + 1),
            None => seq![spec_strip_cr(s.skip(pos))],
        }
    }
}

#[via_fn]
proof fn spec_lines_from_decreases(s: Seq<char>, pos: int) {
    if 0 <= pos < s.len() {
        lemma_find_bounds(s, '\n', pos);
    }
}

pub open spec fn spec_lines(s: Seq<char>) -> Seq<Seq<char>> {
    spec_lines_from(s, 0)
}

/// Splits a document into lines, dropping the line terminators.
pub fn split_lines(s: &str) -> (r: Vec<String>)
    ensures
        r@.map_values(|l: String| l@) == spec_lines(s@),
{
    let m = s.unicode_len();
    let mut out: Vec<String> = Vec::new();
    let mut pos: usize = 0;
    while pos < m
        invariant
            pos <= m + 1,
            m == s@.len(),
            spec_lines(s@) =~= out@.map_values(|l: String| l@) + spec_lines_from(s@, pos as int),
        decreases m - pos,
    {
        let (line_end, next_pos) = match find_char(s, '\n', pos) {
            Some(i) => (i, i + 1),
            None => (m, m),
        };
        let raw = s.substring_char(pos, line_end);
        let line = strip_cr_owned(raw);
        proof {
            if spec_find(s@, '\n', pos as int) is Some {
                assert(s@.subrange(pos as int, line_end as int) == s@.subrange(
                    pos as int,
                    spec_find(s@, '\n', pos as int)->0,
                ));
            } else {
                assert(s@.subrange(pos as int, line_end as int) =~= s@.skip(pos as int));
            }
        }
        out.push(line);
        proof {
            assert(out@.map_values(|l: String| l@) =~= out@.drop_last().map_values(
                |l: String| l@,
            ).push(out@.last()@));
        }
        pos = next_pos;
    }
    proof {
        assert(out@.map_values(|l: String| l@) + spec_lines_from(s@, pos as int) =~= out@.map_values(
            |l: String| l@,
        ));
    }
    out
}

fn strip_cr_owned(l: &str) -> (r: String)
    ensures
        r@ == spec_strip_cr(l@),
{
    let n = l.unicode_len();
    if n > 0 && l.get_char(n - 1) == '\r' {
        let kept = l.substring_char(0, n - 1);
        assert(kept@ =~= l@.drop_last());
        kept.to_owned()
    } else {
        l.to_owned()
    }
}

// ---------------------------------------------------------------------------
// Decimal numbers
// ---------------------------------------------------------------------------

pub open spec fn spec_is_digit(c: char) -> bool {
    48 <= c as int && c as int <= 57
}

pub open spec fn spec_digit_val(c: char) -> nat {
    (c as int - 48) as nat
}

pub open spec fn spec_all_digits(s: Seq<char>) -> bool {
    forall|i: int| 0 <= i < s.len() ==> spec_is_digit(#[trigger] s[i])
}

/// Value of a digit string, most significant digit first.
pub open spec fn spec_dec_val(s: Seq<char>) -> nat
    decreases s.len(),
{
    if s.len() == 0 {
        0
    } else {
        10 * spec_dec_val(s.drop_last()) + spec_digit_val(s.last())
    }
}

proof fn lemma_dec_val_prefix_le(s: Seq<char>, i: int)
    requires
        0 <= i <= s.len(),
    ensures
        spec_dec_val(s.take(i)) <= spec_dec_val(s),
    decreases s.len() - i,
{
    if i < s.len() {
        assert(s.take(i + 1).drop_last() =~= s.take(i));
        assert(spec_dec_val(s.take(i)) <= spec_dec_val(s.take(i + 1)));
        lemma_dec_val_prefix_le(s, i + 1);
    } else {
        assert(s.take(i) =~= s);
    }
}

/// Parses a non-empty all-digit string into a `u64`.  Anything else — an
/// empty string, a stray character, a value past `u64::MAX` — is refused.
pub fn parse_u64_digits(s: &str) -> (r: Option<u64>)
    ensures
        match r {
            Some(v) => s@.len() > 0 && spec_all_digits(s@) && v == spec_dec_val(s@),
            None => s@.len() == 0 || !spec_all_digits(s@) || spec_dec_val(s@) > u64::MAX,
        },
{
    let m = s.unicode_len();
    if m == 0 {
        return None;
    }
    let mut acc: u64 = 0;
    let mut i: usize = 0;
    while i < m
        invariant
            i <= m,
            m == s@.len(),
            spec_all_digits(s@.take(i as int)),
            acc == spec_dec_val(s@.take(i as int)),
        decreases m - i,
    {
        let c = s.get_char(i);
        let code = c as u32;
        if code < 48 || code > 57 {
            assert(!spec_is_digit(s@[i as int]));
            return None;
        }
        let d = (code - 48) as u64;
        proof {
            assert(s@.take(i + 1).drop_last() =~= s@.take(i as int));
        }
        if acc > (u64::MAX - d) / 10 {
            proof {
                lemma_dec_val_prefix_le(s@, i + 1);
            }
            return None;
        }
        acc = acc * 10 + d;
        i += 1;
    }
    assert(s@.take(m as int) =~= s@);
    Some(acc)
}

/// Decimal digits of `n`, most significant first.
pub open spec fn spec_dec_str(n: nat) -> Seq<char>
    decreases n,
{
    if n < 10 {
        seq![spec_digit_char(n)]
    } else {
        spec_dec_str(n / 10).push(spec_digit_char(n % 10))
    }
}

pub open spec fn spec_digit_char(d: nat) -> char {
    ((48 + d) as u8) as char
}

/// Renders `n` in decimal.
pub fn u64_to_dec(n: u64) -> (r: String)
    ensures
        r@ == spec_dec_str(n as nat),
{
    let mut digits: Vec<char> = Vec::new();
    let mut m = n;
    assert(spec_dec_str(n as nat) =~= spec_dec_str(m as nat) + digits@);
    loop
        invariant_except_break
            spec_dec_str(n as nat) == spec_dec_str(m as nat) + digits@,
        ensures
            digits@ == spec_dec_str(n as nat),
        decreases m,
    {
        let d = m % 10;
        let digit = (48 + d) as u8 as char;
        proof {
            assert(digit == spec_digit_char((m % 10) as nat));
            assert(seq![digit] + digits@ =~= digits@.insert(0, digit));
        }
        digits.insert(0, digit);
        if m < 10 {
            proof {
                assert(spec_dec_str(m as nat) =~= seq![digit]);
                assert(spec_dec_str(n as nat) =~= digits@);
            }
            break;
        }
        proof {
            assert(spec_dec_str(m as nat) == spec_dec_str((m / 10) as nat).push(digit));
            assert(spec_dec_str((m / 10) as nat).push(digit) + digits@.subrange(
                1,
                digits@.len() as int,
            ) =~= spec_dec_str((m / 10) as nat) + digits@);
        }
        m = m / 10;
    }
    chars_to_string(&digits)
}

fn chars_to_string(cs: &Vec<char>) -> (r: String)
    ensures
        r@ == cs@,
{
    let mut out = String::new();
    let mut i: usize = 0;
    while i < cs.len()
        invariant
            i <= cs@.len(),
            out@ == cs@.take(i as int),
        decreases cs@.len() - i,
    {
        push_char(&mut out, cs[i]);
        proof {
            assert(cs@.take(i + 1) =~= cs@.take(i as int).push(cs@[i as int]));
        }
        i += 1;
    }
    proof {
        assert(cs@.take(cs@.len() as int) =~= cs@);
    }
    out
}

/// Relies on std's `String::push`: appends one character at the end of the
/// string.
#[verifier::external_body]
pub(crate) fn push_char(s: &mut String, c: char)
    ensures
        final(s)@ == old(s)@.push(c),
{
    s.push(c);
}

} // verus!
