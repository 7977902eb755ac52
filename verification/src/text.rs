//! Text helpers: strings are read through their sequence of characters.
//!
//! Positions are counted in characters, never in bytes, so that no
//! position can fall inside a character.

use vstd::prelude::*;
use vstd::string::*;
use vstd::utf8::*;

verus! {

/// `String::push` of the standard library appends one character and leaves
/// the characters before it as they were.
pub assume_specification[ String::push ](s: &mut String, c: char)
    ensures
        final(s)@ == old(s)@.push(c),
;

/// The text that `String::from_utf8_lossy` of the standard library makes of
/// `bytes`: their text where they are UTF-8, and else that text with the
/// replacement character in place of each sequence that is not.
pub uninterp spec fn lossy_text(bytes: Seq<u8>) -> Seq<char>;

/// Calls `String::from_utf8_lossy`. The result is the named text; of bytes
/// that are UTF-8 it is the text that they encode.
#[verifier::external_body]
pub(crate) fn decode_lossy(bytes: &Vec<u8>) -> (text: String)
    ensures
        text@ == lossy_text(bytes@),
        valid_utf8(bytes@) ==> text@ == decode_utf8(bytes@),
{
    String::from_utf8_lossy(bytes).into_owned()
}

/// The character sequences of a list of character vectors.
pub open spec fn views(lines: Seq<Vec<char>>) -> Seq<Seq<char>> {
    lines.map_values(|line: Vec<char>| line@)
}

/// The character sequences of a list of strings.
pub open spec fn texts(names: Seq<String>) -> Seq<Seq<char>> {
    names.map_values(|name: String| name@)
}

/// The characters of `s`, in order.
pub fn chars_of(s: &str) -> (chars: Vec<char>)
    ensures
        chars@ == s@,
{
    let mut chars: Vec<char> = Vec::new();
    for c in it: s.chars()
        invariant
            chars@ == it.seq().take(it.index() as int),
            it.seq() == s@,
    {
        chars.push(c);
    }
    chars
}

/// The string that holds exactly `chars`.
pub fn string_of(chars: &Vec<char>) -> (s: String)
    ensures
        s@ == chars@,
{
    let mut s = String::new();
    let mut i: usize = 0;
    while i < chars.len()
        invariant
            i <= chars.len(),
            s@ == chars@.take(i as int),
        decreases chars.len() - i,
    {
        s.push(chars[i]);
        assert(chars@.take(i + 1) =~= chars@.take(i as int).push(chars@[i as int]));
        i += 1;
    }
    assert(chars@.take(chars.len() as int) =~= chars@);
    s
}

/// The characters of `chars` from `from` up to, not including, `to`.
pub fn slice_of(chars: &Vec<char>, from: usize, to: usize) -> (part: Vec<char>)
    requires
        from <= to <= chars.len(),
    ensures
        part@ == chars@.subrange(from as int, to as int),
{
    let mut part: Vec<char> = Vec::new();
    let mut i: usize = from;
    while i < to
        invariant
            from <= i <= to <= chars.len(),
            part@ == chars@.subrange(from as int, i as int),
        decreases to - i,
    {
        part.push(chars[i]);
        assert(chars@.subrange(from as int, i + 1) =~= chars@.subrange(
            from as int,
            i as int,
        ).push(chars@[i as int]));
        i += 1;
    }
    part
}

/// `pat` stands in `s` at position `at`.
pub open spec fn matches_at(s: Seq<char>, pat: Seq<char>, at: int) -> bool {
    0 <= at && at + pat.len() <= s.len() && s.subrange(at, at + pat.len()) == pat
}

/// Tells whether `pat` stands in `s` at position `at`.
pub fn occurs_at(s: &Vec<char>, pat: &Vec<char>, at: usize) -> (found: bool)
    ensures
        found == matches_at(s@, pat@, at as int),
{
    if pat.len() > s.len() || at > s.len() - pat.len() {
        return false;
    }
    let mut k: usize = 0;
    while k < pat.len()
        invariant
            at + pat.len() <= s.len(),
            k <= pat.len(),
            forall|j: int| 0 <= j < k ==> s@[at + j] == pat@[j],
        decreases pat.len() - k,
    {
        if s[at + k] != pat[k] {
            assert(s@.subrange(at as int, at + pat.len())[k as int] == s@[at + k]);
            return false;
        }
        k += 1;
    }
    assert(s@.subrange(at as int, at + pat.len()) =~= pat@);
    true
}

/// `s` ends with `pat`.
pub open spec fn has_suffix(s: Seq<char>, pat: Seq<char>) -> bool {
    pat.len() <= s.len() && s.subrange(s.len() - pat.len(), s.len() as int) == pat
}

/// Tells whether `s` ends with `pat`.
pub fn ends_with(s: &Vec<char>, pat: &Vec<char>) -> (found: bool)
    ensures
        found == has_suffix(s@, pat@),
{
    if pat.len() > s.len() {
        return false;
    }
    occurs_at(s, pat, s.len() - pat.len())
}

/// The last position below `bound` at which `pat` stands in `s`, if any.
pub open spec fn last_match_below(s: Seq<char>, pat: Seq<char>, bound: nat) -> Option<int>
    decreases bound,
{
    if bound == 0 {
        None
    } else if matches_at(s, pat, bound - 1) {
        Some(bound - 1)
    } else {
        last_match_below(s, pat, (bound - 1) as nat)
    }
}

/// The last position at which `pat` stands in `s`, if any.
pub open spec fn last_match(s: Seq<char>, pat: Seq<char>) -> Option<int> {
    last_match_below(s, pat, s.len() + 1)
}

/// `pat` stands somewhere in `s`.
pub open spec fn occurs_in(s: Seq<char>, pat: Seq<char>) -> bool {
    exists|at: int| matches_at(s, pat, at)
}

/// What `last_match_below` finds is a match below the bound, and the last
/// such; it finds nothing only where there is none.
pub proof fn lemma_last_match_below(s: Seq<char>, pat: Seq<char>, bound: nat)
    ensures
        match last_match_below(s, pat, bound) {
            Some(at) => 0 <= at < bound && matches_at(s, pat, at) && forall|j: int|
                at < j < bound ==> !matches_at(s, pat, j),
            None => forall|j: int| 0 <= j < bound ==> !matches_at(s, pat, j),
        },
    decreases bound,
{
    if bound > 0 && !matches_at(s, pat, bound - 1) {
        lemma_last_match_below(s, pat, (bound - 1) as nat);
    }
}

/// `last_match` finds the last position at which `pat` stands in `s`, and
/// finds one exactly when `pat` occurs in `s`.
pub proof fn lemma_last_match(s: Seq<char>, pat: Seq<char>)
    ensures
        last_match(s, pat) is Some <==> occurs_in(s, pat),
        match last_match(s, pat) {
            Some(at) => matches_at(s, pat, at) && forall|j: int|
                at < j ==> !matches_at(s, pat, j),
            None => forall|j: int| !matches_at(s, pat, j),
        },
{
    lemma_last_match_below(s, pat, s.len() + 1);
    if last_match(s, pat) is Some {
        assert(matches_at(s, pat, last_match(s, pat).unwrap()));
    }
}

/// Finds the last position at which `pat` stands in `s`.
pub fn rfind(s: &Vec<char>, pat: &Vec<char>) -> (found: Option<usize>)
    ensures
        match found {
            Some(at) => last_match(s@, pat@) == Some(at as int) && at + pat.len() <= s.len(),
            None => last_match(s@, pat@) is None,
        },
{
    proof {
        lemma_last_match_below(s@, pat@, s@.len() + 1);
    }
    if pat.len() > s.len() {
        return None;
    }
    let mut at: usize = s.len() - pat.len();
    proof {
        lemma_last_match_below(s@, pat@, (at + 1) as nat);
    }
    loop
        invariant
            at + pat.len() <= s.len(),
            last_match(s@, pat@) == last_match_below(s@, pat@, (at + 1) as nat),
        decreases at,
    {
        if occurs_at(s, pat, at) {
            return Some(at);
        }
        if at == 0 {
            assert(last_match_below(s@, pat@, 0) is None);
            return None;
        }
        at -= 1;
    }
}

/// Tells whether `pat` stands somewhere in `s`.
pub fn contains(s: &Vec<char>, pat: &Vec<char>) -> (found: bool)
    ensures
        found == occurs_in(s@, pat@),
{
    proof {
        lemma_last_match(s@, pat@);
    }
    rfind(s, pat).is_some()
}

/// The first position at or after `from` at which `c` stands in `s`, or the
/// length of `s` where there is none.
pub open spec fn first_index_from(s: Seq<char>, c: char, from: int) -> int
    decreases s.len() - from,
{
    if from >= s.len() {
        s.len() as int
    } else if s[from] == c {
        from
    } else {
        first_index_from(s, c, from + 1)
    }
}

/// The first position at which `c` stands in `s`, if any.
pub open spec fn first_index(s: Seq<char>, c: char) -> Option<int> {
    if first_index_from(s, c, 0) < s.len() {
        Some(first_index_from(s, c, 0))
    } else {
        None
    }
}

/// Finds the first position at which `c` stands in `s`.
pub fn find_char(s: &Vec<char>, c: char) -> (found: Option<usize>)
    ensures
        match found {
            Some(at) => first_index(s@, c) == Some(at as int),
            None => first_index(s@, c) is None,
        },
{
    let mut at: usize = 0;
    while at < s.len()
        invariant
            at <= s.len(),
            first_index_from(s@, c, 0) == first_index_from(s@, c, at as int),
        decreases s.len() - at,
    {
        if s[at] == c {
            return Some(at);
        }
        at += 1;
    }
    None
}

/// `line` without one carriage return at its end.
pub open spec fn without_cr(line: Seq<char>) -> Seq<char> {
    if line.len() > 0 && line.last() == '\r' {
        line.drop_last()
    } else {
        line
    }
}

/// The lines of `s` from position `from` on, where the line that holds
/// `from` began at `start`.
pub open spec fn lines_from(s: Seq<char>, from: int, start: int) -> Seq<Seq<char>>
    decreases s.len() - from,
{
    if from >= s.len() {
        if start < s.len() {
            seq![s.subrange(start, s.len() as int)]
        } else {
            Seq::empty()
        }
    } else if s[from] == '\n' {
        seq![without_cr(s.subrange(start, from))] + lines_from(s, from + 1, from + 1)
    } else {
        lines_from(s, from + 1, start)
    }
}

/// The lines of `s`: it is cut after each line feed; a line loses its line
/// feed and one carriage return before it; what follows the last line feed
/// is a line if it is not empty, and is kept whole.
pub open spec fn lines(s: Seq<char>) -> Seq<Seq<char>> {
    lines_from(s, 0, 0)
}

/// Cuts `s` into its lines.
pub fn split_lines(s: &Vec<char>) -> (out: Vec<Vec<char>>)
    ensures
        views(out@) == lines(s@),
{
    let mut out: Vec<Vec<char>> = Vec::new();
    let mut start: usize = 0;
    let mut at: usize = 0;
    while at < s.len()
        invariant
            start <= at <= s.len(),
            lines(s@) == views(out@) + lines_from(s@, at as int, start as int),
        decreases s.len() - at,
    {
        if s[at] == '\n' {
            let end = if at > start && s[at - 1] == '\r' {
                at - 1
            } else {
                at
            };
            let line = slice_of(s, start, end);
            proof {
                let whole = s@.subrange(start as int, at as int);
                assert(line@ =~= without_cr(whole));
                assert(views(out@.push(line)) =~= views(out@).push(line@));
                assert(views(out@).push(line@) + lines_from(s@, at + 1, at + 1) =~= views(out@)
                    + (seq![line@] + lines_from(s@, at + 1, at + 1)));
            }
            out.push(line);
            start = at + 1;
        }
        at += 1;
    }
    if start < s.len() {
        let line = slice_of(s, start, s.len());
        proof {
            assert(views(out@.push(line)) =~= views(out@).push(line@));
            assert(views(out@).push(line@) =~= views(out@) + seq![line@]);
        }
        out.push(line);
    } else {
        assert(views(out@) + Seq::<Seq<char>>::empty() =~= views(out@));
    }
    out
}

/// The characters that the standard library's trimming takes for white
/// space: the code points with the Unicode property `White_Space`.
pub open spec fn is_space(c: char) -> bool {
    let n = c as u32;
    ||| 0x09 <= n <= 0x0d
    ||| n == 0x20
    ||| n == 0x85
    ||| n == 0xa0
    ||| n == 0x1680
    ||| 0x2000 <= n <= 0x200a
    ||| n == 0x2028
    ||| n == 0x2029
    ||| n == 0x202f
    ||| n == 0x205f
    ||| n == 0x3000
}

/// Tells whether `c` is white space.
pub fn char_is_space(c: char) -> (space: bool)
    ensures
        space == is_space(c),
{
    let n: u32 = c as u32;
    (0x09 <= n && n <= 0x0d) || n == 0x20 || n == 0x85 || n == 0xa0 || n == 0x1680 || (0x2000
        <= n && n <= 0x200a) || n == 0x2028 || n == 0x2029 || n == 0x202f || n == 0x205f || n
        == 0x3000
}

/// The length of `s` without the white space at its end.
pub open spec fn trimmed_len(s: Seq<char>) -> nat
    decreases s.len(),
{
    if s.len() > 0 && is_space(s.last()) {
        trimmed_len(s.drop_last())
    } else {
        s.len()
    }
}

/// `s` without the white space at its end.
pub open spec fn trimmed_end(s: Seq<char>) -> Seq<char> {
    s.take(trimmed_len(s) as int)
}

/// Removes the white space at the end of `s`.
pub fn trim_end(s: &Vec<char>) -> (out: Vec<char>)
    ensures
        out@ == trimmed_end(s@),
{
    let mut end: usize = s.len();
    assert(s@.take(end as int) =~= s@);
    while end > 0 && char_is_space(s[end - 1])
        invariant
            end <= s.len(),
            trimmed_len(s@) == trimmed_len(s@.take(end as int)),
        decreases end,
    {
        assert(s@.take(end as int).drop_last() =~= s@.take(end - 1));
        end -= 1;
    }
    assert(s@.subrange(0, end as int) =~= s@.take(end as int));
    slice_of(s, 0, end)
}

/// The decimal digit for `d`, a number below ten.
pub open spec fn digit(d: nat) -> char {
    if d == 0 {
        '0'
    } else if d == 1 {
        '1'
    } else if d == 2 {
        '2'
    } else if d == 3 {
        '3'
    } else if d == 4 {
        '4'
    } else if d == 5 {
        '5'
    } else if d == 6 {
        '6'
    } else if d == 7 {
        '7'
    } else if d == 8 {
        '8'
    } else {
        '9'
    }
}

/// `n` written in decimal, without leading zeros.
pub open spec fn decimal(n: nat) -> Seq<char>
    decreases n,
{
    if n < 10 {
        seq![digit(n)]
    } else {
        decimal(n / 10).push(digit(n % 10))
    }
}

/// The decimal digit for `d`.
pub fn digit_char(d: u64) -> (c: char)
    requires
        d < 10,
    ensures
        c == digit(d as nat),
{
    if d == 0 {
        '0'
    } else if d == 1 {
        '1'
    } else if d == 2 {
        '2'
    } else if d == 3 {
        '3'
    } else if d == 4 {
        '4'
    } else if d == 5 {
        '5'
    } else if d == 6 {
        '6'
    } else if d == 7 {
        '7'
    } else if d == 8 {
        '8'
    } else {
        '9'
    }
}

/// Appends `n`, written in decimal, to `out`.
pub fn push_decimal(out: &mut String, n: u128)
    ensures
        final(out)@ == old(out)@ + decimal(n as nat),
    decreases n,
{
    if n >= 10 {
        push_decimal(out, n / 10);
    }
    out.push(digit_char((n % 10) as u64));
    proof {
        if n >= 10 {
            assert(old(out)@ + decimal(n as nat) =~= (old(out)@ + decimal((n / 10) as nat)).push(
                digit((n % 10) as nat),
            ));
        } else {
            assert(old(out)@ + decimal(n as nat) =~= old(out)@.push(digit(n as nat)));
        }
    }
}

/// Every number has a digit, and a number of two digits has two.
pub proof fn lemma_decimal_len(n: nat)
    ensures
        decimal(n).len() >= 1,
        n >= 10 ==> decimal(n).len() >= 2,
    decreases n,
{
    if n >= 10 {
        lemma_decimal_len(n / 10);
    }
}

/// Two numbers that are written alike are the same number.
pub proof fn lemma_decimal_injective(a: nat, b: nat)
    requires
        decimal(a) == decimal(b),
    ensures
        a == b,
    decreases a,
{
    lemma_decimal_len(a);
    lemma_decimal_len(b);
    if a < 10 && b < 10 {
        assert(decimal(a)[0] == digit(a));
        assert(decimal(b)[0] == digit(b));
    } else if a >= 10 && b >= 10 {
        assert(decimal(a).drop_last() =~= decimal(a / 10));
        assert(decimal(b).drop_last() =~= decimal(b / 10));
        assert(decimal(a).last() == digit(a % 10));
        assert(decimal(b).last() == digit(b % 10));
        lemma_decimal_injective(a / 10, b / 10);
    }
}

/// The first position at or after `from` at which `pat` stands in `s`, if
/// any.
pub open spec fn first_match_from(s: Seq<char>, pat: Seq<char>, from: int) -> Option<int>
    decreases s.len() + 1 - from,
{
    if from > s.len() {
        None
    } else if matches_at(s, pat, from) {
        Some(from)
    } else {
        first_match_from(s, pat, from + 1)
    }
}

/// The first position at which `pat` stands in `s`, if any.
pub open spec fn first_match(s: Seq<char>, pat: Seq<char>) -> Option<int> {
    first_match_from(s, pat, 0)
}

/// Finds the first position at which `pat` stands in `s`.
pub fn find(s: &Vec<char>, pat: &Vec<char>) -> (found: Option<usize>)
    ensures
        match found {
            Some(at) => first_match(s@, pat@) == Some(at as int) && at + pat.len() <= s.len(),
            None => first_match(s@, pat@) is None,
        },
{
    let mut at: usize = 0;
    while at < s.len()
        invariant
            at <= s.len(),
            first_match(s@, pat@) == first_match_from(s@, pat@, at as int),
        decreases s.len() - at,
    {
        if occurs_at(s, pat, at) {
            return Some(at);
        }
        at += 1;
    }
    if occurs_at(s, pat, at) {
        return Some(at);
    }
    assert(first_match_from(s@, pat@, at + 1) is None);
    None
}

} // verus!
