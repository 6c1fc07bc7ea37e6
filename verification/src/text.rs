//! Character sequences: the conversions between strings and vectors of
//! characters, and the searches that the rest of the crate is built on.

use vstd::prelude::*;

verus! {

/// Specifies `String::push` of the standard library: the character is added
/// at the end of the string and nothing else changes.
pub assume_specification[ String::push ](s: &mut String, c: char)
    ensures
        final(s)@ == old(s)@.push(c),
;

/// The characters of `s`, in order.
pub fn chars_of(s: &str) -> (v: Vec<char>)
    ensures
        v@ == s@,
{
    let mut v: Vec<char> = Vec::new();
    for c in it: s.chars()
        invariant
            v@ == it.seq().take(it.index()),
    {
        v.push(c);
    }
    v
}

/// The string made of the characters of `v`, in order.
pub fn string_of(v: &[char]) -> (s: String)
    ensures
        s@ == v@,
{
    let mut s = String::new();
    let mut i: usize = 0;
    while i < v.len()
        invariant
            i <= v.len(),
            s@ == v@.take(i as int),
        decreases v.len() - i,
    {
        s.push(v[i]);
        i += 1;
    }
    s
}

/// White space as Unicode defines it (the property `White_Space`).
pub open spec fn is_whitespace(c: char) -> bool {
    let u = c as u32;
    ||| 0x09 <= u <= 0x0D
    ||| u == 0x20
    ||| u == 0x85
    ||| u == 0xA0
    ||| u == 0x1680
    ||| 0x2000 <= u <= 0x200A
    ||| u == 0x2028
    ||| u == 0x2029
    ||| u == 0x202F
    ||| u == 0x205F
    ||| u == 0x3000
}

/// Tells whether `c` is white space.
pub fn whitespace(c: char) -> (b: bool)
    ensures
        b == is_whitespace(c),
{
    let u: u32 = c as u32;
    (0x09 <= u && u <= 0x0D) || u == 0x20 || u == 0x85 || u == 0xA0 || u == 0x1680 || (0x2000 <= u
        && u <= 0x200A) || u == 0x2028 || u == 0x2029 || u == 0x202F || u == 0x205F || u == 0x3000
}

/// The least position in `lo..hi` at which `p` holds, if there is one.
pub open spec fn first_where(lo: int, hi: int, p: spec_fn(int) -> bool) -> Option<int>
    decreases hi - lo,
{
    if lo >= hi {
        None
    } else if p(lo) {
        Some(lo)
    } else {
        first_where(lo + 1, hi, p)
    }
}

/// The greatest position in `lo..hi` at which `p` holds, if there is one.
pub open spec fn last_where(lo: int, hi: int, p: spec_fn(int) -> bool) -> Option<int>
    decreases hi - lo,
{
    if lo >= hi {
        None
    } else if p(hi - 1) {
        Some(hi - 1)
    } else {
        last_where(lo, hi - 1, p)
    }
}

/// `first_where` finds a position exactly where one exists, and the one it
/// finds is the least.
pub proof fn lemma_first_where(lo: int, hi: int, p: spec_fn(int) -> bool)
    ensures
        match first_where(lo, hi, p) {
            Some(i) => lo <= i < hi && p(i) && forall|j: int| lo <= j < i ==> !#[trigger] p(j),
            None => forall|j: int| lo <= j < hi ==> !#[trigger] p(j),
        },
    decreases hi - lo,
{
    if lo < hi && !p(lo) {
        lemma_first_where(lo + 1, hi, p);
    }
}

/// A position at which `p` holds, with none before it, is what `first_where`
/// finds.
pub proof fn lemma_first_where_is(lo: int, hi: int, p: spec_fn(int) -> bool, i: int)
    requires
        lo <= i < hi,
        p(i),
        forall|j: int| lo <= j < i ==> !#[trigger] p(j),
    ensures
        first_where(lo, hi, p) == Some(i),
{
    lemma_first_where(lo, hi, p);
}

/// `last_where` finds a position exactly where one exists, and the one it
/// finds is the greatest.
pub proof fn lemma_last_where(lo: int, hi: int, p: spec_fn(int) -> bool)
    ensures
        match last_where(lo, hi, p) {
            Some(i) => lo <= i < hi && p(i) && forall|j: int| i < j < hi ==> !#[trigger] p(j),
            None => forall|j: int| lo <= j < hi ==> !#[trigger] p(j),
        },
    decreases hi - lo,
{
    if lo < hi && !p(hi - 1) {
        lemma_last_where(lo, hi - 1, p);
    }
}

/// A position at which `p` holds, with none after it, is what `last_where`
/// finds.
pub proof fn lemma_last_where_is(lo: int, hi: int, p: spec_fn(int) -> bool, i: int)
    requires
        lo <= i < hi,
        p(i),
        forall|j: int| i < j < hi ==> !#[trigger] p(j),
    ensures
        last_where(lo, hi, p) == Some(i),
{
    lemma_last_where(lo, hi, p);
}

/// `pat` stands in `s` at position `i`.
pub open spec fn occurs_at(s: Seq<char>, pat: Seq<char>, i: int) -> bool {
    0 <= i && i + pat.len() <= s.len() && s.subrange(i, i + pat.len()) == pat
}

/// `s` begins with `pat`.
pub open spec fn starts_with(s: Seq<char>, pat: Seq<char>) -> bool {
    occurs_at(s, pat, 0)
}

/// `s` ends with `pat`.
pub open spec fn ends_with(s: Seq<char>, pat: Seq<char>) -> bool {
    occurs_at(s, pat, s.len() - pat.len())
}

/// `pat` stands somewhere in `s`.
pub open spec fn contains(s: Seq<char>, pat: Seq<char>) -> bool {
    exists|i: int| occurs_at(s, pat, i)
}

/// The test "`pat` stands in `s` at this position", as a function of the
/// position.
pub open spec fn occurrence(s: Seq<char>, pat: Seq<char>) -> spec_fn(int) -> bool {
    |i: int| occurs_at(s, pat, i)
}

/// The test "white space stands in `s` at this position".
pub open spec fn whitespace_in(s: Seq<char>) -> spec_fn(int) -> bool {
    |i: int| 0 <= i < s.len() && is_whitespace(s[i])
}

/// The first position at or after `from` at which `pat` stands in `s`.
pub open spec fn first_occurrence(s: Seq<char>, pat: Seq<char>, from: int) -> Option<int> {
    first_where(from, s.len() as int + 1, occurrence(s, pat))
}

/// The last position at or after `from` at which `pat` stands in `s`.
pub open spec fn last_occurrence(s: Seq<char>, pat: Seq<char>, from: int) -> Option<int> {
    last_where(from, s.len() as int + 1, occurrence(s, pat))
}

/// The first position at or after `from` at which `s` holds white space.
pub open spec fn first_whitespace(s: Seq<char>, from: int) -> Option<int> {
    first_where(from, s.len() as int, whitespace_in(s))
}

/// A position held in a machine integer, as a mathematical one.
pub open spec fn position(r: Option<usize>) -> Option<int> {
    match r {
        Some(i) => Some(i as int),
        None => None,
    }
}

/// Tells whether `pat` stands in `s` at position `i`.
pub fn matches_at(s: &[char], pat: &[char], i: usize) -> (b: bool)
    ensures
        b == occurs_at(s@, pat@, i as int),
{
    if i > s.len() || pat.len() > s.len() - i {
        return false;
    }
    let mut k: usize = 0;
    while k < pat.len()
        invariant
            k <= pat.len(),
            i + pat.len() <= s.len(),
            forall|j: int| 0 <= j < k ==> s@[i + j] == pat@[j],
        decreases pat.len() - k,
    {
        if s[i + k] != pat[k] {
            assert(s@.subrange(i as int, i + pat.len())[k as int] != pat@[k as int]);
            return false;
        }
        k += 1;
    }
    assert(s@.subrange(i as int, i + pat.len()) =~= pat@);
    true
}

/// Finds the first position at or after `from` at which `pat` stands in `s`.
pub fn find(s: &[char], pat: &[char], from: usize) -> (r: Option<usize>)
    ensures
        position(r) == first_occurrence(s@, pat@, from as int),
{
    if from > s.len() {
        return None;
    }
    let mut i: usize = from;
    loop
        invariant
            from <= i <= s.len(),
            forall|j: int| from <= j < i ==> !occurs_at(s@, pat@, j),
        decreases s.len() - i,
    {
        if matches_at(s, pat, i) {
            proof {
                lemma_first_where_is(from as int, s.len() + 1, occurrence(s@, pat@), i as int);
            }
            return Some(i);
        }
        if i == s.len() {
            proof {
                lemma_first_where(from as int, s.len() + 1, occurrence(s@, pat@));
            }
            return None;
        }
        i += 1;
    }
}

/// Finds the last position at or after `from` at which `pat` stands in `s`.
pub fn rfind(s: &[char], pat: &[char], from: usize) -> (r: Option<usize>)
    ensures
        position(r) == last_occurrence(s@, pat@, from as int),
{
    let mut i: usize = s.len();
    if from > i {
        return None;
    }
    loop
        invariant
            from <= i <= s.len(),
            forall|j: int| i < j <= s.len() ==> !occurs_at(s@, pat@, j),
        decreases i - from,
    {
        if matches_at(s, pat, i) {
            proof {
                lemma_last_where_is(from as int, s.len() + 1, occurrence(s@, pat@), i as int);
            }
            return Some(i);
        }
        if i == from {
            proof {
                lemma_last_where(from as int, s.len() + 1, occurrence(s@, pat@));
            }
            return None;
        }
        i -= 1;
    }
}

/// Finds the first position at or after `from` at which `s` holds white
/// space.
pub fn find_whitespace(s: &[char], from: usize) -> (r: Option<usize>)
    ensures
        position(r) == first_whitespace(s@, from as int),
{
    let mut i: usize = from;
    while i < s.len()
        invariant
            from <= i,
            forall|j: int| from <= j < i ==> !#[trigger] whitespace_in(s@)(j),
        decreases s.len() - i,
    {
        if whitespace(s[i]) {
            proof {
                lemma_first_where_is(from as int, s.len() as int, whitespace_in(s@), i as int);
            }
            return Some(i);
        }
        i += 1;
    }
    proof {
        lemma_first_where(from as int, s.len() as int, whitespace_in(s@));
    }
    None
}

/// Tells whether `pat` stands somewhere in `s`.
pub fn contains_chars(s: &[char], pat: &[char]) -> (b: bool)
    ensures
        b == contains(s@, pat@),
{
    let r = find(s, pat, 0);
    proof {
        lemma_first_where(0, s.len() + 1, occurrence(s@, pat@));
        match r {
            Some(i) => {
                assert(occurs_at(s@, pat@, i as int));
            },
            None => {
                assert forall|i: int| !occurs_at(s@, pat@, i) by {
                    if occurs_at(s@, pat@, i) {
                        assert(occurrence(s@, pat@)(i));
                    }
                }
            },
        }
    }
    r.is_some()
}

/// The characters of `s` from position `from` up to, not including, `to`.
pub(crate) fn slice_of(s: &[char], from: usize, to: usize) -> (v: Vec<char>)
    requires
        from <= to <= s.len(),
    ensures
        v@ == s@.subrange(from as int, to as int),
{
    let mut v: Vec<char> = Vec::new();
    let mut i: usize = from;
    while i < to
        invariant
            from <= i <= to <= s.len(),
            v@ == s@.subrange(from as int, i as int),
        decreases to - i,
    {
        v.push(s[i]);
        i += 1;
    }
    v
}

/// Adds the characters of `v` at the end of `out`.
pub fn append_chars(out: &mut Vec<char>, v: &[char])
    ensures
        final(out)@ == old(out)@ + v@,
{
    let mut i: usize = 0;
    while i < v.len()
        invariant
            i <= v.len(),
            out@ == old(out)@ + v@.take(i as int),
        decreases v.len() - i,
    {
        out.push(v[i]);
        i += 1;
    }
}

/// The test "a character other than white space stands in `s` at this
/// position".
pub open spec fn visible_in(s: Seq<char>) -> spec_fn(int) -> bool {
    |i: int| 0 <= i < s.len() && !is_whitespace(s[i])
}

/// `s` without the white space at its two ends: the part from its first
/// character that is no white space to its last one, empty where it has none.
pub open spec fn trim(s: Seq<char>) -> Seq<char> {
    match (
        first_where(0, s.len() as int, visible_in(s)),
        last_where(0, s.len() as int, visible_in(s)),
    ) {
        (Some(a), Some(b)) => s.subrange(a, b + 1),
        _ => Seq::empty(),
    }
}

/// Cuts the white space off both ends of `s`.
pub fn trimmed(s: &[char]) -> (v: Vec<char>)
    ensures
        v@ == trim(s@),
{
    let mut a: usize = 0;
    while a < s.len() && whitespace(s[a])
        invariant
            a <= s.len(),
            forall|j: int| 0 <= j < a ==> !#[trigger] visible_in(s@)(j),
        decreases s.len() - a,
    {
        a += 1;
    }
    if a == s.len() {
        proof {
            lemma_first_where(0, s.len() as int, visible_in(s@));
        }
        return Vec::new();
    }
    let mut b: usize = s.len() - 1;
    while whitespace(s[b])
        invariant
            a <= b < s.len(),
            visible_in(s@)(a as int),
            forall|j: int| b < j < s.len() ==> !#[trigger] visible_in(s@)(j),
        decreases b,
    {
        b -= 1;
    }
    proof {
        lemma_first_where_is(0, s.len() as int, visible_in(s@), a as int);
        lemma_last_where_is(0, s.len() as int, visible_in(s@), b as int);
    }
    slice_of(s, a, b + 1)
}

/// `s` with every occurrence of `from` replaced by `to`. The occurrences are
/// taken from the left and do not overlap. With an empty `from` nothing is
/// replaced.
pub open spec fn replace_all(s: Seq<char>, from: Seq<char>, to: Seq<char>) -> Seq<char>
    decreases s.len(),
{
    if from.len() == 0 || s.len() == 0 {
        s
    } else if starts_with(s, from) {
        to + replace_all(s.skip(from.len() as int), from, to)
    } else {
        seq![s[0]] + replace_all(s.skip(1), from, to)
    }
}

/// Replaces every occurrence of `from` in `s` by `to`.
pub fn replace(s: &[char], from: &[char], to: &[char]) -> (v: Vec<char>)
    ensures
        v@ == replace_all(s@, from@, to@),
{
    if from.len() == 0 {
        return slice_of(s, 0, s.len());
    }
    let mut v: Vec<char> = Vec::new();
    let mut i: usize = 0;
    assert(s@.skip(0) =~= s@);
    assert(v@ + replace_all(s@, from@, to@) =~= replace_all(s@, from@, to@));
    while i < s.len()
        invariant
            i <= s.len(),
            from.len() > 0,
            v@ + replace_all(s@.skip(i as int), from@, to@) == replace_all(s@, from@, to@),
        decreases s.len() - i,
    {
        let ghost rest = s@.skip(i as int);
        if matches_at(s, from, i) {
            proof {
                assert(rest.subrange(0, from.len() as int) =~= s@.subrange(
                    i as int,
                    i + from.len(),
                ));
                assert(rest.skip(from.len() as int) =~= s@.skip(i + from.len()));
                assert(v@ + to@ + replace_all(s@.skip(i + from.len()), from@, to@) =~= v@ + (to@
                    + replace_all(s@.skip(i + from.len()), from@, to@)));
            }
            append_chars(&mut v, to);
            i += from.len();
        } else {
            proof {
                if i + from.len() <= s.len() {
                    assert(rest.subrange(0, from.len() as int) =~= s@.subrange(
                        i as int,
                        i + from.len(),
                    ));
                }
                assert(rest.skip(1) =~= s@.skip(i + 1));
                assert(v@.push(s@[i as int]) + replace_all(s@.skip(i + 1), from@, to@) =~= v@ + (
                seq![rest[0]] + replace_all(s@.skip(i + 1), from@, to@)));
            }
            v.push(s[i]);
            i += 1;
        }
    }
    assert(v@ + Seq::<char>::empty() =~= v@);
    v
}

/// The test "a line feed stands in `s` at this position".
pub open spec fn line_feed_in(s: Seq<char>) -> spec_fn(int) -> bool {
    |i: int| 0 <= i < s.len() && s[i] == '\n'
}

/// The lines of `s`: the parts between its line feeds, a last part without a
/// line feed included unless it is empty. The lines hold no line feed.
pub open spec fn lines(s: Seq<char>) -> Seq<Seq<char>>
    decreases s.len(),
{
    if s.len() == 0 {
        Seq::empty()
    } else {
        match first_where(0, s.len() as int, line_feed_in(s)) {
            Some(i) => {
                proof {
                    lemma_first_where(0, s.len() as int, line_feed_in(s));
                }
                seq![s.take(i)] + lines(s.skip(i + 1))
            },
            None => seq![s],
        }
    }
}

/// No line holds a line feed.
pub proof fn lemma_lines_hold_no_line_feed(s: Seq<char>, i: int, j: int)
    requires
        0 <= i < lines(s).len(),
        0 <= j < lines(s)[i].len(),
    ensures
        lines(s)[i][j] != '\n',
    decreases s.len(),
{
    lemma_first_where(0, s.len() as int, line_feed_in(s));
    match first_where(0, s.len() as int, line_feed_in(s)) {
        Some(end) => {
            if i == 0 {
                assert(!line_feed_in(s)(j));
            } else {
                lemma_lines_hold_no_line_feed(s.skip(end + 1), i - 1, j);
            }
        },
        None => {
            assert(!line_feed_in(s)(j));
        },
    }
}

/// The contents of a vector of lines.
pub open spec fn lines_view(v: Seq<Vec<char>>) -> Seq<Seq<char>> {
    v.map_values(|l: Vec<char>| l@)
}

/// Splits `s` into its lines.
pub fn split_lines(s: &[char]) -> (v: Vec<Vec<char>>)
    ensures
        lines_view(v@) == lines(s@),
{
    let mut v: Vec<Vec<char>> = Vec::new();
    let mut start: usize = 0;
    assert(s@.skip(0) =~= s@);
    assert(lines_view(v@) + lines(s@) =~= lines(s@));
    while start < s.len()
        invariant
            start <= s.len(),
            lines_view(v@) + lines(s@.skip(start as int)) == lines(s@),
        decreases s.len() - start,
    {
        let ghost rest = s@.skip(start as int);
        let mut end: usize = start;
        while end < s.len() && s[end] != '\n'
            invariant
                start <= end <= s.len(),
                rest == s@.skip(start as int),
                forall|j: int| 0 <= j < end - start ==> !#[trigger] line_feed_in(rest)(j),
            decreases s.len() - end,
        {
            end += 1;
        }
        let line = slice_of(s, start, end);
        proof {
            assert(line@ =~= rest.take(end - start));
            if end < s.len() {
                lemma_first_where_is(0, rest.len() as int, line_feed_in(rest), end - start);
                assert(rest.skip(end - start + 1) =~= s@.skip(end + 1));
            } else {
                lemma_first_where(0, rest.len() as int, line_feed_in(rest));
                assert(line@ =~= rest);
                assert(lines(s@.skip(s.len() as int)) =~= Seq::<Seq<char>>::empty());
            }
            assert(lines_view(v@.push(line)) =~= lines_view(v@) + seq![line@]);
            assert(lines_view(v@) + seq![line@] + lines(s@.skip(if end < s.len() {
                end + 1
            } else {
                s.len() as int
            })) =~= lines_view(v@) + lines(rest));
        }
        v.push(line);
        start = if end < s.len() {
            end + 1
        } else {
            end
        };
    }
    assert(lines_view(v@) + Seq::<Seq<char>>::empty() =~= lines_view(v@));
    v
}

/// A decimal digit.
pub open spec fn is_digit(c: char) -> bool {
    '0' <= c <= '9'
}

/// The digit that stands for `d`, for `d` below ten.
pub open spec fn digit_char(d: nat) -> char {
    (48 + d) as u8 as char
}

/// The number that the digit `c` stands for.
pub open spec fn digit_value(c: char) -> nat {
    (c as u32 - 48) as nat
}

/// `n` written in decimal, without leading zeros.
pub open spec fn decimal(n: nat) -> Seq<char>
    decreases n,
{
    if n < 10 {
        seq![digit_char(n)]
    } else {
        decimal(n / 10).push(digit_char(n % 10))
    }
}

/// `s` is a number in decimal: one digit or more, and nothing else.
pub open spec fn is_number(s: Seq<char>) -> bool {
    s.len() > 0 && forall|i: int| 0 <= i < s.len() ==> is_digit(#[trigger] s[i])
}

/// The number that the digits of `s` stand for, read in decimal.
pub open spec fn decimal_value(s: Seq<char>) -> nat
    decreases s.len(),
{
    if s.len() == 0 {
        0
    } else {
        decimal_value(s.drop_last()) * 10 + digit_value(s.last())
    }
}

/// A number written in decimal reads back as itself.
pub proof fn lemma_decimal_reads_back(n: nat)
    ensures
        is_number(decimal(n)),
        decimal_value(decimal(n)) == n,
    decreases n,
{
    if n < 10 {
        assert(decimal(n).drop_last() =~= Seq::<char>::empty());
        reveal_with_fuel(decimal_value, 2);
    } else {
        lemma_decimal_reads_back(n / 10);
        assert(decimal(n).drop_last() =~= decimal(n / 10));
    }
}

/// Adds `n`, written in decimal, at the end of `out`.
pub fn push_decimal(out: &mut Vec<char>, n: usize)
    ensures
        final(out)@ == old(out)@ + decimal(n as nat),
    decreases n,
{
    if n >= 10 {
        push_decimal(out, n / 10);
    }
    let d: u8 = (n % 10) as u8;
    out.push((48 + d) as char);
    assert(out@ =~= old(out)@ + decimal(n as nat));
}

/// Reads `s` as a number in decimal. Gives nothing where `s` is no number,
/// or one too large for the machine.
pub fn parse_decimal(s: &[char]) -> (r: Option<usize>)
    ensures
        match r {
            Some(n) => is_number(s@) && decimal_value(s@) == n,
            None => !is_number(s@) || decimal_value(s@) > usize::MAX,
        },
{
    if s.len() == 0 {
        return None;
    }
    let mut n: usize = 0;
    let mut i: usize = 0;
    while i < s.len()
        invariant
            i <= s.len(),
            is_number(s@.take(i as int)) || i == 0,
            decimal_value(s@.take(i as int)) == n,
        decreases s.len() - i,
    {
        let c = s[i];
        if !('0' <= c && c <= '9') {
            return None;
        }
        let d: usize = (c as u32 - 48) as usize;
        proof {
            assert(s@.take(i + 1).drop_last() =~= s@.take(i as int));
            lemma_decimal_value_grows(s@, i + 1);
        }
        let tens = match n.checked_mul(10) {
            Some(tens) => tens,
            None => {
                return None;
            },
        };
        n = match tens.checked_add(d) {
            Some(sum) => sum,
            None => {
                return None;
            },
        };
        i += 1;
    }
    assert(s@.take(s.len() as int) =~= s@);
    Some(n)
}

/// Of a number in decimal, the first digits stand for no more than all of
/// them do.
pub proof fn lemma_decimal_value_grows(s: Seq<char>, k: int)
    requires
        0 <= k <= s.len(),
    ensures
        decimal_value(s.take(k)) <= decimal_value(s),
    decreases s.len() - k,
{
    if k < s.len() {
        lemma_decimal_value_grows(s, k + 1);
        assert(s.take(k + 1).drop_last() =~= s.take(k));
    } else {
        assert(s.take(k) =~= s);
    }
}

/// The words of `s`: the parts that hold no white space and that white
/// space, or an end of `s`, stands on both sides of.
pub open spec fn words(s: Seq<char>) -> Seq<Seq<char>>
    decreases s.len(),
{
    match first_where(0, s.len() as int, visible_in(s)) {
        Some(a) => {
            let b = match first_whitespace(s, a) {
                Some(b) => b,
                None => s.len() as int,
            };
            proof {
                lemma_first_where(0, s.len() as int, visible_in(s));
                lemma_first_where(a, s.len() as int, whitespace_in(s));
            }
            seq![s.subrange(a, b)] + words(s.skip(b))
        },
        None => Seq::empty(),
    }
}

/// Splits `s` into its words.
pub fn split_words(s: &[char]) -> (v: Vec<Vec<char>>)
    ensures
        lines_view(v@) == words(s@),
{
    let mut v: Vec<Vec<char>> = Vec::new();
    let mut pos: usize = 0;
    assert(s@.skip(0) =~= s@);
    assert(lines_view(v@) + words(s@) =~= words(s@));
    loop
        invariant
            pos <= s.len(),
            lines_view(v@) + words(s@.skip(pos as int)) == words(s@),
        ensures
            lines_view(v@) == words(s@),
        decreases s.len() - pos,
    {
        let ghost rest = s@.skip(pos as int);
        let mut a: usize = pos;
        while a < s.len() && whitespace(s[a])
            invariant
                pos <= a <= s.len(),
                rest == s@.skip(pos as int),
                forall|j: int| 0 <= j < a - pos ==> !#[trigger] visible_in(rest)(j),
            decreases s.len() - a,
        {
            a += 1;
        }
        if a == s.len() {
            proof {
                lemma_first_where(0, rest.len() as int, visible_in(rest));
                assert(lines_view(v@) + Seq::<Seq<char>>::empty() =~= lines_view(v@));
            }
            break ;
        }
        let b = match find_whitespace(s, a) {
            Some(b) => b,
            None => s.len(),
        };
        proof {
            lemma_first_where_is(0, rest.len() as int, visible_in(rest), a - pos);
            lemma_first_where(a as int, s.len() as int, whitespace_in(s@));
            assert forall|j: int| a - pos <= j < b - pos implies !#[trigger] whitespace_in(rest)(
                j,
            ) by {
                assert(!whitespace_in(s@)(j + pos));
            }
            if b < s.len() {
                lemma_first_where_is(
                    a - pos,
                    rest.len() as int,
                    whitespace_in(rest),
                    b - pos,
                );
            } else {
                lemma_first_where(a - pos, rest.len() as int, whitespace_in(rest));
            }
            assert(rest.subrange(a - pos, b - pos) =~= s@.subrange(a as int, b as int));
            assert(rest.skip(b - pos) =~= s@.skip(b as int));
        }
        let word = slice_of(s, a, b);
        proof {
            assert(lines_view(v@.push(word)) =~= lines_view(v@) + seq![word@]);
            assert(lines_view(v@) + seq![word@] + words(s@.skip(b as int)) =~= lines_view(v@) + (
            seq![word@] + words(s@.skip(b as int))));
        }
        v.push(word);
        pos = b;
    }
    v
}

} // verus!
