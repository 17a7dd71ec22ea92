//! Text as sequences of `char`: classes of characters, spans, fields, lines,
//! trimming and decimal numbers.
//!
//! The contracts speak of `Seq<char>`, the view of `str` and `String`.
//! The executable functions work on `Vec<char>`, where a character is reached
//! by its index in constant time.
use vstd::prelude::*;

verus! {

/// `String::push` appends one character at the end of the string.
pub assume_specification[ String::push ](s: &mut String, c: char)
    ensures
        final(s)@ == old(s)@.push(c),
;

/// The characters with the Unicode property `White_Space`.
pub open spec fn is_whitespace(c: char) -> bool {
    let n = c as u32;
    ||| 0x09 <= n <= 0x0D
    ||| n == 0x20
    ||| n == 0x85
    ||| n == 0xA0
    ||| n == 0x1680
    ||| 0x2000 <= n <= 0x200A
    ||| n == 0x2028
    ||| n == 0x2029
    ||| n == 0x202F
    ||| n == 0x205F
    ||| n == 0x3000
}

/// A set of characters that separates or pads text.
#[derive(Clone, Copy, Debug)]
pub enum CharClass {
    /// The characters with the Unicode property `White_Space`.
    Whitespace,
    /// Carriage return and line feed.
    LineEnding,
    /// One character.
    Only(char),
}

impl CharClass {
    /// Whether `c` belongs to the class.
    pub open spec fn has(self, c: char) -> bool {
        match self {
            CharClass::Whitespace => is_whitespace(c),
            CharClass::LineEnding => c == '\r' || c == '\n',
            CharClass::Only(x) => c == x,
        }
    }

    /// Whether `c` belongs to the class.
    pub fn contains(self, c: char) -> (b: bool)
        ensures
            b == self.has(c),
    {
        match self {
            CharClass::Whitespace => {
                let n: u32 = c as u32;
                (0x09 <= n && n <= 0x0D) || n == 0x20 || n == 0x85 || n == 0xA0 || n == 0x1680 || (
                0x2000 <= n && n <= 0x200A) || n == 0x2028 || n == 0x2029 || n == 0x202F || n
                    == 0x205F || n == 0x3000
            },
            CharClass::LineEnding => c == '\r' || c == '\n',
            CharClass::Only(x) => c == x,
        }
    }
}

/// The length of the longest prefix of `s` that holds no character of `class`.
pub open spec fn span_outside(s: Seq<char>, class: CharClass) -> nat
    decreases s.len(),
{
    if s.len() == 0 || class.has(s[0]) {
        0
    } else {
        1 + span_outside(s.drop_first(), class)
    }
}

/// The length of the longest prefix of `s` made of characters of `class` only.
pub open spec fn span_inside(s: Seq<char>, class: CharClass) -> nat
    decreases s.len(),
{
    if s.len() == 0 || !class.has(s[0]) {
        0
    } else {
        1 + span_inside(s.drop_first(), class)
    }
}

/// The length of the longest suffix of `s` made of characters of `class` only.
pub open spec fn trailing_inside(s: Seq<char>, class: CharClass) -> nat
    decreases s.len(),
{
    if s.len() == 0 || !class.has(s.last()) {
        0
    } else {
        1 + trailing_inside(s.drop_last(), class)
    }
}

/// `span_outside` is the one index at which the first character of the class
/// stands, or the length of `s` if there is none.
pub proof fn lemma_span_outside(s: Seq<char>, class: CharClass)
    ensures
        span_outside(s, class) <= s.len(),
        forall|i: int| 0 <= i < span_outside(s, class) ==> !class.has(#[trigger] s[i]),
        span_outside(s, class) < s.len() ==> class.has(s[span_outside(s, class) as int]),
    decreases s.len(),
{
    if s.len() == 0 || class.has(s[0]) {
    } else {
        let t = s.drop_first();
        lemma_span_outside(t, class);
        assert forall|i: int| 0 <= i < span_outside(s, class) implies !class.has(
            #[trigger] s[i],
        ) by {
            if i > 0 {
                assert(s[i] == t[i - 1]);
            }
        }
        if span_outside(s, class) < s.len() {
            assert(s[span_outside(s, class) as int] == t[span_outside(t, class) as int]);
        }
    }
}

/// `span_inside` is the one index at which the first character outside the
/// class stands, or the length of `s` if there is none.
pub proof fn lemma_span_inside(s: Seq<char>, class: CharClass)
    ensures
        span_inside(s, class) <= s.len(),
        forall|i: int| 0 <= i < span_inside(s, class) ==> class.has(#[trigger] s[i]),
        span_inside(s, class) < s.len() ==> !class.has(s[span_inside(s, class) as int]),
    decreases s.len(),
{
    if s.len() == 0 || !class.has(s[0]) {
    } else {
        let t = s.drop_first();
        lemma_span_inside(t, class);
        assert forall|i: int| 0 <= i < span_inside(s, class) implies class.has(
            #[trigger] s[i],
        ) by {
            if i > 0 {
                assert(s[i] == t[i - 1]);
            }
        }
        if span_inside(s, class) < s.len() {
            assert(s[span_inside(s, class) as int] == t[span_inside(t, class) as int]);
        }
    }
}

/// `trailing_inside` counts the characters of the class at the end of `s`: all
/// of the last `trailing_inside` characters are in the class, and the one
/// before them, if there is one, is not.
pub proof fn lemma_trailing_inside(s: Seq<char>, class: CharClass)
    ensures
        trailing_inside(s, class) <= s.len(),
        forall|i: int|
            s.len() - trailing_inside(s, class) <= i < s.len() ==> class.has(#[trigger] s[i]),
        trailing_inside(s, class) < s.len() ==> !class.has(
            s[s.len() - trailing_inside(s, class) - 1],
        ),
    decreases s.len(),
{
    if s.len() == 0 || !class.has(s.last()) {
    } else {
        let t = s.drop_last();
        lemma_trailing_inside(t, class);
        assert forall|i: int| s.len() - trailing_inside(s, class) <= i < s.len() implies class.has(
            #[trigger] s[i],
        ) by {
            if i < s.len() - 1 {
                assert(s[i] == t[i]);
            }
        }
        if trailing_inside(s, class) < s.len() {
            assert(s[s.len() - trailing_inside(s, class) - 1] == t[t.len() - trailing_inside(
                t,
                class,
            ) - 1]);
        }
    }
}

/// The characters of a string, in order.
pub fn to_chars(s: &str) -> (v: Vec<char>)
    ensures
        v@ == s@,
{
    let mut v: Vec<char> = Vec::new();
    for c in it: s.chars()
        invariant
            v@ == it.seq().take(it.index() as int),
            it.seq() == s@,
    {
        v.push(c);
    }
    v
}

/// The string made of the characters of `v` from `start` up to `end`.
pub fn to_string(v: &Vec<char>, start: usize, end: usize) -> (s: String)
    requires
        start <= end <= v.len(),
    ensures
        s@ == v@.subrange(start as int, end as int),
{
    let mut s = String::new();
    let mut i: usize = start;
    while i < end
        invariant
            start <= i <= end <= v.len(),
            s@ == v@.subrange(start as int, i as int),
        decreases end - i,
    {
        s.push(v[i]);
        i += 1;
    }
    s
}

/// The index, from `start` on, of the first character of `class`, or the
/// length of `v` if none follows.
pub fn scan_outside(v: &Vec<char>, start: usize, class: CharClass) -> (end: usize)
    requires
        start <= v.len(),
    ensures
        start <= end <= v.len(),
        end == start + span_outside(v@.skip(start as int), class),
{
    let mut j: usize = start;
    while j < v.len() && !class.contains(v[j])
        invariant
            start <= j <= v.len(),
            span_outside(v@.skip(start as int), class) == (j - start) + span_outside(
                v@.skip(j as int),
                class,
            ),
        decreases v.len() - j,
    {
        assert(v@.skip(j as int).drop_first() == v@.skip(j + 1));
        j += 1;
    }
    j
}

/// The index, from `start` on, of the first character outside `class`, or the
/// length of `v` if none follows.
pub fn scan_inside(v: &Vec<char>, start: usize, class: CharClass) -> (end: usize)
    requires
        start <= v.len(),
    ensures
        start <= end <= v.len(),
        end == start + span_inside(v@.skip(start as int), class),
{
    let mut j: usize = start;
    while j < v.len() && class.contains(v[j])
        invariant
            start <= j <= v.len(),
            span_inside(v@.skip(start as int), class) == (j - start) + span_inside(
                v@.skip(j as int),
                class,
            ),
        decreases v.len() - j,
    {
        assert(v@.skip(j as int).drop_first() == v@.skip(j + 1));
        j += 1;
    }
    j
}

/// The index at which the characters of `class` begin that end the part of
/// `v` from `floor` up to `end`.
pub fn scan_back_inside(v: &Vec<char>, floor: usize, end: usize, class: CharClass) -> (start:
    usize)
    requires
        floor <= end <= v.len(),
    ensures
        floor <= start <= end,
        start == end - trailing_inside(v@.subrange(floor as int, end as int), class),
{
    let mut j: usize = end;
    while j > floor && class.contains(v[j - 1])
        invariant
            floor <= j <= end <= v.len(),
            trailing_inside(v@.subrange(floor as int, end as int), class) == (end - j)
                + trailing_inside(v@.subrange(floor as int, j as int), class),
        decreases j,
    {
        assert(v@.subrange(floor as int, j as int).drop_last() == v@.subrange(
            floor as int,
            j - 1,
        ));
        j -= 1;
    }
    j
}

/// The views of a sequence of strings.
pub open spec fn views(v: Seq<String>) -> Seq<Seq<char>> {
    Seq::new(v.len(), |i: int| v[i]@)
}

/// The non-empty maximal runs of characters outside `class`, in the order in
/// which they stand in `s`.
pub open spec fn fields(s: Seq<char>, class: CharClass) -> Seq<Seq<char>>
    decreases s.len(),
{
    if s.len() == 0 {
        Seq::empty()
    } else if class.has(s[0]) {
        fields(s.drop_first(), class)
    } else {
        let n = span_outside(s, class);
        proof {
            lemma_span_outside(s, class);
        }
        seq![s.take(n as int)] + fields(s.skip(n as int), class)
    }
}

/// Every field is non-empty and holds no character of the class.
pub proof fn lemma_fields_hold_no_separator(s: Seq<char>, class: CharClass)
    ensures
        forall|k: int, i: int|
            0 <= k < fields(s, class).len() && 0 <= i < fields(s, class)[k].len()
                ==> !class.has(#[trigger] fields(s, class)[k][i]),
        forall|k: int| 0 <= k < fields(s, class).len() ==> (#[trigger] fields(s, class)[k]).len() > 0,
    decreases s.len(),
{
    if s.len() == 0 {
        assert(fields(s, class).len() == 0);
    } else if class.has(s[0]) {
        lemma_fields_hold_no_separator(s.drop_first(), class);
        assert(fields(s, class) == fields(s.drop_first(), class));
    } else {
        let n = span_outside(s, class);
        lemma_span_outside(s, class);
        lemma_fields_hold_no_separator(s.skip(n as int), class);
        let first = s.take(n as int);
        let rest = fields(s.skip(n as int), class);
        let all = fields(s, class);
        assert(all == seq![first] + rest);
        assert(all[0] == first);
        assert forall|k: int| 0 < k < all.len() implies #[trigger] all[k] == rest[k - 1] by {}
        assert forall|k: int, i: int| 0 <= k < all.len() && 0 <= i < all[k].len() implies !class.has(
            #[trigger] all[k][i],
        ) by {
            if k == 0 {
                assert(first[i] == s[i]);
            } else {
                assert(all[k][i] == rest[k - 1][i]);
            }
        }
        assert forall|k: int| 0 <= k < all.len() implies (#[trigger] all[k]).len() > 0 by {
            if k > 0 {
                assert(rest[k - 1].len() > 0);
            }
        }
    }
}

/// The fields of `v`: what `str::split_whitespace` yields for
/// `CharClass::Whitespace`, and the non-empty pieces between separators
/// for the other classes.
pub fn split_fields(v: &Vec<char>, class: CharClass) -> (out: Vec<String>)
    ensures
        views(out@) == fields(v@, class),
{
    let mut out: Vec<String> = Vec::new();
    let mut i: usize = 0;
    assert(v@.skip(0) == v@);
    while i < v.len()
        invariant
            i <= v.len(),
            fields(v@, class) == views(out@) + fields(v@.skip(i as int), class),
        decreases v.len() - i,
    {
        let ghost rest = v@.skip(i as int);
        if class.contains(v[i]) {
            assert(rest.drop_first() == v@.skip(i + 1));
            i += 1;
        } else {
            let j = scan_outside(v, i, class);
            let word = to_string(v, i, j);
            proof {
                let n = span_outside(rest, class);
                assert(rest.take(n as int) == v@.subrange(i as int, j as int));
                assert(rest.skip(n as int) == v@.skip(j as int));
                assert(views(out@.push(word)) == views(out@) + seq![word@]);
            }
            out.push(word);
            i = j;
        }
    }
    out
}

/// `s` without one carriage return at its end.
pub open spec fn strip_carriage_return(s: Seq<char>) -> Seq<char> {
    if s.len() > 0 && s.last() == '\r' {
        s.drop_last()
    } else {
        s
    }
}

/// The lines of `s`, as `str::lines` yields them: each line ends with a line
/// feed, which is taken off together with a carriage return before it; what
/// follows the last line feed is a line as it stands, unless it is empty.
pub open spec fn lines(s: Seq<char>) -> Seq<Seq<char>>
    decreases s.len(),
{
    if s.len() == 0 {
        Seq::empty()
    } else {
        let n = span_outside(s, CharClass::Only('\n'));
        if n >= s.len() {
            seq![s]
        } else {
            seq![strip_carriage_return(s.take(n as int))] + lines(s.skip(n + 1 as int))
        }
    }
}

/// The lines of `v`.
pub fn split_lines(v: &Vec<char>) -> (out: Vec<String>)
    ensures
        views(out@) == lines(v@),
{
    let mut out: Vec<String> = Vec::new();
    let mut i: usize = 0;
    assert(v@.skip(0) == v@);
    while i < v.len()
        invariant
            i <= v.len(),
            lines(v@) == views(out@) + lines(v@.skip(i as int)),
        decreases v.len() - i,
    {
        let ghost rest = v@.skip(i as int);
        let j = scan_outside(v, i, CharClass::Only('\n'));
        if j == v.len() {
            let line = to_string(v, i, j);
            proof {
                assert(rest == v@.subrange(i as int, j as int));
                assert(views(out@.push(line)) == views(out@) + seq![line@]);
                assert(lines(v@.skip(j as int)) == Seq::<Seq<char>>::empty());
            }
            out.push(line);
            i = j;
        } else {
            let end: usize = if j > i && v[j - 1] == '\r' {
                j - 1
            } else {
                j
            };
            let line = to_string(v, i, end);
            proof {
                let n = span_outside(rest, CharClass::Only('\n'));
                assert(rest.take(n as int) == v@.subrange(i as int, j as int));
                assert(strip_carriage_return(v@.subrange(i as int, j as int)) == v@.subrange(
                    i as int,
                    end as int,
                ));
                assert(rest.skip(n + 1 as int) == v@.skip(j + 1));
                assert(views(out@.push(line)) == views(out@) + seq![line@]);
            }
            out.push(line);
            i = j + 1;
        }
    }
    out
}

/// `s` without the characters of `class` at its start.
pub open spec fn trim_start(s: Seq<char>, class: CharClass) -> Seq<char> {
    s.skip(span_inside(s, class) as int)
}

/// `s` without the characters of `class` at its end.
pub open spec fn trim_end(s: Seq<char>, class: CharClass) -> Seq<char> {
    s.take(s.len() - trailing_inside(s, class))
}

/// `s` without the white space at its start and at its end, as `str::trim`
/// gives it.
pub open spec fn trim(s: Seq<char>) -> Seq<char> {
    trim_end(trim_start(s, CharClass::Whitespace), CharClass::Whitespace)
}

/// `trim` takes off white space and nothing else, and all of it: `s` is
/// white space, then `trim(s)`, then white space, and `trim(s)` neither
/// begins nor ends with white space.
pub proof fn lemma_trim_strips_white_space(s: Seq<char>)
    ensures
        ({
            let lead = span_inside(s, CharClass::Whitespace) as int;
            let kept = trim(s);
            &&& lead + kept.len() <= s.len()
            &&& s.subrange(lead, lead + kept.len()) == kept
            &&& forall|i: int| 0 <= i < lead ==> is_whitespace(#[trigger] s[i])
            &&& forall|i: int| lead + kept.len() <= i < s.len() ==> is_whitespace(#[trigger] s[i])
            &&& kept.len() > 0 ==> !is_whitespace(kept[0]) && !is_whitespace(kept[kept.len() - 1])
        }),
{
    let lead = span_inside(s, CharClass::Whitespace) as int;
    let rest = trim_start(s, CharClass::Whitespace);
    lemma_span_inside(s, CharClass::Whitespace);
    lemma_trailing_inside(rest, CharClass::Whitespace);
    let kept = trim(s);
    assert(s.subrange(lead, lead + kept.len()) == kept);
    assert forall|i: int| lead + kept.len() <= i < s.len() implies is_whitespace(
        #[trigger] s[i],
    ) by {
        assert(s[i] == rest[i - lead]);
    }
    if kept.len() > 0 {
        assert(kept[0] == s[lead]);
        assert(kept[kept.len() - 1] == rest[kept.len() - 1]);
    }
}

/// The string of the characters of `v` without the white space at both ends.
pub fn trimmed(v: &Vec<char>) -> (out: String)
    ensures
        out@ == trim(v@),
{
    let start = scan_inside(v, 0, CharClass::Whitespace);
    assert(v@.skip(0) == v@);
    assert(v@.skip(start as int) == v@.subrange(start as int, v.len() as int));
    let end = scan_back_inside(v, start, v.len(), CharClass::Whitespace);
    assert(v@.subrange(start as int, v.len() as int).take(end - start) == v@.subrange(
        start as int,
        end as int,
    ));
    to_string(v, start, end)
}

/// `s` with every `from` replaced by `to`.
pub open spec fn replace_char(s: Seq<char>, from: char, to: char) -> Seq<char> {
    Seq::new(
        s.len(),
        |i: int|
            if s[i] == from {
                to
            } else {
                s[i]
            },
    )
}

/// Whether `pat` stands in `s` at index `at`.
pub open spec fn occurs_at(s: Seq<char>, at: int, pat: Seq<char>) -> bool {
    0 <= at && at + pat.len() <= s.len() && s.subrange(at, at + pat.len()) == pat
}

/// Whether `pat` stands somewhere in `s`.
pub open spec fn has_substring(s: Seq<char>, pat: Seq<char>) -> bool {
    exists|at: int| occurs_at(s, at, pat)
}

/// Whether `pat` stands in `v` at index `at`.
pub fn matches_at(v: &Vec<char>, at: usize, pat: &Vec<char>) -> (b: bool)
    ensures
        b == occurs_at(v@, at as int, pat@),
{
    if at > v.len() || pat.len() > v.len() - at {
        return false;
    }
    let mut k: usize = 0;
    while k < pat.len()
        invariant
            k <= pat.len(),
            at + pat.len() <= v.len(),
            v@.subrange(at as int, at + k) == pat@.take(k as int),
        decreases pat.len() - k,
    {
        if v[at + k] != pat[k] {
            assert(v@.subrange(at as int, at + pat.len())[k as int] != pat@[k as int]);
            return false;
        }
        assert(v@.subrange(at as int, at + k + 1) == v@.subrange(at as int, at + k).push(
            v@[at + k],
        ));
        assert(pat@.take(k + 1) == pat@.take(k as int).push(pat@[k as int]));
        k += 1;
    }
    assert(pat@.take(pat.len() as int) == pat@);
    true
}

/// Whether `v` begins with `pat`.
pub fn starts_with(v: &Vec<char>, pat: &Vec<char>) -> (b: bool)
    ensures
        b == pat@.is_prefix_of(v@),
{
    matches_at(v, 0, pat)
}

/// Whether `pat` stands somewhere in `v`.
pub fn contains(v: &Vec<char>, pat: &Vec<char>) -> (b: bool)
    ensures
        b == has_substring(v@, pat@),
{
    if pat.len() > v.len() {
        assert forall|at: int| !occurs_at(v@, at, pat@) by {}
        return false;
    }
    let last: usize = v.len() - pat.len();
    let mut i: usize = 0;
    loop
        invariant
            i <= last,
            last == v.len() - pat.len(),
            forall|at: int| 0 <= at < i ==> !occurs_at(v@, at, pat@),
        decreases last - i,
    {
        if matches_at(v, i, pat) {
            return true;
        }
        if i == last {
            assert forall|at: int| !occurs_at(v@, at, pat@) by {}
            return false;
        }
        i += 1;
    }
}

/// Whether `c` is one of the ten decimal digits.
pub open spec fn is_digit(c: char) -> bool {
    0x30 <= c as u32 <= 0x39
}

/// The number that the decimal digit `c` stands for.
pub open spec fn digit_value(c: char) -> nat {
    (c as u32 - 0x30) as nat
}

/// Whether `s` is made of decimal digits only.
pub open spec fn all_digits(s: Seq<char>) -> bool {
    forall|i: int| 0 <= i < s.len() ==> is_digit(#[trigger] s[i])
}

/// The number that the decimal digits of `s` write.
pub open spec fn decimal_value(s: Seq<char>) -> nat
    decreases s.len(),
{
    if s.len() == 0 {
        0
    } else {
        10 * decimal_value(s.drop_last()) + digit_value(s.last())
    }
}

/// What `str::parse::<u64>` accepts: an optional plus sign, then at least one
/// decimal digit and nothing else, writing a number that fits in 64 bits.
pub open spec fn parse_u64(s: Seq<char>) -> Option<u64> {
    let digits = if s.len() > 0 && s[0] == '+' {
        s.drop_first()
    } else {
        s
    };
    if digits.len() > 0 && all_digits(digits) && decimal_value(digits) <= u64::MAX {
        Some(decimal_value(digits) as u64)
    } else {
        None
    }
}

/// Digits that are added at the end never make the number smaller.
pub proof fn lemma_decimal_value_grows(s: Seq<char>, k: int)
    requires
        0 <= k <= s.len(),
        all_digits(s),
    ensures
        decimal_value(s.take(k)) <= decimal_value(s),
    decreases s.len() - k,
{
    if k == s.len() {
        assert(s.take(k) == s);
    } else {
        lemma_decimal_value_grows(s, k + 1);
        assert(s.take(k + 1).drop_last() == s.take(k));
        assert(is_digit(s[k]));
    }
}

/// The number that `v` writes in decimal, if it writes one that fits.
pub fn parse_decimal(v: &Vec<char>) -> (out: Option<u64>)
    ensures
        out == parse_u64(v@),
{
    let n: usize = v.len();
    let start: usize = if n > 0 && v[0] == '+' {
        1
    } else {
        0
    };
    if start == n {
        return None;
    }
    let ghost digits = if v@.len() > 0 && v@[0] == '+' {
        v@.drop_first()
    } else {
        v@
    };
    assert(digits == v@.subrange(start as int, n as int));
    let mut acc: u64 = 0;
    let mut i: usize = start;
    while i < n
        invariant
            start <= i <= n,
            n == v.len(),
            digits == v@.subrange(start as int, n as int),
            digits == if v@.len() > 0 && v@[0] == '+' {
                v@.drop_first()
            } else {
                v@
            },
            all_digits(digits.take(i - start)),
            acc == decimal_value(digits.take(i - start)),
        decreases n - i,
    {
        let d: u32 = v[i] as u32;
        if d < 0x30 || d > 0x39 {
            assert(!is_digit(digits[i - start]));
            return None;
        }
        let value: u64 = (d - 0x30) as u64;
        let ghost longer = digits.take(i - start + 1);
        assert(longer.drop_last() == digits.take(i - start));
        assert(longer.last() == v@[i as int]);
        if acc > (u64::MAX - value) / 10 {
            proof {
                if all_digits(digits) {
                    lemma_decimal_value_grows(digits, i - start + 1);
                }
            }
            return None;
        }
        acc = acc * 10 + value;
        assert forall|k: int| 0 <= k < longer.len() implies is_digit(#[trigger] longer[k]) by {
            if k < i - start {
                assert(longer[k] == digits.take(i - start)[k]);
            }
        }
        i += 1;
    }
    assert(digits.take(n - start) == digits);
    Some(acc)
}

} // verus!
