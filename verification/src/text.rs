//! Text primitives: whitespace, segments, case folding, decimal numerals.
//!
//! Every function works on Unicode scalar values, never on byte offsets.

use vstd::prelude::*;

verus! {

/// The Unicode `White_Space` property.
pub open spec fn white_space(c: char) -> bool {
    ||| '\u{0009}' <= c <= '\u{000D}'
    ||| c == '\u{0020}'
    ||| c == '\u{0085}'
    ||| c == '\u{00A0}'
    ||| c == '\u{1680}'
    ||| '\u{2000}' <= c <= '\u{200A}'
    ||| c == '\u{2028}'
    ||| c == '\u{2029}'
    ||| c == '\u{202F}'
    ||| c == '\u{205F}'
    ||| c == '\u{3000}'
}

/// Whether `c` has the Unicode `White_Space` property.
pub fn is_white_space(c: char) -> (r: bool)
    ensures
        r == white_space(c),
{
    ('\u{0009}' <= c && c <= '\u{000D}') || c == '\u{0020}' || c == '\u{0085}' || c == '\u{00A0}'
        || c == '\u{1680}' || ('\u{2000}' <= c && c <= '\u{200A}') || c == '\u{2028}' || c
        == '\u{2029}' || c == '\u{202F}' || c == '\u{205F}' || c == '\u{3000}'
}

/// `s` without its leading white space.
pub open spec fn trimmed_start(s: Seq<char>) -> Seq<char>
    decreases s.len(),
{
    if s.len() > 0 && white_space(s.first()) {
        trimmed_start(s.drop_first())
    } else {
        s
    }
}

/// `s` without its trailing white space.
pub open spec fn trimmed_end(s: Seq<char>) -> Seq<char>
    decreases s.len(),
{
    if s.len() > 0 && white_space(s.last()) {
        trimmed_end(s.drop_last())
    } else {
        s
    }
}

/// `s` without its leading and trailing white space.
pub open spec fn trimmed(s: Seq<char>) -> Seq<char> {
    trimmed_end(trimmed_start(s))
}

/// `s` without the trailing occurrences of `c`.
pub open spec fn stripped_end(s: Seq<char>, c: char) -> Seq<char>
    decreases s.len(),
{
    if s.len() > 0 && s.last() == c {
        stripped_end(s.drop_last(), c)
    } else {
        s
    }
}

/// The position of the first `c` in `s` at or after `from`, or the length of `s`.
pub open spec fn next_position(s: Seq<char>, c: char, from: int) -> int
    decreases s.len() - from,
{
    if 0 <= from < s.len() && s[from] != c {
        next_position(s, c, from + 1)
    } else {
        from
    }
}

/// The part of `s` between its first and its second `c`, if `s` has a `c` at all.
pub open spec fn second_segment(s: Seq<char>, c: char) -> Option<Seq<char>> {
    let first = next_position(s, c, 0);
    if first < s.len() {
        Some(s.subrange(first + 1, next_position(s, c, first + 1)))
    } else {
        None
    }
}

/// The code of `c`, with the ASCII capitals moved to the small letters.
pub open spec fn lower_code(c: char) -> u32 {
    if 'A' <= c <= 'Z' {
        (c as u32 + 32) as u32
    } else {
        c as u32
    }
}

/// Whether `a` and `b` differ in the case of ASCII letters at most.
pub open spec fn same_ignoring_ascii_case(a: Seq<char>, b: Seq<char>) -> bool {
    &&& a.len() == b.len()
    &&& forall|i: int| 0 <= i < a.len() ==> lower_code(#[trigger] a[i]) == lower_code(b[i])
}

/// The decimal digit `d`.
pub open spec fn digit(d: nat) -> char {
    ('0' as u32 + d) as char
}

/// The decimal numeral of `n`, without leading zeros.
pub open spec fn decimal(n: nat) -> Seq<char>
    decreases n,
{
    if n < 10 {
        seq![digit(n)]
    } else {
        decimal(n / 10).push(digit(n % 10))
    }
}

/// What an optional text reads.
pub open spec fn text_of(t: Option<String>) -> Option<Seq<char>> {
    match t {
        Some(s) => Some(s@),
        None => None,
    }
}

/// What an optional borrowed text reads.
pub open spec fn str_of(t: Option<&str>) -> Option<Seq<char>> {
    match t {
        Some(s) => Some(s@),
        None => None,
    }
}

/// The scalar values of `s`, in order.
pub fn scalars(s: &str) -> (r: Vec<char>)
    ensures
        r@ == s@,
{
    let mut r: Vec<char> = Vec::new();
    for c in it: s.chars()
        invariant
            it.seq() == s@,
            r@ == s@.take(it.index() as int),
    {
        r.push(c);
    }
    r
}

/// Whether two texts read the same.
pub fn same_text(a: &str, b: &str) -> (r: bool)
    ensures
        r == (a@ == b@),
{
    a.to_owned() == b.to_owned()
}

/// Whether two optional texts read the same.
pub fn same_optional_text(a: &Option<String>, b: &Option<String>) -> (r: bool)
    ensures
        r == (text_of(*a) == text_of(*b)),
{
    match (a, b) {
        (Some(x), Some(y)) => *x == *y,
        (None, None) => true,
        (Some(_), None) => false,
        (None, Some(_)) => false,
    }
}

/// A copy of an optional text.
pub fn copy_optional_text(a: &Option<String>) -> (r: Option<String>)
    ensures
        text_of(r) == text_of(*a),
{
    match a {
        Some(x) => Some(x.clone()),
        None => None,
    }
}

/// An optional text, borrowed.
pub fn borrow_optional_text<'a>(a: &'a Option<String>) -> (r: Option<&'a str>)
    ensures
        str_of(r) == text_of(*a),
{
    match a {
        Some(x) => Some(x.as_str()),
        None => None,
    }
}

/// The first text followed by the second.
pub fn join(a: &str, b: &str) -> (r: String)
    ensures
        r@ == a@ + b@,
{
    let mut r = a.to_owned();
    r.append(b);
    r
}

/// The text without surrounding white space.
pub fn trim(s: &str) -> (r: &str)
    ensures
        r@ == trimmed(s@),
{
    let cs = scalars(s);
    let mut from: usize = 0;
    let mut to: usize = cs.len();
    assert(s@.skip(0) == s@);
    while from < cs.len() && is_white_space(cs[from])
        invariant
            cs@ == s@,
            from <= cs.len(),
            trimmed_start(s@.skip(from as int)) == trimmed_start(s@),
        decreases cs.len() - from,
    {
        assert(s@.skip(from as int).drop_first() == s@.skip(from + 1));
        from = from + 1;
    }
    let ghost rest = s@.skip(from as int);
    assert(trimmed_start(s@) == rest);
    assert(s@.subrange(from as int, to as int) == rest);
    while from < to && is_white_space(cs[to - 1])
        invariant
            cs@ == s@,
            from <= to <= cs.len(),
            rest == s@.skip(from as int),
            trimmed_end(s@.subrange(from as int, to as int)) == trimmed_end(rest),
        decreases to - from,
    {
        assert(s@.subrange(from as int, to as int).drop_last() == s@.subrange(
            from as int,
            to - 1,
        ));
        to = to - 1;
    }
    s.substring_char(from, to)
}

/// The text without its trailing `c`.
pub fn trim_end_of(s: &str, c: char) -> (r: &str)
    ensures
        r@ == stripped_end(s@, c),
{
    let cs = scalars(s);
    let mut to: usize = cs.len();
    assert(s@.take(to as int) == s@);
    while 0 < to && cs[to - 1] == c
        invariant
            cs@ == s@,
            to <= cs.len(),
            stripped_end(s@.take(to as int), c) == stripped_end(s@, c),
        decreases to,
    {
        assert(s@.take(to as int).drop_last() == s@.take(to - 1));
        to = to - 1;
    }
    s.substring_char(0, to)
}

/// The position of the first `c` at or after `from`, or the length.
fn position_from(cs: &Vec<char>, c: char, from: usize) -> (r: usize)
    requires
        from <= cs@.len(),
    ensures
        r == next_position(cs@, c, from as int),
        from <= r <= cs@.len(),
{
    let mut i: usize = from;
    while i < cs.len() && cs[i] != c
        invariant
            from <= i <= cs@.len(),
            next_position(cs@, c, i as int) == next_position(cs@, c, from as int),
        decreases cs@.len() - i,
    {
        i = i + 1;
    }
    i
}

/// The part between the first and the second `c`, if there is a `c` at all.
pub fn segment_after_first(s: &str, c: char) -> (r: Option<&str>)
    ensures
        str_of(r) == second_segment(s@, c),
{
    let cs = scalars(s);
    let first = position_from(&cs, c, 0);
    if first < cs.len() {
        let end = position_from(&cs, c, first + 1);
        Some(s.substring_char(first + 1, end))
    } else {
        None
    }
}

/// The code of `c`, with the ASCII capitals moved to the small letters.
fn lower(c: char) -> (r: u32)
    ensures
        r == lower_code(c),
{
    if 'A' <= c && c <= 'Z' {
        c as u32 + 32
    } else {
        c as u32
    }
}

/// Whether the texts differ in the case of ASCII letters at most.
pub fn eq_ignoring_ascii_case(a: &str, b: &str) -> (r: bool)
    ensures
        r == same_ignoring_ascii_case(a@, b@),
{
    let x = scalars(a);
    let y = scalars(b);
    if x.len() != y.len() {
        return false;
    }
    let mut i: usize = 0;
    while i < x.len()
        invariant
            x@ == a@,
            y@ == b@,
            x@.len() == y@.len(),
            i <= x@.len(),
            forall|j: int| 0 <= j < i ==> lower_code(#[trigger] a@[j]) == lower_code(b@[j]),
        decreases x@.len() - i,
    {
        if lower(x[i]) != lower(y[i]) {
            return false;
        }
        i = i + 1;
    }
    true
}

/// The decimal numeral of `n`.
pub fn decimal_text(n: u64) -> (r: String)
    ensures
        r@ == decimal(n as nat),
    decreases n,
{
    let last = digit_text(n % 10);
    if n < 10 {
        last
    } else {
        let mut r = decimal_text(n / 10);
        r.append(last.as_str());
        assert(r@ == decimal(n as nat));
        r
    }
}

/// The numeral of a number below ten.
fn digit_text(d: u64) -> (r: String)
    requires
        d < 10,
    ensures
        r@ == seq![digit(d as nat)],
{
    let all = "0123456789";
    proof {
        reveal_strlit("0123456789");
    }
    let r = all.substring_ascii(d as usize, d as usize + 1);
    assert(r@ == seq![digit(d as nat)]);
    r.to_owned()
}

proof fn lemma_trimmed_start(s: Seq<char>)
    ensures
        exists|k: int|
            #![trigger s.skip(k)]
            0 <= k <= s.len() && trimmed_start(s) == s.skip(k) && (forall|i: int|
                0 <= i < k ==> white_space(#[trigger] s[i])),
        trimmed_start(s).len() > 0 ==> !white_space(trimmed_start(s).first()),
    decreases s.len(),
{
    if s.len() > 0 && white_space(s.first()) {
        let rest = s.drop_first();
        lemma_trimmed_start(rest);
        let k = choose|k: int|
            #![trigger rest.skip(k)]
            0 <= k <= rest.len() && trimmed_start(rest) == rest.skip(k) && (forall|i: int|
                0 <= i < k ==> white_space(#[trigger] rest[i]));
        assert(rest.skip(k) == s.skip(k + 1));
        assert forall|i: int| 0 <= i < k + 1 implies white_space(#[trigger] s[i]) by {
            if i > 0 {
                assert(s[i] == rest[i - 1]);
            }
        }
    } else {
        assert(s.skip(0) == s);
    }
}

proof fn lemma_trimmed_end(s: Seq<char>)
    ensures
        exists|k: int|
            #![trigger s.take(k)]
            0 <= k <= s.len() && trimmed_end(s) == s.take(k) && (forall|i: int|
                k <= i < s.len() ==> white_space(#[trigger] s[i])),
        trimmed_end(s).len() > 0 ==> !white_space(trimmed_end(s).last()),
    decreases s.len(),
{
    if s.len() > 0 && white_space(s.last()) {
        let rest = s.drop_last();
        lemma_trimmed_end(rest);
        let k = choose|k: int|
            #![trigger rest.take(k)]
            0 <= k <= rest.len() && trimmed_end(rest) == rest.take(k) && (forall|i: int|
                k <= i < rest.len() ==> white_space(#[trigger] rest[i]));
        assert(rest.take(k) == s.take(k));
        assert forall|i: int| k <= i < s.len() implies white_space(#[trigger] s[i]) by {
            if i < rest.len() {
                assert(s[i] == rest[i]);
            }
        }
    } else {
        assert(s.take(s.len() as int) == s);
    }
}

/// Nothing is left of a text after trimming exactly where it is white space
/// throughout.
pub proof fn trimmed_is_empty_iff_blank(s: Seq<char>)
    ensures
        trimmed(s).len() == 0 <==> forall|i: int| 0 <= i < s.len() ==> white_space(#[trigger] s[i]),
{
    lemma_trimmed_start(s);
    let rest = trimmed_start(s);
    lemma_trimmed_end(rest);
    let k = choose|k: int|
        #![trigger s.skip(k)]
        0 <= k <= s.len() && rest == s.skip(k) && (forall|i: int|
            0 <= i < k ==> white_space(#[trigger] s[i]));
    if trimmed(s).len() == 0 {
        assert forall|i: int| 0 <= i < s.len() implies white_space(#[trigger] s[i]) by {
            if i >= k {
                assert(s[i] == rest[i - k]);
            }
        }
    } else {
        assert(rest.first() == s[k]);
    }
}

/// Trimming takes white space from both ends and keeps the text between them as it
/// is: padding around a text that neither begins nor ends in white space is
/// removed, and nothing else.
pub proof fn trimming_removes_exactly_the_padding(
    before: Seq<char>,
    inner: Seq<char>,
    after: Seq<char>,
)
    requires
        forall|i: int| 0 <= i < before.len() ==> white_space(#[trigger] before[i]),
        forall|i: int| 0 <= i < after.len() ==> white_space(#[trigger] after[i]),
        inner.len() > 0 ==> !white_space(inner.first()) && !white_space(inner.last()),
    ensures
        trimmed(before + inner + after) == inner,
{
    let s = before + inner + after;
    if inner.len() == 0 {
        assert forall|i: int| 0 <= i < s.len() implies white_space(#[trigger] s[i]) by {
            if i < before.len() {
                assert(s[i] == before[i]);
            } else {
                assert(s[i] == after[i - before.len()]);
            }
        }
        trimmed_is_empty_iff_blank(s);
        assert(trimmed(s) == inner);
    } else {
        lemma_trimmed_start(s);
        let rest = trimmed_start(s);
        let k = choose|k: int|
            #![trigger s.skip(k)]
            0 <= k <= s.len() && rest == s.skip(k) && (forall|i: int|
                0 <= i < k ==> white_space(#[trigger] s[i]));
        assert(s[before.len() as int] == inner.first());
        assert(k <= before.len());
        if k < before.len() {
            assert(rest.first() == before[k]);
        }
        assert(rest == inner + after);
        lemma_trimmed_end(rest);
        let n = choose|n: int|
            #![trigger rest.take(n)]
            0 <= n <= rest.len() && trimmed_end(rest) == rest.take(n) && (forall|i: int|
                n <= i < rest.len() ==> white_space(#[trigger] rest[i]));
        assert(rest[inner.len() - 1] == inner.last());
        assert(n >= inner.len());
        if n > inner.len() {
            assert(rest.take(n).last() == after[n - inner.len() - 1]);
        }
        assert(rest.take(n) == inner);
    }
}

/// What is left after stripping does not end in the stripped character, and is the
/// text itself up to its trailing run of that character.
pub proof fn stripped_end_is_stripped(s: Seq<char>, c: char)
    ensures
        stripped_end(s, c).len() > 0 ==> stripped_end(s, c).last() != c,
        stripped_end(s, c).len() <= s.len(),
        stripped_end(s, c) == s.take(stripped_end(s, c).len() as int),
        forall|i: int| stripped_end(s, c).len() <= i < s.len() ==> #[trigger] s[i] == c,
    decreases s.len(),
{
    if s.len() > 0 && s.last() == c {
        stripped_end_is_stripped(s.drop_last(), c);
        let n = stripped_end(s, c).len();
        assert(s.drop_last().take(n as int) == s.take(n as int));
        assert forall|i: int| n <= i < s.len() implies #[trigger] s[i] == c by {
            if i < s.len() - 1 {
                assert(s[i] == s.drop_last()[i]);
            }
        }
    } else {
        assert(s.take(s.len() as int) == s);
    }
}

/// A second segment follows a separator: a text that has one holds the separator.
pub proof fn second_segment_follows_a_separator(s: Seq<char>, c: char)
    requires
        second_segment(s, c) is Some,
    ensures
        s.contains(c),
{
    lemma_next_position(s, c, 0);
    assert(s[next_position(s, c, 0)] == c);
}

proof fn lemma_next_position(s: Seq<char>, c: char, from: int)
    requires
        0 <= from <= s.len(),
    ensures
        from <= next_position(s, c, from) <= s.len(),
        next_position(s, c, from) < s.len() ==> s[next_position(s, c, from)] == c,
    decreases s.len() - from,
{
    if from < s.len() && s[from] != c {
        lemma_next_position(s, c, from + 1);
    }
}

proof fn lemma_next_position_is(s: Seq<char>, c: char, from: int, p: int)
    requires
        0 <= from <= p <= s.len(),
        forall|i: int| from <= i < p ==> #[trigger] s[i] != c,
        p < s.len() ==> s[p] == c,
    ensures
        next_position(s, c, from) == p,
    decreases p - from,
{
    if from < p {
        lemma_next_position_is(s, c, from + 1, p);
    }
}

/// The second segment is what stands between the first separator and the second, or the
/// end; a text without a separator has none.
pub proof fn second_segment_stands_between_separators(
    before: Seq<char>,
    segment: Seq<char>,
    rest: Seq<char>,
    c: char,
)
    requires
        !before.contains(c),
        !segment.contains(c),
        rest.len() > 0 ==> rest[0] == c,
    ensures
        second_segment(before + seq![c] + segment + rest, c) == Some(segment),
        second_segment(before, c) is None,
{
    let s = before + seq![c] + segment + rest;
    let n = before.len() as int;
    let m = segment.len() as int;
    assert forall|i: int| 0 <= i < n implies #[trigger] s[i] != c by {
        assert(s[i] == before[i]);
        assert(before.contains(before[i]));
    }
    assert(s[n] == c);
    lemma_next_position_is(s, c, 0, n);
    assert forall|i: int| n + 1 <= i < n + 1 + m implies #[trigger] s[i] != c by {
        assert(s[i] == segment[i - n - 1]);
        assert(segment.contains(segment[i - n - 1]));
    }
    if rest.len() > 0 {
        assert(s[n + 1 + m] == rest[0]);
    }
    lemma_next_position_is(s, c, n + 1, n + 1 + m);
    assert(s.subrange(n + 1, n + 1 + m) == segment);
    assert forall|i: int| 0 <= i < n implies #[trigger] before[i] != c by {
        assert(before.contains(before[i]));
    }
    lemma_next_position_is(before, c, 0, n);
}

/// Stripping takes a trailing run of the character away, and nothing else.
pub proof fn stripping_removes_exactly_the_run(s: Seq<char>, run: Seq<char>, c: char)
    requires
        s.len() > 0 ==> s.last() != c,
        forall|i: int| 0 <= i < run.len() ==> #[trigger] run[i] == c,
    ensures
        stripped_end(s + run, c) == s,
{
    let all = s + run;
    let left = stripped_end(all, c);
    stripped_end_is_stripped(all, c);
    if left.len() < s.len() {
        assert(all[s.len() - 1] == s.last());
    }
    if left.len() > s.len() {
        assert(left.last() == all[left.len() - 1]);
        assert(all[left.len() - 1] == run[left.len() - 1 - s.len()]);
    }
    assert(left == s);
}

/// Whether two characters are the same, or the capital and the small form of one ASCII
/// letter.
pub open spec fn one_letter(x: char, y: char) -> bool {
    ||| x == y
    ||| 'A' <= x <= 'Z' && y as u32 == x as u32 + 32
    ||| 'A' <= y <= 'Z' && x as u32 == y as u32 + 32
}

proof fn lemma_lower_code(x: char, y: char)
    ensures
        lower_code(x) == lower_code(y) <==> one_letter(x, y),
{
}

/// Two texts are the same but for the case of ASCII letters exactly where they are as
/// long as each other, and at each place hold the same character or the capital and the
/// small form of one ASCII letter.
pub proof fn only_the_case_of_ascii_letters_is_ignored(a: Seq<char>, b: Seq<char>)
    ensures
        same_ignoring_ascii_case(a, b) <==> a.len() == b.len() && forall|i: int|
            0 <= i < a.len() ==> one_letter(#[trigger] a[i], b[i]),
{
    assert forall|i: int| 0 <= i < a.len() implies (lower_code(#[trigger] a[i]) == lower_code(b[i])
        <==> one_letter(a[i], b[i])) by {
        lemma_lower_code(a[i], b[i]);
    }
}

/// The capital and the small form of an ASCII letter are one letter, and no two other
/// characters are.
pub proof fn one_letter_has_two_forms(x: char, y: char)
    ensures
        one_letter(x, y) <==> x == y || exists|i: int|
            0 <= i < 26 && {
                ||| x == #[trigger] "ABCDEFGHIJKLMNOPQRSTUVWXYZ"@[i] && y
                    == "abcdefghijklmnopqrstuvwxyz"@[i]
                ||| y == "ABCDEFGHIJKLMNOPQRSTUVWXYZ"@[i] && x == "abcdefghijklmnopqrstuvwxyz"@[i]
            },
{
    reveal_strlit("ABCDEFGHIJKLMNOPQRSTUVWXYZ");
    reveal_strlit("abcdefghijklmnopqrstuvwxyz");
    assert forall|i: int| 0 <= i < 26 implies {
        &&& #[trigger] "ABCDEFGHIJKLMNOPQRSTUVWXYZ"@[i] as u32 == 65 + i
        &&& "abcdefghijklmnopqrstuvwxyz"@[i] as u32 == 97 + i
    } by {}
    if one_letter(x, y) && x != y {
        let i = if 'A' <= x <= 'Z' {
            x as u32 - 65
        } else {
            y as u32 - 65
        };
        assert("ABCDEFGHIJKLMNOPQRSTUVWXYZ"@[i] as u32 == 65 + i);
    }
}

/// A numeral is made of the ten digits by their places: that of a number below ten is its
/// digit, and a further digit stands for ten times what is before it and its own value.
pub proof fn numerals_are_positional(n: nat, d: nat)
    requires
        d < 10,
    ensures
        decimal(d) == seq!["0123456789"@[d as int]],
        n > 0 ==> decimal(10 * n + d) == decimal(n).push("0123456789"@[d as int]),
{
    reveal_strlit("0123456789");
    assert(digit(d) == "0123456789"@[d as int]);
    assert((10 * n + d) / 10 == n && (10 * n + d) % 10 == d);
}

/// An optional text reads as the text that is there.
pub proof fn optional_texts_read_as_they_are(owned: String, borrowed: &str)
    ensures
        text_of(Some(owned)) == Some(owned@),
        text_of(None::<String>) == None::<Seq<char>>,
        str_of(Some(borrowed)) == Some(borrowed@),
        str_of(None::<&str>) == None::<Seq<char>>,
{
}

} // verus!
