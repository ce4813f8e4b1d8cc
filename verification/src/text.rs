//! Matching a query against the trigger: white space, trimming and prefixes
//! over sequences of characters.

use vstd::prelude::*;
use vstd::string::*;

verus! {

/// Whether `c` is white space: the code points that Unicode gives the
/// property `White_Space`.
pub open spec fn is_space(c: char) -> bool {
    let n = c as u32;
    ||| 0x09 <= n <= 0x0d
    ||| n == 0x20
    ||| n == 0x85
    ||| n == 0xa0
    ||| n == 0x1680
    ||| 0x2000 <= n <= 0x200a
    ||| n == 0x2028
    ||| n == 0x2029
    ||| n == 0x202f
    ||| n == 0x205f
    ||| n == 0x3000
}

/// `s` without the white space it begins with.
pub open spec fn trim_start(s: Seq<char>) -> Seq<char>
    decreases s.len(),
{
    if s.len() > 0 && is_space(s[0]) {
        trim_start(s.drop_first())
    } else {
        s
    }
}

/// `s` without the white space it ends with.
pub open spec fn trim_end(s: Seq<char>) -> Seq<char>
    decreases s.len(),
{
    if s.len() > 0 && is_space(s.last()) {
        trim_end(s.drop_last())
    } else {
        s
    }
}

/// `s` without white space at either end.
pub open spec fn trim(s: Seq<char>) -> Seq<char> {
    trim_end(trim_start(s))
}

/// Whether a query, white space at its ends aside, begins with the trigger.
/// Upper and lower case differ.
pub open spec fn triggers(text: Seq<char>, prefix: Seq<char>) -> bool {
    prefix.is_prefix_of(trim(text))
}

/// What a query holds after the trigger, without white space at either end.
pub open spec fn remainder(text: Seq<char>, prefix: Seq<char>) -> Seq<char> {
    trim(trim(text).skip(prefix.len() as int))
}

/// Tells whether a character is white space.
pub fn is_whitespace(c: char) -> (white: bool)
    ensures
        white == is_space(c),
{
    let n: u32 = c as u32;
    (0x09 <= n && n <= 0x0d) || n == 0x20 || n == 0x85 || n == 0xa0 || n == 0x1680 || (0x2000 <= n
        && n <= 0x200a) || n == 0x2028 || n == 0x2029 || n == 0x202f || n == 0x205f || n == 0x3000
}

/// The characters of a string, one by one.
pub fn chars_of(s: &str) -> (chars: Vec<char>)
    ensures
        chars@ == s@,
{
    let mut chars: Vec<char> = Vec::new();
    for c in it: s.chars()
        invariant
            it.seq() == s@,
            chars@ == s@.take(it.index() as int),
    {
        chars.push(c);
    }
    chars
}

/// Finds where the part `from..to` of `chars` begins and ends once the white
/// space at its two ends is left out.
pub fn trim_bounds(chars: &Vec<char>, from: usize, to: usize) -> (bounds: (usize, usize))
    requires
        from <= to <= chars@.len(),
    ensures
        from <= bounds.0 <= bounds.1 <= to,
        chars@.subrange(bounds.0 as int, bounds.1 as int) == trim(
            chars@.subrange(from as int, to as int),
        ),
{
    let mut start: usize = from;
    while start < to && is_whitespace(chars[start])
        invariant
            from <= start <= to <= chars@.len(),
            trim_start(chars@.subrange(start as int, to as int)) == trim_start(
                chars@.subrange(from as int, to as int),
            ),
        decreases to - start,
    {
        assert(chars@.subrange(start as int, to as int).drop_first() == chars@.subrange(
            start + 1,
            to as int,
        ));
        start += 1;
    }
    let mut end: usize = to;
    while start < end && is_whitespace(chars[end - 1])
        invariant
            start <= end <= to <= chars@.len(),
            trim_end(chars@.subrange(start as int, end as int)) == trim_end(
                chars@.subrange(start as int, to as int),
            ),
        decreases end - start,
    {
        assert(chars@.subrange(start as int, end as int).drop_last() == chars@.subrange(
            start as int,
            end - 1,
        ));
        end -= 1;
    }
    (start, end)
}

/// Tells whether the characters of `prefix` stand in `chars` from `at` on.
pub fn has_prefix_at(chars: &Vec<char>, at: usize, to: usize, prefix: &Vec<char>) -> (found: bool)
    requires
        at <= to <= chars@.len(),
    ensures
        found == prefix@.is_prefix_of(chars@.subrange(at as int, to as int)),
{
    if prefix.len() > to - at {
        return false;
    }
    let mut i: usize = 0;
    while i < prefix.len()
        invariant
            at <= to <= chars@.len(),
            prefix@.len() <= to - at,
            i <= prefix@.len(),
            forall|j: int| 0 <= j < i ==> prefix@[j] == chars@[at + j],
        decreases prefix@.len() - i,
    {
        if chars[at + i] != prefix[i] {
            assert(chars@.subrange(at as int, to as int).subrange(0, prefix@.len() as int)[i as int]
                != prefix@[i as int]);
            return false;
        }
        i += 1;
    }
    true
}

/// Matches a query against the trigger. A query that begins with it, white
/// space at its ends aside, gives what follows the trigger, trimmed; any
/// other query gives nothing.
pub fn strip_trigger(text: &str, prefix: &str) -> (rest: Option<String>)
    ensures
        rest is Some <==> triggers(text@, prefix@),
        rest is Some ==> rest.unwrap()@ == remainder(text@, prefix@),
{
    let chars = chars_of(text);
    let wanted = chars_of(prefix);
    let (start, end) = trim_bounds(&chars, 0, chars.len());
    assert(chars@.subrange(0, chars@.len() as int) == chars@);
    if !has_prefix_at(&chars, start, end, &wanted) {
        return None;
    }
    let (from, to) = trim_bounds(&chars, start + wanted.len(), end);
    assert(chars@.subrange(start + wanted@.len(), end as int) == trim(text@).skip(
        wanted@.len() as int,
    ));
    Some(String::from_str(text.substring_char(from, to)))
}

} // verus!
