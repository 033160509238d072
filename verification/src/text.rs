//! Text as characters: trimming whitespace and matching prefixes.

use vstd::prelude::*;

verus! {

/// `String::push` appends one character to the string.
pub assume_specification[ String::push ](s: &mut String, c: char)
    ensures
        final(s)@ == old(s)@.push(c),
;

/// The characters of a string slice, in order.
pub fn chars_of(s: &str) -> (v: Vec<char>)
    ensures
        v@ == s@,
{
    let mut v: Vec<char> = Vec::new();
    for c in it: s.chars()
        invariant
            it.seq() == s@,
            v@ == it.seq().take(it.index() as int),
    {
        v.push(c);
    }
    v
}

/// The string made of the characters `v[from..to]`.
pub fn string_of(v: &Vec<char>, from: usize, to: usize) -> (s: String)
    requires
        from <= to <= v.len(),
    ensures
        s@ == v@.subrange(from as int, to as int),
{
    let mut s = String::new();
    let mut i: usize = from;
    while i < to
        invariant
            from <= i <= to <= v.len(),
            s@ == v@.subrange(from as int, i as int),
        decreases to - i,
    {
        s.push(v[i]);
        i += 1;
    }
    s
}

/// Whether `c` has the Unicode property White_Space.
pub open spec fn is_whitespace(c: char) -> bool {
    let u = c as u32;
    ||| 0x09 <= u <= 0x0D
    ||| u == 0x20
    ||| u == 0x85
    ||| u == 0xA0
    ||| u == 0x1680
    ||| 0x2000 <= u <= 0x200A
    ||| u == 0x2028
    ||| u == 0x2029
    ||| u == 0x202F
    ||| u == 0x205F
    ||| u == 0x3000
}

/// Tests a character for the Unicode property White_Space.
pub fn is_whitespace_char(c: char) -> (b: bool)
    ensures
        b == is_whitespace(c),
{
    let u: u32 = c as u32;
    (0x09 <= u && u <= 0x0D) || u == 0x20 || u == 0x85 || u == 0xA0 || u == 0x1680 || (0x2000 <= u
        && u <= 0x200A) || u == 0x2028 || u == 0x2029 || u == 0x202F || u == 0x205F || u
        == 0x3000
}

/// `s` without its leading whitespace.
pub open spec fn trim_start(s: Seq<char>) -> Seq<char>
    decreases s.len(),
{
    if s.len() > 0 && is_whitespace(s[0]) {
        trim_start(s.skip(1))
    } else {
        s
    }
}

/// `s` without its trailing whitespace.
pub open spec fn trim_end(s: Seq<char>) -> Seq<char>
    decreases s.len(),
{
    if s.len() > 0 && is_whitespace(s.last()) {
        trim_end(s.drop_last())
    } else {
        s
    }
}

/// `s` without the whitespace at either end.
pub open spec fn trimmed(s: Seq<char>) -> Seq<char> {
    trim_end(trim_start(s))
}

/// Leading whitespace ends at `k`: everything before it is whitespace, and
/// the character at `k`, if there is one, is not.
proof fn lemma_trim_start_skips(s: Seq<char>, k: int)
    requires
        0 <= k <= s.len(),
        forall|i: int| 0 <= i < k ==> is_whitespace(s[i]),
        k < s.len() ==> !is_whitespace(s[k]),
    ensures
        trim_start(s) == s.skip(k),
    decreases k,
{
    if k > 0 {
        lemma_trim_start_skips(s.skip(1), k - 1);
    }
}

/// Trailing whitespace starts at `k`: everything from it on is whitespace,
/// and the character before `k`, if there is one, is not.
proof fn lemma_trim_end_takes(s: Seq<char>, k: int)
    requires
        0 <= k <= s.len(),
        forall|i: int| k <= i < s.len() ==> is_whitespace(s[i]),
        0 < k ==> !is_whitespace(s[k - 1]),
    ensures
        trim_end(s) == s.take(k),
    decreases s.len() - k,
{
    if k < s.len() {
        lemma_trim_end_takes(s.drop_last(), k);
    }
}

/// Where the leading whitespace of `s` ends, looking from `from` on, before
/// which all is whitespace.
proof fn lemma_leading_whitespace_ends(s: Seq<char>, from: int) -> (first: int)
    requires
        0 <= from <= s.len(),
        forall|i: int| 0 <= i < from ==> is_whitespace(s[i]),
    ensures
        from <= first <= s.len(),
        forall|i: int| 0 <= i < first ==> is_whitespace(s[i]),
        first < s.len() ==> !is_whitespace(s[first]),
    decreases s.len() - from,
{
    if from < s.len() && is_whitespace(s[from]) {
        lemma_leading_whitespace_ends(s, from + 1)
    } else {
        from
    }
}

/// Where the trailing whitespace of `s` starts, not below `floor`, looking
/// from `to` down, from which on all is whitespace.
proof fn lemma_trailing_whitespace_starts(s: Seq<char>, floor: int, to: int) -> (last: int)
    requires
        0 <= floor <= to <= s.len(),
        forall|i: int| to <= i < s.len() ==> is_whitespace(s[i]),
    ensures
        floor <= last <= to,
        forall|i: int| last <= i < s.len() ==> is_whitespace(s[i]),
        floor < last ==> !is_whitespace(s[last - 1]),
    decreases to - floor,
{
    if floor < to && is_whitespace(s[to - 1]) {
        lemma_trailing_whitespace_starts(s, floor, to - 1)
    } else {
        to
    }
}

/// What is trimmed off is whitespace, and what is left neither starts nor
/// ends with it: `trimmed(s)` is the part of `s` between the bounds that
/// this gives.
pub proof fn lemma_trimmed_is_the_core(s: Seq<char>) -> (bounds: (int, int))
    ensures
        ({
            let (first, last) = bounds;
            &&& 0 <= first <= last <= s.len()
            &&& trimmed(s) == s.subrange(first, last)
            &&& forall|i: int| 0 <= i < first ==> is_whitespace(s[i])
            &&& forall|i: int| last <= i < s.len() ==> is_whitespace(s[i])
            &&& first < last ==> !is_whitespace(s[first]) && !is_whitespace(s[last - 1])
        }),
{
    let first = lemma_leading_whitespace_ends(s, 0);
    let last = lemma_trailing_whitespace_starts(s, first, s.len() as int);
    lemma_trim_start_skips(s, first);
    lemma_trim_end_takes(s.skip(first), last - first);
    (first, last)
}

/// Removes the whitespace at both ends of `s`.
pub fn trim(s: &str) -> (r: String)
    ensures
        r@ == trimmed(s@),
{
    let v = chars_of(s);
    let n: usize = v.len();
    let mut start: usize = 0;
    while start < n && is_whitespace_char(v[start])
        invariant
            start <= n == v.len(),
            forall|i: int| 0 <= i < start ==> is_whitespace(v@[i]),
        decreases n - start,
    {
        start += 1;
    }
    let mut end: usize = n;
    while end > start && is_whitespace_char(v[end - 1])
        invariant
            start <= end <= n == v.len(),
            forall|i: int| end <= i < n ==> is_whitespace(v@[i]),
        decreases end,
    {
        end -= 1;
    }
    proof {
        lemma_trim_start_skips(v@, start as int);
        lemma_trim_end_takes(v@.skip(start as int), end - start);
    }
    string_of(&v, start, end)
}

/// Whether `v[from..]` starts with `prefix`.
pub fn starts_with_at(v: &Vec<char>, from: usize, prefix: &Vec<char>) -> (b: bool)
    requires
        from <= v.len(),
    ensures
        b == prefix@.is_prefix_of(v@.skip(from as int)),
{
    let n: usize = prefix.len();
    if v.len() - from < n {
        return false;
    }
    let ghost rest = v@.skip(from as int);
    let mut i: usize = 0;
    while i < n
        invariant
            i <= n == prefix.len(),
            from + n <= v.len(),
            rest == v@.skip(from as int),
            forall|j: int| 0 <= j < i ==> prefix@[j] == rest[j],
        decreases n - i,
    {
        if v[from + i] != prefix[i] {
            return false;
        }
        i += 1;
    }
    true
}

/// `s` without any leading repetitions of `pattern`.
pub open spec fn strip_repeated(s: Seq<char>, pattern: Seq<char>) -> Seq<char>
    decreases s.len(),
{
    if pattern.len() > 0 && pattern.is_prefix_of(s) {
        strip_repeated(s.skip(pattern.len() as int), pattern)
    } else {
        s
    }
}

/// The index in `v` at which the leading repetitions of `pattern` end.
pub fn skip_repeated(v: &Vec<char>, pattern: &Vec<char>) -> (k: usize)
    ensures
        k <= v.len(),
        v@.skip(k as int) == strip_repeated(v@, pattern@),
{
    let n: usize = pattern.len();
    let mut k: usize = 0;
    proof {
        assert(v@.skip(0) =~= v@);
    }
    if n == 0 {
        return 0;
    }
    while starts_with_at(v, k, pattern)
        invariant
            k <= v.len(),
            n == pattern.len(),
            n > 0,
            strip_repeated(v@.skip(k as int), pattern@) == strip_repeated(v@, pattern@),
        decreases v.len() - k,
    {
        proof {
            assert(v@.skip(k as int).skip(n as int) =~= v@.skip(k + n));
        }
        k += n;
    }
    k
}

} // verus!
