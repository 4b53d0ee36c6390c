//! Substring search over sequences of characters.

use vstd::prelude::*;

verus! {

/// `needle` stands in `hay` at offset `at`.
pub open spec fn occurs_at(hay: Seq<char>, needle: Seq<char>, at: int) -> bool {
    &&& 0 <= at
    &&& at + needle.len() <= hay.len()
    &&& hay.subrange(at, at + needle.len()) == needle
}

/// `needle` is a contiguous part of `hay`. The empty sequence is a part of
/// every sequence.
pub open spec fn contains(hay: Seq<char>, needle: Seq<char>) -> bool {
    exists|at: int| occurs_at(hay, needle, at)
}

/// Whatever is put before or after a sequence, the sequence is still a part
/// of the whole.
pub proof fn lemma_contains_embedded(before: Seq<char>, s: Seq<char>, after: Seq<char>)
    ensures
        contains(before + s + after, s),
{
    let whole = before + s + after;
    let at = before.len() as int;
    assert(whole.subrange(at, at + s.len()) =~= s);
    assert(occurs_at(whole, s, at));
}

/// Being a part is transitive: a part of a part of `hay` is a part of `hay`.
pub proof fn lemma_contains_transitive(hay: Seq<char>, mid: Seq<char>, needle: Seq<char>)
    requires
        contains(hay, mid),
        contains(mid, needle),
    ensures
        contains(hay, needle),
{
    let i = choose|i: int| occurs_at(hay, mid, i);
    let j = choose|j: int| occurs_at(mid, needle, j);
    assert(hay.subrange(i + j, i + j + needle.len()) =~= hay.subrange(i, i + mid.len()).subrange(
        j,
        j + needle.len(),
    ));
    assert(occurs_at(hay, needle, i + j));
}

/// A part of a sequence is what stands between some beginning and some end
/// of it.
pub proof fn lemma_contains_splits(hay: Seq<char>, needle: Seq<char>)
    ensures
        contains(hay, needle) <==> exists|before: Seq<char>, after: Seq<char>|
            hay == #[trigger] (before + needle + after),
{
    if contains(hay, needle) {
        let at = choose|at: int| occurs_at(hay, needle, at);
        let before = hay.subrange(0, at);
        let after = hay.subrange(at + needle.len(), hay.len() as int);
        assert(hay =~= before + needle + after);
    }
    if exists|before: Seq<char>, after: Seq<char>| hay == #[trigger] (before + needle + after) {
        let (before, after) = choose|before: Seq<char>, after: Seq<char>|
            hay == #[trigger] (before + needle + after);
        lemma_contains_embedded(before, needle, after);
    }
}

/// The characters of `s`, in order.
pub fn chars_of(s: &str) -> (v: Vec<char>)
    ensures
        v@ == s@,
{
    let mut v: Vec<char> = Vec::new();
    for c in it: s.chars()
        invariant
            it.seq() == s@,
            v@ == it.seq().take(it.index()),
    {
        v.push(c);
    }
    v
}

/// Whether `needle` stands in `hay` at offset `at`. An offset at which
/// `needle` would reach beyond the end of `hay` is no match.
pub fn matches_at(hay: &Vec<char>, needle: &Vec<char>, at: usize) -> (found: bool)
    ensures
        found == occurs_at(hay@, needle@, at as int),
{
    let n: usize = needle.len();
    let h: usize = hay.len();
    if n > h || at > h - n {
        return false;
    }
    let mut k: usize = 0;
    while k < n
        invariant
            n == needle@.len(),
            h == hay@.len(),
            at + n <= h,
            k <= n,
            forall|j: int| 0 <= j < k ==> hay@[at + j] == needle@[j],
        decreases n - k,
    {
        if hay[at + k] != needle[k] {
            proof {
                let part = hay@.subrange(at as int, at + n);
                assert(part[k as int] == hay@[at + k]);
            }
            return false;
        }
        k += 1;
    }
    assert(hay@.subrange(at as int, at + n) =~= needle@);
    true
}

/// Whether `needle` is a contiguous part of `hay`: every offset is tried in
/// turn, from the left.
pub fn contains_chars(hay: &Vec<char>, needle: &Vec<char>) -> (found: bool)
    ensures
        found == contains(hay@, needle@),
{
    if needle.len() == 0 {
        assert(hay@.subrange(0, 0) =~= needle@);
        assert(occurs_at(hay@, needle@, 0));
        return true;
    }
    if needle.len() > hay.len() {
        return false;
    }
    let last: usize = hay.len() - needle.len();
    let mut at: usize = 0;
    while at <= last
        invariant
            last + needle@.len() == hay@.len(),
            last < usize::MAX,
            at <= last + 1,
            forall|j: int| 0 <= j < at ==> !occurs_at(hay@, needle@, j),
        decreases last + 1 - at,
    {
        if matches_at(hay, needle, at) {
            return true;
        }
        at += 1;
    }
    false
}

/// Whether the string `needle` is a substring of the string `hay`, both read
/// as sequences of characters.
pub fn str_contains(hay: &str, needle: &str) -> (found: bool)
    ensures
        found == contains(hay@, needle@),
{
    let h = chars_of(hay);
    let n = chars_of(needle);
    contains_chars(&h, &n)
}

} // verus!
