//! Text primitives that the generators of manifests and documents rest on.
//!
//! The executable functions here hand the work to the standard library and
//! to `itertools`. Their contracts are taken on trust from the documentation
//! and the source of those functions; everything built on them is proved.

use vstd::prelude::*;
use vstd::string::*;
use itertools::Itertools;

verus! {

/// `p` stands in `s` at position `i`.
#[verifier::opaque]
pub open spec fn occurs_at(s: Seq<char>, p: Seq<char>, i: int) -> bool {
    0 <= i && i + p.len() <= s.len() && s.subrange(i, i + p.len()) == p
}

/// `p` stands somewhere in `s`.
pub open spec fn occurs(s: Seq<char>, p: Seq<char>) -> bool {
    exists|i: int| occurs_at(s, p, i)
}

/// The first position at which `p` stands in `s`.
pub open spec fn first_at(s: Seq<char>, p: Seq<char>) -> int {
    choose|i: int| occurs_at(s, p, i) && forall|j: int| 0 <= j < i ==> !occurs_at(s, p, j)
}

/// A position at which `p` stands in `s`, with none before it, is the first.
pub proof fn lemma_first_at(s: Seq<char>, p: Seq<char>, i: int)
    requires
        occurs_at(s, p, i),
        forall|j: int| 0 <= j < i ==> !occurs_at(s, p, j),
    ensures
        occurs(s, p),
        first_at(s, p) == i,
{
    let k = first_at(s, p);
    assert(occurs_at(s, p, k) && forall|j: int| 0 <= j < k ==> !occurs_at(s, p, j));
    assert(0 <= k && 0 <= i) by {
        reveal(occurs_at);
    }
    if k < i {
        assert(!occurs_at(s, p, k));
    }
    if i < k {
        assert(!occurs_at(s, p, i));
    }
}

/// In a text put together from three parts, the middle part stands where
/// the first part ends; the first part is what stands before that place and
/// the last part is what stands after the middle part.
pub proof fn lemma_split(before: Seq<char>, p: Seq<char>, after: Seq<char>)
    ensures
        occurs_at(before + p + after, p, before.len() as int),
        occurs(before + p + after, p),
        (before + p + after).take(before.len() as int) == before,
        (before + p + after).skip((before.len() + p.len()) as int) == after,
        (before + p + after).len() == before.len() + p.len() + after.len(),
{
    reveal(occurs_at);
    let s = before + p + after;
    let i = before.len() as int;
    assert(s.subrange(i, i + p.len()) =~= p);
    assert(s.take(i) =~= before);
    assert(s.skip(i + p.len()) =~= after);
}

/// `s` without every copy of `p` at its end.
pub open spec fn trim_end(s: Seq<char>, p: Seq<char>) -> Seq<char>
    decreases s.len(),
{
    if p.len() > 0 && p.is_suffix_of(s) {
        trim_end(s.take(s.len() - p.len()), p)
    } else {
        s
    }
}

/// The texts of a list of strings.
pub open spec fn texts(parts: Seq<String>) -> Seq<Seq<char>> {
    Seq::new(parts.len(), |i: int| parts[i]@)
}

/// The texts of a list of string slices.
pub open spec fn slices(parts: Seq<&str>) -> Seq<Seq<char>> {
    Seq::new(parts.len(), |i: int| parts[i]@)
}

/// The parts in order, with `sep` between each two neighbours.
pub open spec fn joined(parts: Seq<Seq<char>>, sep: Seq<char>) -> Seq<char>
    decreases parts.len(),
{
    if parts.len() == 0 {
        Seq::empty()
    } else if parts.len() == 1 {
        parts[0]
    } else {
        joined(parts.drop_last(), sep) + sep + parts.last()
    }
}

/// `str::starts_with` on a string pattern: whether `s` begins with `p`.
#[verifier::external_body]
pub(crate) fn starts_with(s: &str, p: &str) -> (b: bool)
    ensures
        b == p@.is_prefix_of(s@),
{
    s.starts_with(p)
}

/// `str::strip_prefix` on a string pattern: what follows `p` in `s` if `s`
/// begins with `p`, and nothing if it does not.
#[verifier::external_body]
pub(crate) fn strip_prefix<'a>(s: &'a str, p: &str) -> (r: Option<&'a str>)
    ensures
        match r {
            Some(rest) => s@ == p@ + rest@,
            None => !p@.is_prefix_of(s@),
        },
{
    s.strip_prefix(p)
}

/// `str::strip_suffix` on a string pattern: what stands before `p` in `s` if
/// `s` ends with `p`, and nothing if it does not.
#[verifier::external_body]
pub(crate) fn strip_suffix<'a>(s: &'a str, p: &str) -> (r: Option<&'a str>)
    ensures
        match r {
            Some(rest) => s@ == rest@ + p@,
            None => !p@.is_suffix_of(s@),
        },
{
    s.strip_suffix(p)
}

/// `str::split_once` on a string pattern: what stands before and after the
/// first place at which `p` stands in `s`, and nothing if `p` does not stand
/// in `s`.
#[verifier::external_body]
pub(crate) fn split_once<'a>(s: &'a str, p: &str) -> (r: Option<(&'a str, &'a str)>)
    ensures
        match r {
            Some((before, after)) => s@ == before@ + p@ + after@ && forall|j: int|
                0 <= j < before@.len() ==> !occurs_at(s@, p@, j),
            None => !occurs(s@, p@),
        },
{
    s.split_once(p)
}

/// `str::trim_end_matches` on a string pattern that is not empty: `s`
/// without every copy of `p` at its end.
#[verifier::external_body]
pub(crate) fn trim_end_matches<'a>(s: &'a str, p: &str) -> (r: &'a str)
    requires
        p@.len() > 0,
    ensures
        r@ == trim_end(s@, p@),
{
    s.trim_end_matches(p)
}

/// `Itertools::join` on the strings of a list: the strings in order, with
/// `sep` between each two neighbours. The function reserves
/// `sep.len()` bytes for each string before it starts, which has to be a
/// size that a string can have.
#[verifier::external_body]
pub(crate) fn join(parts: &Vec<String>, sep: &str) -> (s: String)
    requires
        sep.spec_bytes().len() * parts@.len() <= isize::MAX,
    ensures
        s@ == joined(texts(parts@), sep@),
{
    parts.iter().join(sep)
}

} // verus!
