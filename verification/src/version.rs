//! Ordering installed versions by their numbers.
//!
//! A version text is read as the numbers among its dot-separated pieces;
//! pieces that are no number are passed over. Two versions are ordered as
//! those tuples of numbers are, from left to right.

use crate::text::{parse_u32, parse_u32_of, split, split_on, texts};
use std::cmp::Ordering;
use vstd::prelude::*;

verus! {

/// The numbers among the dot-separated pieces of a version text, in order.
pub open spec fn version_numbers(version: Seq<char>) -> Seq<u32> {
    split_on(version, '.').filter_map(|piece: Seq<char>| parse_u32_of(piece))
}

/// Whether the tuple `a` comes before the tuple `b`: at the first place
/// where they differ `a` holds the smaller number, or `a` ends there and `b`
/// goes on.
pub open spec fn numbers_before(a: Seq<u32>, b: Seq<u32>) -> bool
    decreases a.len(),
{
    if b.len() == 0 {
        false
    } else if a.len() == 0 {
        true
    } else if a[0] != b[0] {
        a[0] < b[0]
    } else {
        numbers_before(a.drop_first(), b.drop_first())
    }
}

/// Whether the version text `a` is older than the version text `b`.
pub open spec fn older(a: Seq<char>, b: Seq<char>) -> bool {
    numbers_before(version_numbers(a), version_numbers(b))
}

/// No tuple comes before itself, and of two tuples at most one comes before
/// the other.
pub proof fn lemma_numbers_before_asymmetric(a: Seq<u32>, b: Seq<u32>)
    ensures
        !(numbers_before(a, b) && numbers_before(b, a)),
    decreases a.len(),
{
    if a.len() > 0 && b.len() > 0 && a[0] == b[0] {
        lemma_numbers_before_asymmetric(a.drop_first(), b.drop_first());
    }
}

/// Where neither tuple comes before the other, the two are the same tuple.
pub proof fn lemma_numbers_before_total(a: Seq<u32>, b: Seq<u32>)
    requires
        !numbers_before(a, b),
        !numbers_before(b, a),
    ensures
        a == b,
    decreases a.len(),
{
    if a.len() > 0 && b.len() > 0 {
        lemma_numbers_before_total(a.drop_first(), b.drop_first());
        assert(a =~= seq![a[0]] + a.drop_first());
        assert(b =~= seq![b[0]] + b.drop_first());
    } else {
        assert(a =~= b);
    }
}

/// "Does not come before" carries over: where `a` is not before `b` and `b`
/// is not before `c`, `a` is not before `c`.
pub proof fn lemma_numbers_not_before_transitive(a: Seq<u32>, b: Seq<u32>, c: Seq<u32>)
    requires
        !numbers_before(a, b),
        !numbers_before(b, c),
    ensures
        !numbers_before(a, c),
    decreases a.len(),
{
    if a.len() > 0 && b.len() > 0 && c.len() > 0 && a[0] == b[0] && b[0] == c[0] {
        lemma_numbers_not_before_transitive(a.drop_first(), b.drop_first(), c.drop_first());
    }
}

/// Reads the numbers of a version text.
pub fn parse_version_numbers(version: &str) -> (numbers: Vec<u32>)
    ensures
        numbers@ == version_numbers(version@),
{
    let parts = split(version, '.');
    let ghost pieces = texts(parts@);
    let ghost read = |piece: Seq<char>| parse_u32_of(piece);
    let mut numbers: Vec<u32> = Vec::new();
    let mut i: usize = 0;
    while i < parts.len()
        invariant
            i <= parts.len(),
            pieces == texts(parts@),
            pieces == split_on(version@, '.'),
            read == |piece: Seq<char>| parse_u32_of(piece),
            numbers@ == pieces.subrange(0, i as int).filter_map(read),
        decreases parts.len() - i,
    {
        let number = parse_u32(parts[i].as_str());
        proof {
            let longer = pieces.subrange(0, i + 1);
            assert(longer.drop_last() =~= pieces.subrange(0, i as int));
            assert(longer.last() == parts@[i as int]@);
        }
        match number {
            Some(x) => {
                numbers.push(x);
            },
            None => {},
        }
        i = i + 1;
    }
    assert(pieces.subrange(0, parts.len() as int) =~= pieces);
    numbers
}

/// Whether the tuple `a` comes before the tuple `b`.
pub fn numbers_less(a: &Vec<u32>, b: &Vec<u32>) -> (r: bool)
    ensures
        r == numbers_before(a@, b@),
{
    let mut i: usize = 0;
    assert(a@.subrange(0, a.len() as int) =~= a@);
    assert(b@.subrange(0, b.len() as int) =~= b@);
    while i < a.len() && i < b.len()
        invariant
            i <= a.len(),
            i <= b.len(),
            numbers_before(a@, b@) == numbers_before(
                a@.subrange(i as int, a.len() as int),
                b@.subrange(i as int, b.len() as int),
            ),
        decreases a.len() - i,
    {
        proof {
            let x = a@.subrange(i as int, a.len() as int);
            let y = b@.subrange(i as int, b.len() as int);
            assert(x.drop_first() =~= a@.subrange(i + 1, a.len() as int));
            assert(y.drop_first() =~= b@.subrange(i + 1, b.len() as int));
            assert(x[0] == a@[i as int]);
            assert(y[0] == b@[i as int]);
        }
        if a[i] != b[i] {
            return a[i] < b[i];
        }
        i = i + 1;
    }
    i < b.len()
}

/// Whether the version text `a` is older than the version text `b`.
pub fn is_older(a: &str, b: &str) -> (r: bool)
    ensures
        r == older(a@, b@),
{
    let x = parse_version_numbers(a);
    let y = parse_version_numbers(b);
    numbers_less(&x, &y)
}

/// Compares two version texts by their numbers: `Less` where `a` is older,
/// `Greater` where `b` is older, `Equal` where both hold the same numbers.
pub fn compare_versions(a: &str, b: &str) -> (r: Ordering)
    ensures
        r is Less <==> older(a@, b@),
        r is Greater <==> older(b@, a@),
        r is Equal <==> version_numbers(a@) == version_numbers(b@),
{
    let x = parse_version_numbers(a);
    let y = parse_version_numbers(b);
    proof {
        lemma_numbers_before_asymmetric(x@, y@);
        lemma_numbers_before_asymmetric(x@, x@);
        if !numbers_before(x@, y@) && !numbers_before(y@, x@) {
            lemma_numbers_before_total(x@, y@);
        }
    }
    if numbers_less(&x, &y) {
        Ordering::Less
    } else if numbers_less(&y, &x) {
        Ordering::Greater
    } else {
        Ordering::Equal
    }
}

} // verus!
