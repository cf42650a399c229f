//! Lexicographic ordering of byte strings.
use vstd::prelude::*;
use std::cmp::Ordering;

verus! {

/// `a` comes strictly before `b` in lexicographic byte order (a proper prefix comes first).
pub open spec fn bytes_lt(a: Seq<u8>, b: Seq<u8>) -> bool
    decreases a.len(),
{
    if b.len() == 0 {
        false
    } else if a.len() == 0 {
        true
    } else if a[0] != b[0] {
        a[0] < b[0]
    } else {
        bytes_lt(a.drop_first(), b.drop_first())
    }
}

/// Exactly one of `a < b`, `a == b`, `b < a` holds in lexicographic byte order.
pub proof fn lemma_bytes_trichotomy(a: Seq<u8>, b: Seq<u8>)
    ensures
        bytes_lt(a, b) || a == b || bytes_lt(b, a),
        !(bytes_lt(a, b) && a == b),
        !(bytes_lt(b, a) && a == b),
        !(bytes_lt(a, b) && bytes_lt(b, a)),
    decreases a.len(),
{
    if a.len() > 0 && b.len() > 0 && a[0] == b[0] {
        lemma_bytes_trichotomy(a.drop_first(), b.drop_first());
        if a.drop_first() == b.drop_first() {
            assert(a =~= seq![a[0]] + a.drop_first());
            assert(b =~= seq![b[0]] + b.drop_first());
        }
    } else if a.len() == 0 && b.len() == 0 {
        assert(a =~= b);
    }
}

/// Compares two byte strings in lexicographic order.
pub fn cmp_bytes(a: &[u8], b: &[u8]) -> (r: Ordering)
    ensures
        (r == Ordering::Less) == bytes_lt(a@, b@),
        (r == Ordering::Equal) == (a@ == b@),
        (r == Ordering::Greater) == bytes_lt(b@, a@),
{
    proof {
        lemma_bytes_trichotomy(a@, b@);
        assert(a@.skip(0) =~= a@);
        assert(b@.skip(0) =~= b@);
    }
    let mut i: usize = 0;
    while i < a.len() && i < b.len() && a[i] == b[i]
        invariant
            i <= a.len(),
            i <= b.len(),
            a@.take(i as int) == b@.take(i as int),
            bytes_lt(a@, b@) == bytes_lt(a@.skip(i as int), b@.skip(i as int)),
            bytes_lt(b@, a@) == bytes_lt(b@.skip(i as int), a@.skip(i as int)),
        decreases a.len() - i,
    {
        assert(a@.skip(i as int).drop_first() =~= a@.skip(i + 1));
        assert(b@.skip(i as int).drop_first() =~= b@.skip(i + 1));
        assert(a@.take(i + 1) =~= a@.take(i as int).push(a[i as int]));
        assert(b@.take(i + 1) =~= b@.take(i as int).push(b[i as int]));
        i = i + 1;
    }
    if i < a.len() && i < b.len() {
        assert(a@[i as int] != b@[i as int]);
        if a[i] < b[i] {
            Ordering::Less
        } else {
            Ordering::Greater
        }
    } else if i < b.len() {
        Ordering::Less
    } else if i < a.len() {
        Ordering::Greater
    } else {
        assert(a@ =~= a@.take(i as int));
        assert(b@ =~= b@.take(i as int));
        Ordering::Equal
    }
}

} // verus!
