use crate::{byte_views, HASH_SIZE};
use vstd::prelude::*;
use vstd::seq_lib::group_to_multiset_ensures;

verus! {

/// The all-zero seed: the neutral element of byte-wise combination.
pub open spec fn zero_seed() -> Seq<u8> {
    Seq::new(HASH_SIZE as nat, |i: int| 0u8)
}

/// Byte-wise XOR of two equally wide byte sequences.
pub open spec fn xor_bytes(a: Seq<u8>, b: Seq<u8>) -> Seq<u8> {
    Seq::new(a.len(), |i: int| a[i] ^ b[i])
}

/// The combined next-round seed of a list of contributions: the byte-wise XOR
/// of all of them, starting from the all-zero seed.
pub open spec fn combine_spec(contributions: Seq<Seq<u8>>) -> Seq<u8>
    decreases contributions.len(),
{
    if contributions.len() == 0 {
        zero_seed()
    } else {
        xor_bytes(combine_spec(contributions.drop_last()), contributions.last())
    }
}

/// True when every contribution in the list has the seed width.
pub open spec fn all_seed_width(contributions: Seq<Seq<u8>>) -> bool {
    forall|i: int| 0 <= i < contributions.len() ==> (#[trigger] contributions[i]).len() == HASH_SIZE
}

/// A combined seed always has the seed width.
pub proof fn lemma_combine_width(contributions: Seq<Seq<u8>>)
    ensures
        combine_spec(contributions).len() == HASH_SIZE,
    decreases contributions.len(),
{
    if contributions.len() > 0 {
        lemma_combine_width(contributions.drop_last());
    }
}

proof fn lemma_combine_push(contributions: Seq<Seq<u8>>, x: Seq<u8>)
    ensures
        combine_spec(contributions.push(x)) == xor_bytes(combine_spec(contributions), x),
{
    assert(contributions.push(x).drop_last() =~= contributions);
    assert(contributions.push(x).last() == x);
}

/// Swapping the last two operands of a double XOR changes nothing.
proof fn lemma_xor_exchange(a: Seq<u8>, b: Seq<u8>, c: Seq<u8>)
    requires
        a.len() == HASH_SIZE,
        b.len() == HASH_SIZE,
        c.len() == HASH_SIZE,
    ensures
        xor_bytes(xor_bytes(a, b), c) == xor_bytes(xor_bytes(a, c), b),
{
    assert forall|i: int| 0 <= i < HASH_SIZE implies xor_bytes(xor_bytes(a, b), c)[i] == xor_bytes(
        xor_bytes(a, c),
        b,
    )[i] by {
        let x = a[i];
        let y = b[i];
        let z = c[i];
        assert((x ^ y) ^ z == (x ^ z) ^ y) by (bit_vector);
    }
    assert(xor_bytes(xor_bytes(a, b), c) =~= xor_bytes(xor_bytes(a, c), b));
}

/// Any one contribution can be pulled out of a combination.
proof fn lemma_combine_remove(contributions: Seq<Seq<u8>>, i: int)
    requires
        all_seed_width(contributions),
        0 <= i < contributions.len(),
    ensures
        combine_spec(contributions) == xor_bytes(
            combine_spec(contributions.remove(i)),
            contributions[i],
        ),
    decreases contributions.len(),
{
    if i == contributions.len() - 1 {
        assert(contributions.remove(i) =~= contributions.drop_last());
    } else {
        let t = contributions.drop_last();
        let x = contributions.last();
        assert(all_seed_width(t));
        lemma_combine_remove(t, i);
        lemma_combine_width(t.remove(i));
        lemma_xor_exchange(combine_spec(t.remove(i)), t[i], x);
        assert(contributions.remove(i) =~= t.remove(i).push(x));
        lemma_combine_push(t.remove(i), x);
    }
}

/// Combining seed contributions is order-independent: two lists that hold the
/// same contributions, however ordered, combine to the same seed.
pub proof fn lemma_combine_order_independent(first: Seq<Seq<u8>>, second: Seq<Seq<u8>>)
    requires
        all_seed_width(first),
        first.to_multiset() == second.to_multiset(),
    ensures
        combine_spec(first) == combine_spec(second),
    decreases first.len(),
{
    broadcast use group_to_multiset_ensures;

    if first.len() == 0 {
        assert(first.to_multiset().len() == first.len());
        assert(second.to_multiset().len() == second.len());
    } else {
        let x = first.last();
        let n = first.len() - 1;
        assert(first[n] == x);
        assert(first.contains(x));
        assert(second.to_multiset().count(x) > 0);
        assert(second.contains(x));
        let j = choose|j: int| 0 <= j < second.len() && second[j] == x;
        assert(all_seed_width(second)) by {
            assert forall|k: int| 0 <= k < second.len() implies (#[trigger] second[k]).len()
                == HASH_SIZE by {
                assert(second.contains(second[k]));
                assert(second.to_multiset().count(second[k]) > 0);
                assert(first.contains(second[k]));
            }
        }
        lemma_combine_remove(second, j);
        lemma_combine_remove(first, n);
        assert(first.remove(n) =~= first.drop_last());
        assert(first.drop_last().to_multiset() == second.remove(j).to_multiset()) by {
            assert(first.remove(n).to_multiset() == first.to_multiset().remove(x));
            assert(second.remove(j).to_multiset() == second.to_multiset().remove(x));
        }
        assert(all_seed_width(first.drop_last()));
        lemma_combine_order_independent(first.drop_last(), second.remove(j));
    }
}

/// Builds the all-zero seed value.
pub fn zero_seed_bytes() -> (r: Vec<u8>)
    ensures
        r@ == zero_seed(),
{
    let mut r: Vec<u8> = Vec::new();
    let mut i: usize = 0;
    while i < HASH_SIZE
        invariant
            i <= HASH_SIZE,
            r@.len() == i,
            forall|j: int| 0 <= j < i ==> r@[j] == 0u8,
        decreases HASH_SIZE - i,
    {
        r.push(0u8);
        i += 1;
    }
    proof {
        assert(r@ =~= zero_seed());
    }
    r
}

/// Byte-wise XOR of two equally long byte vectors.
fn xor_bytes_exec(a: &Vec<u8>, b: &Vec<u8>) -> (r: Vec<u8>)
    requires
        a@.len() == b@.len(),
    ensures
        r@ == xor_bytes(a@, b@),
{
    let mut r: Vec<u8> = Vec::new();
    let mut i: usize = 0;
    while i < a.len()
        invariant
            i <= a@.len(),
            a@.len() == b@.len(),
            r@.len() == i,
            forall|j: int| 0 <= j < i ==> r@[j] == (a@[j] ^ b@[j]),
        decreases a@.len() - i,
    {
        r.push(a[i] ^ b[i]);
        i += 1;
    }
    proof {
        assert(r@ =~= xor_bytes(a@, b@));
    }
    r
}

/// Combines the committee members' independently generated contributions into
/// the next-round seed by byte-wise XOR. The order of the list does not affect
/// the result (see `lemma_combine_order_independent`).
pub fn combine_seed_contributions(contributions: &Vec<Vec<u8>>) -> (r: Vec<u8>)
    requires
        all_seed_width(byte_views(contributions@)),
    ensures
        r@ == combine_spec(byte_views(contributions@)),
        r@.len() == HASH_SIZE,
{
    let ghost rows = byte_views(contributions@);
    let mut acc = zero_seed_bytes();
    let mut k: usize = 0;
    while k < contributions.len()
        invariant
            k <= contributions@.len(),
            rows == byte_views(contributions@),
            all_seed_width(rows),
            acc@ == combine_spec(rows.subrange(0, k as int)),
            acc@.len() == HASH_SIZE,
        decreases contributions@.len() - k,
    {
        proof {
            assert(rows[k as int] == contributions@[k as int]@);
            assert(rows.subrange(0, k as int + 1).drop_last() =~= rows.subrange(0, k as int));
            assert(rows.subrange(0, k as int + 1).last() == rows[k as int]);
        }
        acc = xor_bytes_exec(&acc, &contributions[k]);
        k += 1;
    }
    proof {
        assert(rows.subrange(0, contributions@.len() as int) =~= rows);
    }
    acc
}

} // verus!
