use vstd::prelude::*;

use vstd::seq_lib::group_to_multiset_ensures;

verus! {

/// The parallel driver's work list: the pixel indices of the grid in a
/// random order. Shuffling spreads the slow pixels across the workers
/// instead of letting them cluster on one; the order is irrelevant to
/// the image, so all that is proved — and all that matters — is that
/// the list is a permutation of the grid: every pixel index appears,
/// and appears exactly once, so each pixel is claimed by exactly one
/// worker exactly once.

/// The indices `0, 1, ..., n - 1` in order.
pub open spec fn spec_identity_indices(n: int) -> Seq<usize> {
    Seq::new(n as nat, |i: int| i as usize)
}

/// Relies on rand's `SliceRandom::shuffle` (a Fisher-Yates shuffle,
/// drawing from the thread-local generator): it reorders the slice in
/// place, so the result holds exactly the elements it was given, with
/// multiplicity. Which order comes out is random and nothing is
/// assumed about it.
#[verifier::external_body]
fn shuffle_in_place(v: &mut Vec<usize>)
    ensures
        final(v)@.to_multiset() == old(v)@.to_multiset(),
        final(v)@.len() == old(v)@.len(),
{
    rand::seq::SliceRandom::shuffle(v.as_mut_slice(), &mut rand::rng());
}

/// The work list for a grid of `grid_size` pixels: the indices
/// `0 .. grid_size`, randomly reordered. Whatever order the shuffle
/// picked, the list holds each pixel index exactly once.
pub fn shuffled_pixel_indices(grid_size: usize) -> (r: Vec<usize>)
    ensures
        r@.len() == grid_size,
        r@.to_multiset() == spec_identity_indices(grid_size as int).to_multiset(),
        r@.no_duplicates(),
        forall|k: usize| k < grid_size ==> r@.contains(k),
{
    let mut v: Vec<usize> = Vec::new();
    let mut i: usize = 0;
    while i < grid_size
        invariant
            i <= grid_size,
            v@.len() == i,
            forall|k: int| 0 <= k < i ==> #[trigger] v@[k] == k as usize,
        decreases grid_size - i,
    {
        v.push(i);
        i = i + 1;
    }
    proof {
        assert(v@ =~= spec_identity_indices(grid_size as int));
    }
    shuffle_in_place(&mut v);
    proof {
        lemma_work_list_is_permutation(v@, grid_size);
    }
    v
}

/// The work-list law: a sequence that holds the same multiset as
/// `0 .. n` is a permutation of the grid — it has length `n`, no pixel
/// index twice, and every index below `n` in it. This is what makes
/// "each pixel is claimed by exactly one worker exactly once" hold for
/// any order the shuffle produces.
pub proof fn lemma_work_list_is_permutation(s: Seq<usize>, n: usize)
    requires
        s.to_multiset() == spec_identity_indices(n as int).to_multiset(),
    ensures
        s.len() == n,
        s.no_duplicates(),
        forall|k: usize| k < n ==> s.contains(k),
{
    broadcast use group_to_multiset_ensures;

    let ident = spec_identity_indices(n as int);
    assert(ident.len() == n);
    assert(s.len() == s.to_multiset().len());
    assert(ident.len() == ident.to_multiset().len());
    assert(ident.no_duplicates());
    ident.lemma_multiset_has_no_duplicates();
    assert forall|x: usize| s.to_multiset().contains(x) implies s.to_multiset().count(x)
        == 1 by {
        assert(ident.to_multiset().contains(x));
    }
    s.lemma_multiset_has_no_duplicates_conv();
    assert forall|k: usize| k < n implies s.contains(k) by {
        assert(ident[k as int] == k);
        assert(ident.contains(k));
        assert(s.to_multiset().count(k) > 0);
    }
}

} // verus!
