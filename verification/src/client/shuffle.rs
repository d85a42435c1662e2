//! The shuffle of extensions that Chrome has done since version 106, so
//! that servers do not come to rely on one order.
//!
//! The shuffle goes over the list from its last index down to 1. At index
//! `i` it draws an index `j` between 0 and `i` and swaps the two
//! extensions, unless one of them is GREASE, padding or pre_shared_key:
//! then the step does nothing. So these three keep their places, whatever
//! is drawn.

use rand::Rng;
use vstd::prelude::*;

use crate::client::impersonate::TlsExtension;

verus! {

// === The random source ===

/// `rand::rngs::ThreadRng`, of which nothing is known.
#[verifier::external_type_specification]
#[verifier::external_body]
pub struct ExThreadRng(rand::rngs::ThreadRng);

/// `rand::thread_rng`: a handle to the generator of the current thread.
/// Nothing is claimed of it.
pub assume_specification[ rand::thread_rng ]() -> rand::rngs::ThreadRng;

/// `Rng::gen_range` on the range from 0 up to, not including, `bound`:
/// some index of that range. The range must not be empty. Which index
/// comes back is left open.
#[verifier::external_body]
fn random_below(rng: &mut rand::rngs::ThreadRng, bound: usize) -> (j: usize)
    requires
        bound > 0,
    ensures
        j < bound,
{
    rng.gen_range(0..bound)
}

// === One step ===

/// The list after the step at index `i` with the draw `j`.
pub open spec fn swap_step(exts: Seq<TlsExtension>, i: int, j: int) -> Seq<TlsExtension> {
    if exts[i].spec_is_pinned() || exts[j].spec_is_pinned() {
        exts
    } else {
        exts.update(i, exts[j]).update(j, exts[i])
    }
}

/// Lets the extensions at `a` and `b` change places.
fn swap_extensions(exts: &mut Vec<TlsExtension>, a: usize, b: usize)
    requires
        a < old(exts)@.len(),
        b < old(exts)@.len(),
    ensures
        final(exts)@ == old(exts)@.update(a as int, old(exts)@[b as int]).update(
            b as int,
            old(exts)@[a as int],
        ),
{
    if a == b {
        assert(exts@ =~= exts@.update(a as int, exts@[a as int]));
        return ;
    }
    let (low, high) = if a < b {
        (a, b)
    } else {
        (b, a)
    };
    let (left, right) = exts.as_mut_slice().split_at_mut(high);
    core::mem::swap(&mut left[low], &mut right[0]);
}

/// One step of the shuffle: swaps the extensions at `i` and `j` unless
/// one of them keeps its place.
pub fn swap_unless_pinned(exts: &mut Vec<TlsExtension>, i: usize, j: usize)
    requires
        i < old(exts).len(),
        j < old(exts).len(),
    ensures
        final(exts)@ == swap_step(old(exts)@, i as int, j as int),
{
    if exts[i].is_pinned() || exts[j].is_pinned() {
        return ;
    }
    swap_extensions(exts, i, j);
}

// === A whole run ===

/// Whether `draws` can be the draws of one run over a list of `len`
/// extensions: one draw for each index from `len - 1` down to 1, in that
/// order, each between 0 and its index.
pub open spec fn valid_draws(len: nat, draws: Seq<int>) -> bool {
    &&& draws.len() == (if len == 0 {
        0
    } else {
        len - 1
    })
    &&& forall|k: int| 0 <= k < draws.len() ==> 0 <= #[trigger] draws[k] <= len - 1 - k
}

/// The list after the steps for the given draws: the first draw belongs
/// to the last index, the next to the index before it, and so on.
pub open spec fn shuffle_run(exts: Seq<TlsExtension>, draws: Seq<int>) -> Seq<TlsExtension>
    decreases draws.len(),
{
    if draws.len() == 0 {
        exts
    } else {
        swap_step(shuffle_run(exts, draws.drop_last()), exts.len() - draws.len(), draws.last())
    }
}

/// Whether `after` is what a run of the shuffle makes of `before`, for
/// some draws.
pub open spec fn is_chrome_shuffle(before: Seq<TlsExtension>, after: Seq<TlsExtension>) -> bool {
    exists|draws: Seq<int>| #[trigger]
        valid_draws(before.len(), draws) && after == shuffle_run(before, draws)
}

/// Shuffles the extensions as Chrome does. The result is a run of the
/// steps above with draws from the thread's random generator.
pub fn shuffle_chrome_tls_extensions(exts: Vec<TlsExtension>) -> (shuffled: Vec<TlsExtension>)
    ensures
        is_chrome_shuffle(exts@, shuffled@),
{
    let ghost before = exts@;
    let ghost mut draws: Seq<int> = Seq::empty();
    let mut exts = exts;
    let mut rng = rand::thread_rng();
    let mut i: usize = exts.len();
    while i > 1
        invariant
            i <= exts.len(),
            exts.len() >= 1 ==> i >= 1,
            exts.len() == before.len(),
            draws.len() == before.len() - i,
            forall|k: int| 0 <= k < draws.len() ==> 0 <= #[trigger] draws[k] <= before.len() - 1 - k,
            exts@ == shuffle_run(before, draws),
        decreases i,
    {
        i -= 1;
        let j = random_below(&mut rng, i + 1);
        swap_unless_pinned(&mut exts, i, j);
        proof {
            let next = draws.push(j as int);
            assert(next.drop_last() =~= draws);
            draws = next;
        }
    }
    assert(valid_draws(before.len(), draws));
    exts
}

// === Laws ===

proof fn lemma_swap_step(exts: Seq<TlsExtension>, i: int, j: int)
    requires
        0 <= i < exts.len(),
        0 <= j < exts.len(),
    ensures
        swap_step(exts, i, j).len() == exts.len(),
        swap_step(exts, i, j).to_multiset() == exts.to_multiset(),
        forall|k: int|
            0 <= k < exts.len() && (exts[k].spec_is_pinned() || (#[trigger] swap_step(
                exts,
                i,
                j,
            )[k]).spec_is_pinned()) ==> swap_step(exts, i, j)[k] == exts[k],
{
    broadcast use {
        vstd::seq_lib::to_multiset_update,
        vstd::seq_lib::to_multiset_contains,
        vstd::multiset::group_multiset_axioms,
    };

    if !(exts[i].spec_is_pinned() || exts[j].spec_is_pinned()) {
        let mid = exts.update(i, exts[j]);
        assert(exts.contains(exts[i]));
        assert(mid.contains(mid[j]));
        assert(mid.to_multiset() == exts.to_multiset().insert(exts[j]).remove(exts[i]));
        assert(mid.update(j, exts[i]).to_multiset() == mid.to_multiset().insert(exts[i]).remove(
            mid[j],
        ));
        assert(mid[j] == exts[j]);
        assert(mid.update(j, exts[i]).to_multiset() =~= exts.to_multiset());
    }
}

/// Whatever is drawn, a run of the shuffle rearranges the list and leaves
/// GREASE, padding and pre_shared_key where they were: the result has the
/// same extensions, as often as the list did, and at every index that held
/// one of the three, or holds one now, it holds what the list held there.
pub proof fn lemma_shuffle_keeps_pins(exts: Seq<TlsExtension>, draws: Seq<int>)
    requires
        draws.len() <= exts.len(),
        forall|k: int| 0 <= k < draws.len() ==> 0 <= #[trigger] draws[k] <= exts.len() - 1 - k,
    ensures
        shuffle_run(exts, draws).len() == exts.len(),
        shuffle_run(exts, draws).to_multiset() == exts.to_multiset(),
        forall|k: int|
            0 <= k < exts.len() && (exts[k].spec_is_pinned() || (#[trigger] shuffle_run(
                exts,
                draws,
            )[k]).spec_is_pinned()) ==> shuffle_run(exts, draws)[k] == exts[k],
    decreases draws.len(),
{
    if draws.len() > 0 {
        let earlier = shuffle_run(exts, draws.drop_last());
        lemma_shuffle_keeps_pins(exts, draws.drop_last());
        lemma_swap_step(earlier, exts.len() - draws.len(), draws.last());
    }
}

/// The same of any result of the shuffle: it has the extensions of the
/// list it was made from, and the three kinds that keep their place are
/// where they were.
pub proof fn lemma_chrome_shuffle_keeps_pins(before: Seq<TlsExtension>, after: Seq<TlsExtension>)
    requires
        is_chrome_shuffle(before, after),
    ensures
        after.len() == before.len(),
        after.to_multiset() == before.to_multiset(),
        forall|k: int|
            0 <= k < before.len() && (before[k].spec_is_pinned() || (
            #[trigger] after[k]).spec_is_pinned()) ==> after[k] == before[k],
{
    let draws = choose|draws: Seq<int>| #[trigger]
        valid_draws(before.len(), draws) && after == shuffle_run(before, draws);
    lemma_shuffle_keeps_pins(before, draws);
}

} // verus!
