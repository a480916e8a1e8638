//! Summation over sets of transaction ids.
//!
//! The ledger invariants tie each account's fields to sums of transfer
//! amounts over sets of transaction ids: the `held` funds to the sum over
//! the dispute set, and the `available` funds to a combination of sums over
//! the whole transfer store and the dispute and charged-back sets. This
//! module defines such sums and proves the facts the ledger needs: how a sum
//! changes when an id enters or leaves its set, that a sum of non-negative
//! contributions is never negative, that contributions outside the set do
//! not matter, and that a sum is bounded by the set's size times a bound on
//! its contributions.

use vstd::prelude::*;

use crate::records::Transfer;

verus! {

/// The sum, over every transaction id in `ids`, of its contribution
/// `f(id)`.
pub open spec fn sum_by(ids: Set<u32>, f: spec_fn(u32) -> int) -> int {
    ids.fold(0, |acc: int, tx: u32| acc + f(tx))
}

proof fn lemma_sum_fun_commutative(f: spec_fn(u32) -> int)
    ensures
        vstd::set::fold::is_fun_commutative(|acc: int, tx: u32| acc + f(tx)),
{
}

/// A sum over the empty set is zero.
pub proof fn lemma_sum_by_empty(f: spec_fn(u32) -> int)
    ensures
        sum_by(Set::empty(), f) == 0,
{
    vstd::set::fold::lemma_fold_empty(0int, |acc: int, tx: u32| acc + f(tx));
}

/// Adding an id not yet in the set raises the sum by exactly its
/// contribution.
pub proof fn lemma_sum_by_insert(ids: Set<u32>, f: spec_fn(u32) -> int, tx: u32)
    requires
        ids.finite(),
        !ids.contains(tx),
    ensures
        sum_by(ids.insert(tx), f) == sum_by(ids, f) + f(tx),
{
    lemma_sum_fun_commutative(f);
    vstd::set::fold::lemma_fold_insert(ids, 0int, |acc: int, tx: u32| acc + f(tx), tx);
}

/// Removing an id in the set lowers the sum by exactly its contribution.
pub proof fn lemma_sum_by_remove(ids: Set<u32>, f: spec_fn(u32) -> int, tx: u32)
    requires
        ids.finite(),
        ids.contains(tx),
    ensures
        sum_by(ids, f) == sum_by(ids.remove(tx), f) + f(tx),
{
    assert(ids.remove(tx).insert(tx) =~= ids);
    lemma_sum_by_insert(ids.remove(tx), f, tx);
}

/// A sum of non-negative contributions is never negative.
pub proof fn lemma_sum_by_nonneg(ids: Set<u32>, f: spec_fn(u32) -> int)
    requires
        ids.finite(),
        forall|tx: u32| ids.contains(tx) ==> f(tx) >= 0,
    ensures
        sum_by(ids, f) >= 0,
{
    let pred = |s: Set<u32>|
        s.finite() ==> ((forall|tx: u32| s.contains(tx) ==> f(tx) >= 0) ==> sum_by(s, f) >= 0);
    assert(pred(Set::empty())) by {
        lemma_sum_by_empty(f);
    }
    assert forall|s: Set<u32>, tx: u32| pred(s) && s.finite() && !s.contains(tx) implies #[trigger] pred(
        s.insert(tx),
    ) by {
        if forall|t: u32| s.insert(tx).contains(t) ==> f(t) >= 0 {
            assert(forall|t: u32| s.contains(t) ==> s.insert(tx).contains(t));
            lemma_sum_by_insert(s, f, tx);
            assert(s.insert(tx).contains(tx));
        }
    }
    vstd::set::fold::lemma_finite_set_induct(ids, pred);
}

/// A sum of vanishing contributions is zero.
pub proof fn lemma_sum_by_zero(ids: Set<u32>, f: spec_fn(u32) -> int)
    requires
        ids.finite(),
        forall|tx: u32| ids.contains(tx) ==> f(tx) == 0,
    ensures
        sum_by(ids, f) == 0,
{
    let pred = |s: Set<u32>|
        s.finite() ==> ((forall|tx: u32| s.contains(tx) ==> f(tx) == 0) ==> sum_by(s, f) == 0);
    assert(pred(Set::empty())) by {
        lemma_sum_by_empty(f);
    }
    assert forall|s: Set<u32>, tx: u32| pred(s) && s.finite() && !s.contains(tx) implies #[trigger] pred(
        s.insert(tx),
    ) by {
        if forall|t: u32| s.insert(tx).contains(t) ==> f(t) == 0 {
            assert(forall|t: u32| s.contains(t) ==> s.insert(tx).contains(t));
            lemma_sum_by_insert(s, f, tx);
            assert(s.insert(tx).contains(tx));
        }
    }
    vstd::set::fold::lemma_finite_set_induct(ids, pred);
}

/// Contributions outside the set do not matter: two contribution functions
/// that agree on every id in the set give the same sum.
pub proof fn lemma_sum_by_agree(ids: Set<u32>, f: spec_fn(u32) -> int, g: spec_fn(u32) -> int)
    requires
        ids.finite(),
        forall|tx: u32| ids.contains(tx) ==> f(tx) == g(tx),
    ensures
        sum_by(ids, f) == sum_by(ids, g),
{
    let pred = |s: Set<u32>|
        s.finite() ==> ((forall|tx: u32| s.contains(tx) ==> f(tx) == g(tx)) ==> sum_by(s, f)
            == sum_by(s, g));
    assert(pred(Set::empty())) by {
        lemma_sum_by_empty(f);
        lemma_sum_by_empty(g);
    }
    assert forall|s: Set<u32>, tx: u32| pred(s) && s.finite() && !s.contains(tx) implies #[trigger] pred(
        s.insert(tx),
    ) by {
        if forall|t: u32| s.insert(tx).contains(t) ==> f(t) == g(t) {
            assert(forall|t: u32| s.contains(t) ==> s.insert(tx).contains(t));
            lemma_sum_by_insert(s, f, tx);
            lemma_sum_by_insert(s, g, tx);
            assert(s.insert(tx).contains(tx));
        }
    }
    vstd::set::fold::lemma_finite_set_induct(ids, pred);
}

/// A sum is at most the set's size times any bound on its contributions.
pub proof fn lemma_sum_by_bounded(ids: Set<u32>, f: spec_fn(u32) -> int, bound: int)
    requires
        ids.finite(),
        forall|tx: u32| ids.contains(tx) ==> f(tx) <= bound,
    ensures
        sum_by(ids, f) <= ids.len() * bound,
{
    let pred = |s: Set<u32>|
        s.finite() ==> ((forall|tx: u32| s.contains(tx) ==> f(tx) <= bound) ==> sum_by(s, f)
            <= s.len() * bound);
    assert(pred(Set::empty())) by {
        lemma_sum_by_empty(f);
    }
    assert forall|s: Set<u32>, tx: u32| pred(s) && s.finite() && !s.contains(tx) implies #[trigger] pred(
        s.insert(tx),
    ) by {
        if forall|t: u32| s.insert(tx).contains(t) ==> f(t) <= bound {
            assert(forall|t: u32| s.contains(t) ==> s.insert(tx).contains(t));
            lemma_sum_by_insert(s, f, tx);
            assert(s.insert(tx).contains(tx));
            assert(s.insert(tx).len() == s.len() + 1);
            assert((s.len() + 1) * bound == s.len() * bound + bound) by (nonlinear_arith);
        }
    }
    vstd::set::fold::lemma_finite_set_induct(ids, pred);
}

/// No set of transaction ids has more members than there are 32-bit ids.
pub proof fn lemma_id_set_len_bounded(ids: Set<u32>)
    requires
        ids.finite(),
    ensures
        ids.len() <= 0x1_0000_0000,
{
    let every_id = <u32 as vstd::set_lib::FiniteRange>::range_set(0u32, u32::MAX).insert(u32::MAX);
    <u32 as vstd::set_lib::FiniteRange>::range_properties(0u32, u32::MAX);
    assert(!<u32 as vstd::set_lib::FiniteRange>::range_set(0u32, u32::MAX).contains(u32::MAX));
    assert(forall|tx: u32| ids.contains(tx) ==> every_id.contains(tx));
    vstd::set_lib::lemma_len_subset(ids, every_id);
}

/// What a single transaction id contributes to a per-client sum of
/// transfer amounts: the amount of its recorded transfer when that transfer
/// belongs to `client`, and zero otherwise.
pub open spec fn transfer_contribution(
    transfers: Map<u32, Transfer>,
    client: u16,
    tx: u32,
) -> int {
    if transfers.contains_key(tx) && transfers[tx].client_id.id == client {
        transfers[tx].amount.units as int
    } else {
        0
    }
}

/// The sum, over every transaction id in `ids`, of the amount of its
/// recorded transfer, counting only transfers that belong to `client`.
pub open spec fn amount_sum(ids: Set<u32>, transfers: Map<u32, Transfer>, client: u16) -> int {
    sum_by(ids, |tx: u32| transfer_contribution(transfers, client, tx))
}

/// Adding a transaction id not yet in the set raises the sum by exactly
/// that id's contribution.
pub proof fn lemma_amount_sum_insert(
    ids: Set<u32>,
    transfers: Map<u32, Transfer>,
    client: u16,
    tx: u32,
)
    requires
        ids.finite(),
        !ids.contains(tx),
    ensures
        amount_sum(ids.insert(tx), transfers, client) == amount_sum(ids, transfers, client)
            + transfer_contribution(transfers, client, tx),
{
    lemma_sum_by_insert(ids, |tx: u32| transfer_contribution(transfers, client, tx), tx);
}

/// Removing a transaction id in the set lowers the sum by exactly that
/// id's contribution.
pub proof fn lemma_amount_sum_remove(
    ids: Set<u32>,
    transfers: Map<u32, Transfer>,
    client: u16,
    tx: u32,
)
    requires
        ids.finite(),
        ids.contains(tx),
    ensures
        amount_sum(ids, transfers, client) == amount_sum(ids.remove(tx), transfers, client)
            + transfer_contribution(transfers, client, tx),
{
    lemma_sum_by_remove(ids, |tx: u32| transfer_contribution(transfers, client, tx), tx);
}

/// A sum of transfer amounts is never negative.
pub proof fn lemma_amount_sum_nonneg(ids: Set<u32>, transfers: Map<u32, Transfer>, client: u16)
    requires
        ids.finite(),
    ensures
        amount_sum(ids, transfers, client) >= 0,
{
    lemma_sum_by_nonneg(ids, |tx: u32| transfer_contribution(transfers, client, tx));
}

} // verus!
