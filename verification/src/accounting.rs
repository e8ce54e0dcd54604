//! The cross-operation accounting law of a campaign.
//!
//! A successful contribution grows the campaign's tracked total, the
//! pooled custody balance, and exactly one contribution record by the
//! same amount (see the contribute operation's contract). These lemmas
//! state the consequence over whole campaign histories: starting from a
//! freshly opened campaign, after any sequence of successful
//! contributions the tracked total equals the pooled custody balance and
//! the sum of all live contribution records' amounts.

use vstd::prelude::*;

verus! {

/// The sum of a sequence of contribution amounts.
pub open spec fn sum_amounts(s: Seq<u64>) -> int
    decreases s.len(),
{
    if s.len() == 0 {
        0
    } else {
        sum_amounts(s.drop_last()) + s.last()
    }
}

/// Replacing one entry moves the sum by the difference.
pub proof fn lemma_sum_update(s: Seq<u64>, i: int, v: u64)
    requires
        0 <= i < s.len(),
    ensures
        sum_amounts(s.update(i, v)) == sum_amounts(s) - s[i] + v,
    decreases s.len(),
{
    if i == s.len() - 1 {
        assert(s.update(i, v).drop_last() =~= s.drop_last());
    } else {
        lemma_sum_update(s.drop_last(), i, v);
        assert(s.update(i, v).drop_last() =~= s.drop_last().update(i, v));
        assert(s.update(i, v).last() == s.last());
    }
}

/// Appending an entry adds it to the sum.
pub proof fn lemma_sum_push(s: Seq<u64>, v: u64)
    ensures
        sum_amounts(s.push(v)) == sum_amounts(s) + v,
{
    assert(s.push(v).drop_last() =~= s);
}

/// The accounting invariant of one campaign: the tracked total equals the
/// sum of all live contribution records' amounts, and equals the pooled
/// custody balance.
pub open spec fn accounting_ok(current_amount: u64, records: Seq<u64>, vault_amount: u64) -> bool {
    &&& current_amount == sum_amounts(records)
    &&& current_amount == vault_amount
}

/// A freshly opened campaign satisfies the accounting invariant: no live
/// contribution records, an empty pool, and a zero tracked total.
pub proof fn lemma_open_establishes_accounting()
    ensures
        accounting_ok(0, Seq::<u64>::empty(), 0),
{
}

/// A successful contribution preserves the accounting invariant.
///
/// The requires clauses are exactly what the contribute operation's
/// contract establishes on success: the tracked total and the custody
/// balance grow by the deposited amount, and the deposit lands entirely in
/// one contribution record, either growing the live record at position `i`
/// or appending a fresh one. By induction over a campaign's history, the
/// tracked total therefore always equals the sum of all transferred
/// amounts and the sum of all live records.
pub proof fn lemma_contribute_preserves_accounting(
    pre_current: u64,
    post_current: u64,
    pre_records: Seq<u64>,
    post_records: Seq<u64>,
    pre_vault: u64,
    post_vault: u64,
    amount: u64,
    i: int,
)
    requires
        accounting_ok(pre_current, pre_records, pre_vault),
        post_current == pre_current + amount,
        post_vault == pre_vault + amount,
        0 <= i <= pre_records.len(),
        i < pre_records.len() ==> pre_records[i] + amount <= u64::MAX && post_records
            == pre_records.update(i, (pre_records[i] + amount) as u64),
        i == pre_records.len() ==> post_records == pre_records.push(amount),
    ensures
        accounting_ok(post_current, post_records, post_vault),
{
    if i < pre_records.len() {
        lemma_sum_update(pre_records, i, (pre_records[i] + amount) as u64);
    } else {
        lemma_sum_push(pre_records, amount);
    }
}

/// A successful refund removes exactly one live record and pays exactly
/// its amount out of custody, so the remaining records again sum to the
/// remaining pool. The tracked total is deliberately not adjusted by a
/// refund, so it keeps counting the refunded deposit; only the record sum
/// and the custody balance stay aligned.
pub proof fn lemma_refund_keeps_records_matching_pool(
    pre_records: Seq<u64>,
    post_records: Seq<u64>,
    pre_vault: u64,
    post_vault: u64,
    i: int,
)
    requires
        sum_amounts(pre_records) == pre_vault,
        0 <= i < pre_records.len(),
        pre_records[i] <= pre_vault,
        post_records == pre_records.remove(i),
        post_vault == pre_vault - pre_records[i],
    ensures
        sum_amounts(post_records) == post_vault,
{
    lemma_sum_remove(pre_records, i);
}

/// Removing one entry subtracts it from the sum.
pub proof fn lemma_sum_remove(s: Seq<u64>, i: int)
    requires
        0 <= i < s.len(),
    ensures
        sum_amounts(s.remove(i)) == sum_amounts(s) - s[i],
    decreases s.len(),
{
    if i == s.len() - 1 {
        assert(s.remove(i) =~= s.drop_last());
    } else {
        lemma_sum_remove(s.drop_last(), i);
        assert(s.remove(i).drop_last() =~= s.drop_last().remove(i));
        assert(s.remove(i).last() == s.last());
    }
}

} // verus!
