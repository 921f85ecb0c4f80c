//! Laws of the escrow contract: how fees and splits divide an escrow's
//! funds, which states are final, what a pause blocks, who may refund, and
//! the settlement-contract timelock.

use vstd::prelude::*;
use crate::escrow::{
    DEFAULT_ESCROW_EXPIRY_SECONDS, EscrowError, EscrowFailure, EscrowView, FleetRoute, Payout,
    PendingSettlementContract, PayoutInstruction, SETTLEMENT_CONTRACT_TIMELOCK_SECONDS,
    SettlementSwap, VolumeTier,
    admin_failure, batch_entry_failure, batch_total, discounted_fee_bps, fee_of, fresh_escrow,
    payout_plan, sat_add_u64,
};
use crate::math::{clamp_i128, div_toward_zero};
use crate::types::{Addr, EscrowRecord, EscrowStatus, FaniLabError, Transfer};

verus! {

proof fn lemma_fee_bounds(amount: int, bps: int)
    requires
        0 <= amount <= i128::MAX,
        0 <= bps <= 10000,
    ensures
        0 <= div_toward_zero(clamp_i128(amount * bps), 10000) <= amount,
{
    assert(amount * bps >= 0) by (nonlinear_arith)
        requires
            amount >= 0,
            bps >= 0,
    ;
    assert(amount * bps <= amount * 10000) by (nonlinear_arith)
        requires
            amount >= 0,
            bps <= 10000,
    ;
    let p = clamp_i128(amount * bps);
    assert(p <= amount * 10000);
    assert(p / 10000 <= amount) by (nonlinear_arith)
        requires
            0 <= p <= amount * 10000,
    ;
}

/// The platform fee on a non-negative amount, at a rate of at most 100%,
/// is never negative and never more than the amount.
pub proof fn law_fee_within_amount(amount: i128, bps: u32)
    requires
        amount >= 0,
        bps <= 10000,
    ensures
        0 <= fee_of(amount, bps) <= amount,
{
    lemma_fee_bounds(amount as int, bps as int);
}

/// A zero rate charges no fee, and nothing is charged on a zero amount.
pub proof fn law_fee_zero(amount: i128, bps: u32)
    ensures
        fee_of(amount, 0) == 0,
        fee_of(0, bps) == 0,
{
    assert(amount * 0 == 0);
}

/// A volume discount never raises the fee rate above the base rate.
pub proof fn law_discount_never_exceeds_base(tiers: Seq<VolumeTier>, base: u32, volume: u32)
    ensures
        discounted_fee_bps(tiers, base, volume) <= base,
    decreases tiers.len(),
{
    if tiers.len() > 0 && volume < tiers.last().volume_threshold {
        law_discount_never_exceeds_base(tiers.drop_last(), base, volume);
    }
}

/// Splitting a disputed escrow of non-negative amount between sender and
/// driver conserves its funds: the two shares are non-negative and add up
/// to the amount.
pub proof fn law_split_conserves_funds(v: EscrowView, id: u64, sender_share_bps: u32)
    requires
        v.escrows.contains_key(id),
        v.record(id).amount >= 0,
        sender_share_bps <= 10000,
    ensures
        v.split_of(id, sender_share_bps).sender_amount >= 0,
        v.split_of(id, sender_share_bps).driver_amount >= 0,
        v.split_of(id, sender_share_bps).sender_amount + v.split_of(
            id,
            sender_share_bps,
        ).driver_amount == v.record(id).amount,
{
    lemma_fee_bounds(v.record(id).amount as int, sender_share_bps as int);
}

/// The total amount an instruction sequence moves, counting a swap by what
/// it takes in.
pub open spec fn moved_total(s: Seq<PayoutInstruction>) -> int
    decreases s.len(),
{
    if s.len() == 0 {
        0
    } else {
        moved_total(s.drop_last()) + match s.last() {
            PayoutInstruction::Transfer(t) => t.amount as int,
            PayoutInstruction::Swap(w) => w.amount as int,
        }
    }
}

/// Releasing an escrow of non-negative amount, at a base fee of at most
/// 100% (less any volume discount), pays out exactly its funds: the
/// driver's share and the platform fee are non-negative and add up to the
/// amount, and when the payout can be carried out its instructions move
/// that amount in total.
pub proof fn law_release_pays_out_escrow(
    v: EscrowView,
    rec: EscrowRecord,
    fleet_payout_address: Addr,
    preferred_asset: Option<Addr>,
)
    requires
        rec.amount >= 0,
        v.base_fee_bps() <= 10000,
    ensures
        v.payout_for(rec).driver_amount >= 0,
        v.payout_for(rec).platform_fee >= 0,
        v.payout_for(rec).driver_amount + v.payout_for(rec).platform_fee == rec.amount,
        payout_plan(v.payout_for(rec), fleet_payout_address, preferred_asset) matches Ok(s)
            ==> moved_total(s) == rec.amount,
{
    law_discount_never_exceeds_base(v.volume_tiers, v.base_fee_bps(), v.volume_of(rec.sender));
    lemma_fee_bounds(rec.amount as int, v.fee_bps_for(rec.sender) as int);
    let p = v.payout_for(rec);
    let dest = if p.fleet_route is Some { fleet_payout_address } else { p.driver };
    let direct = PayoutInstruction::Transfer(
        Transfer { token: p.token, from: p.payer, to: dest, amount: p.driver_amount },
    );
    let fee_part = PayoutInstruction::Transfer(
        Transfer { token: p.token, from: p.payer, to: p.fee_recipient->0, amount: p.platform_fee },
    );
    let e = Seq::<PayoutInstruction>::empty();
    assert(moved_total(e) == 0);
    assert(e.push(fee_part).drop_last() =~= e);
    assert(moved_total(e.push(fee_part)) == p.platform_fee);
    if let Ok(s) = payout_plan(p, fleet_payout_address, preferred_asset) {
        if p.driver_amount <= 0 {
            if p.platform_fee > 0 {
                assert(s =~= e.push(fee_part));
            } else {
                assert(s =~= e);
            }
        } else {
            let first = s[0];
            let one = seq![first];
            assert(one.drop_last() =~= e);
            assert(moved_total(one) == p.driver_amount);
            assert(one.push(fee_part).drop_last() =~= one);
            if p.platform_fee > 0 {
                assert(s =~= one.push(fee_part));
            } else {
                assert(s =~= one);
            }
        }
    }
}

/// Whether an escrow in status `s` is settled for good.
pub open spec fn is_settled(s: EscrowStatus) -> bool {
    s == EscrowStatus::Released || s == EscrowStatus::Refunded || s == EscrowStatus::Split
}

/// Settled escrows are final: once released, refunded or split, no entry
/// point can move an escrow again, and the dispute contract's freeze leaves
/// it as it is.
pub proof fn law_settled_escrows_are_final(
    v: EscrowView,
    id: u64,
    caller: Addr,
    balance: i128,
    release_to_driver: bool,
    sender_share_bps: u32,
    now: u64,
)
    requires
        v.escrows.contains_key(id),
        is_settled(v.record(id).status),
    ensures
        v.holdback_failure(caller, id) is Some,
        v.release_failure(caller, id, balance) is Some,
        v.holdback_release_failure(caller, id, balance) is Some,
        v.refund_failure(caller, id, balance) is Some,
        v.dispute_failure(caller, id) is Some,
        v.resolve_failure(caller, id, balance) is Some,
        v.split_failure(caller, id, sender_share_bps, balance) is Some,
        v.reclaim_failure(id, now, balance) is Some,
        !(v.record(id).status == EscrowStatus::Locked || v.record(id).status
            == EscrowStatus::Holdback),
{
}

/// While the protocol is paused no funds move: creating, confirming,
/// releasing, refunding, resolving, splitting and reclaiming escrows and
/// sweeping untracked tokens all fail with `ProtocolPaused`; disputes and
/// freezes, which move no funds, stay available.
pub proof fn law_pause_blocks_fund_movement(
    v: EscrowView,
    id: u64,
    caller: Addr,
    token: Addr,
    amount: i128,
    list: Seq<(u64, Addr, i128)>,
    balance: i128,
    sender_share_bps: u32,
    now: u64,
)
    requires
        v.paused,
    ensures
        ({
            let paused = Some(EscrowFailure::Protocol(FaniLabError::ProtocolPaused));
            &&& v.create_failure(id, token, amount) == paused
            &&& v.batch_failure(token, list) == paused
            &&& v.holdback_failure(caller, id) == paused
            &&& v.release_failure(caller, id, balance) == paused
            &&& v.holdback_release_failure(caller, id, balance) == paused
            &&& v.refund_failure(caller, id, balance) == paused
            &&& v.resolve_failure(caller, id, balance) == paused
            &&& v.split_failure(caller, id, sender_share_bps, balance) == paused
            &&& v.reclaim_failure(id, now, balance) == paused
            &&& v.sweep_failure(caller) == paused
        }),
        v.dispute_failure(caller, id) != Some(EscrowFailure::Protocol(FaniLabError::ProtocolPaused)),
        v.freeze_failure(caller, id) != Some(EscrowFailure::Protocol(FaniLabError::ProtocolPaused)),
{
}

/// Once an escrow is disputed (`Paused`) or its delivery confirmed
/// (`Holdback`), only the admin may refund it: any other caller, the sender
/// included, is refused with `Unauthorized`.
pub proof fn law_only_admin_refunds_after_dispute_or_delivery(
    v: EscrowView,
    caller: Addr,
    id: u64,
    balance: i128,
)
    requires
        !v.paused,
        v.escrows.contains_key(id),
        v.record(id).status == EscrowStatus::Paused || v.record(id).status
            == EscrowStatus::Holdback,
        !v.is_admin(caller),
    ensures
        v.refund_failure(caller, id, balance) == Some(
            EscrowFailure::Protocol(FaniLabError::Unauthorized),
        ),
{
}

/// The settlement timelock: a settlement contract proposed at `proposed_at`
/// cannot be confirmed before [`SETTLEMENT_CONTRACT_TIMELOCK_SECONDS`] have
/// passed, and can be from then on.
pub proof fn law_settlement_timelock(
    v: EscrowView,
    admin: Addr,
    settlement_contract: Addr,
    proposed_at: u64,
    now: u64,
)
    requires
        admin_failure(v.admin, admin) is None,
        proposed_at + SETTLEMENT_CONTRACT_TIMELOCK_SECONDS <= u64::MAX,
    ensures
        ({
            let proposed = EscrowView {
                pending_settlement: Some(
                    PendingSettlementContract {
                        settlement_contract,
                        activates_at: sat_add_u64(proposed_at, SETTLEMENT_CONTRACT_TIMELOCK_SECONDS),
                    },
                ),
                ..v
            };
            &&& now < proposed_at + SETTLEMENT_CONTRACT_TIMELOCK_SECONDS ==> proposed.confirm_failure(admin, now) == Some(EscrowFailure::Escrow(EscrowError::TimelockNotElapsed))
            &&& proposed_at + SETTLEMENT_CONTRACT_TIMELOCK_SECONDS <= now ==> proposed.confirm_failure(admin, now) is None
        }),
{
}

/// The two-step admin handover: once the admin names a successor, the
/// successor can take over, leaving no successor pending, and nobody else
/// can.
pub proof fn law_admin_handover(v: EscrowView, current_admin: Addr, new_admin: Addr, other: Addr)
    requires
        admin_failure(v.admin, current_admin) is None,
        other != new_admin,
    ensures
        ({
            let proposed = EscrowView { pending_admin: Some(new_admin), ..v };
            &&& proposed.accept_failure(new_admin) is None
            &&& proposed.accept_failure(other) == Some(
                EscrowFailure::Protocol(FaniLabError::Unauthorized),
            )
            &&& (EscrowView { admin: Some(new_admin), pending_admin: None, ..proposed }).accept_failure(
                new_admin,
            ) == Some(EscrowFailure::Protocol(FaniLabError::InvalidState))
        }),
{
}

/// An escrow created at `created_at` cannot be reclaimed as expired until
/// [`DEFAULT_ESCROW_EXPIRY_SECONDS`] have passed.
pub proof fn law_no_reclaim_before_expiry(
    v: EscrowView,
    id: u64,
    sender: Addr,
    recipient: Addr,
    driver: Addr,
    token: Addr,
    amount: i128,
    fleet_id: Option<u64>,
    created_at: u64,
    now: u64,
    balance: i128,
)
    requires
        !v.paused,
        now <= created_at + DEFAULT_ESCROW_EXPIRY_SECONDS,
    ensures
        v.with_escrow(id, fresh_escrow(sender, recipient, driver, token, amount, created_at, fleet_id)).reclaim_failure(
            id,
            now,
            balance,
        ) == Some(EscrowFailure::Escrow(EscrowError::InvalidState)),
{
}

/// Whether an escrow in status `s` still holds its funds.
pub open spec fn holds_funds(s: EscrowStatus) -> bool {
    s == EscrowStatus::Locked || s == EscrowStatus::Paused || s == EscrowStatus::Holdback
}

/// What escrow `rec` holds in `token`.
pub open spec fn held_in(rec: EscrowRecord, token: Addr) -> int {
    if rec.token == token && holds_funds(rec.status) {
        rec.amount as int
    } else {
        0
    }
}

/// What the escrows `ids` of `m` hold in `token`, together.
pub open spec fn held_sum(m: Map<u64, EscrowRecord>, ids: Set<u64>, token: Addr) -> int
    decreases ids.len(),
    when ids.finite()
{
    if ids.len() == 0 {
        0
    } else {
        let x = ids.choose();
        held_in(m[x], token) + held_sum(m, ids.remove(x), token)
    }
}

/// What all escrows hold in `token`, together.
pub open spec fn held_total(v: EscrowView, token: Addr) -> int {
    held_sum(v.escrows, v.escrows.dom(), token)
}

/// The accounting invariant: in every token, the value recorded as locked
/// is what the escrows still hold.
pub open spec fn locked_total_accurate(v: EscrowView) -> bool {
    &&& v.escrows.dom().finite()
    &&& forall|t: Addr| #[trigger] v.locked_in(t) == held_total(v, t)
}

proof fn lemma_held_sum_remove(m: Map<u64, EscrowRecord>, ids: Set<u64>, y: u64, token: Addr)
    requires
        ids.finite(),
        ids.contains(y),
    ensures
        held_sum(m, ids, token) == held_in(m[y], token) + held_sum(m, ids.remove(y), token),
    decreases ids.len(),
{
    assert(ids.len() > 0) by {
        if ids.len() == 0 {
            assert(ids =~= Set::<u64>::empty());
        }
    }
    let x = ids.choose();
    if x != y {
        lemma_held_sum_remove(m, ids.remove(x), y, token);
        lemma_held_sum_remove(m, ids.remove(y), x, token);
        assert(ids.remove(x).remove(y) =~= ids.remove(y).remove(x));
    }
}

proof fn lemma_held_sum_frame(m1: Map<u64, EscrowRecord>, m2: Map<u64, EscrowRecord>, ids: Set<u64>, token: Addr)
    requires
        ids.finite(),
        forall|x: u64| #[trigger] ids.contains(x) ==> held_in(m1[x], token) == held_in(m2[x], token),
    ensures
        held_sum(m1, ids, token) == held_sum(m2, ids, token),
    decreases ids.len(),
{
    if ids.len() > 0 {
        let x = ids.choose();
        assert(ids.contains(x)) by {
            if !ids.contains(x) {
                assert(ids =~= Set::<u64>::empty());
            }
        }
        lemma_held_sum_frame(m1, m2, ids.remove(x), token);
    }
}

/// Storing `rec` as escrow `x` changes what the escrows hold in `token` by
/// what `rec` holds less what the escrow it replaces held.
proof fn lemma_held_after_insert(m: Map<u64, EscrowRecord>, x: u64, rec: EscrowRecord, token: Addr)
    requires
        m.dom().finite(),
    ensures
        m.insert(x, rec).dom().finite(),
        held_sum(m.insert(x, rec), m.insert(x, rec).dom(), token) == held_sum(m, m.dom(), token)
            - (if m.contains_key(x) { held_in(m[x], token) } else { 0 }) + held_in(rec, token),
{
    let m2 = m.insert(x, rec);
    let rest = m.dom().remove(x);
    assert(m2.dom().remove(x) =~= rest);
    lemma_held_sum_remove(m2, m2.dom(), x, token);
    lemma_held_sum_frame(m2, m, rest, token);
    if m.contains_key(x) {
        lemma_held_sum_remove(m, m.dom(), x, token);
    } else {
        assert(rest =~= m.dom());
    }
}

/// A freshly deployed escrow contract keeps accurate accounts.
pub proof fn law_locked_total_accurate_initially(v: EscrowView)
    requires
        v.escrows == Map::<u64, EscrowRecord>::empty(),
        v.total_locked == Map::<Addr, i128>::empty(),
    ensures
        locked_total_accurate(v),
{
    assert(v.escrows.dom() =~= Set::<u64>::empty());
    assert forall|t: Addr| #[trigger] v.locked_in(t) == held_total(v, t) by {
        assert(v.escrows.dom().len() == 0);
    }
}

/// Creating an escrow keeps the accounts accurate: the value locked in its
/// token grows by exactly its amount (as long as that does not overflow).
pub proof fn law_locked_total_after_create(
    v: EscrowView,
    sender: Addr,
    recipient: Addr,
    driver: Addr,
    id: u64,
    token: Addr,
    amount: i128,
    fleet_id: Option<u64>,
    now: u64,
)
    requires
        locked_total_accurate(v),
        v.create_failure(id, token, amount) is None,
        v.locked_in(token) + amount <= i128::MAX,
    ensures
        locked_total_accurate(
            v.with_new_escrow(
                id,
                fresh_escrow(sender, recipient, driver, token, amount, now, fleet_id),
            ).with_locked(token, amount),
        ),
{
    let rec = fresh_escrow(sender, recipient, driver, token, amount, now, fleet_id);
    let w = v.with_new_escrow(id, rec).with_locked(token, amount);
    assert forall|t: Addr| #[trigger] w.locked_in(t) == held_total(w, t) by {
        lemma_held_after_insert(v.escrows, id, rec, t);
        assert(v.locked_in(t) == held_total(v, t));
    }
    lemma_held_after_insert(v.escrows, id, rec, token);
}

/// Changing a fund-holding escrow's status to another that holds funds
/// (holdback, dispute, freeze) keeps the accounts accurate.
pub proof fn law_locked_total_after_status_change(v: EscrowView, id: u64, rec: EscrowRecord)
    requires
        locked_total_accurate(v),
        v.escrows.contains_key(id),
        holds_funds(v.record(id).status),
        holds_funds(rec.status),
        rec.token == v.record(id).token,
        rec.amount == v.record(id).amount,
    ensures
        locked_total_accurate(v.with_escrow(id, rec)),
{
    let w = v.with_escrow(id, rec);
    assert forall|t: Addr| #[trigger] w.locked_in(t) == held_total(w, t) by {
        lemma_held_after_insert(v.escrows, id, rec, t);
        assert(v.locked_in(t) == held_total(v, t));
    }
    lemma_held_after_insert(v.escrows, id, rec, rec.token);
}

/// Settling a fund-holding escrow (releasing, refunding or splitting it)
/// keeps the accounts accurate: the value locked in its token shrinks by
/// exactly its amount (as long as that does not overflow). Every entry
/// point that settles an escrow does so only from a status that holds funds.
pub proof fn law_locked_total_after_settle(v: EscrowView, id: u64, status: EscrowStatus)
    requires
        locked_total_accurate(v),
        v.escrows.contains_key(id),
        holds_funds(v.record(id).status),
        !holds_funds(status),
        v.locked_in(v.record(id).token) - v.record(id).amount >= i128::MIN,
        v.locked_in(v.record(id).token) - v.record(id).amount <= i128::MAX,
    ensures
        locked_total_accurate(v.with_settled(id, status)),
        locked_total_accurate(v.with_volume_bumped(v.record(id).sender).with_settled(id, status)),
{
    let old_rec = v.record(id);
    let rec = EscrowRecord { status, ..old_rec };
    let w = v.with_settled(id, status);
    assert forall|t: Addr| #[trigger] w.locked_in(t) == held_total(w, t) by {
        lemma_held_after_insert(v.escrows, id, rec, t);
        assert(v.locked_in(t) == held_total(v, t));
    }
    lemma_held_after_insert(v.escrows, id, rec, old_rec.token);
    let u = v.with_volume_bumped(old_rec.sender);
    let w2 = u.with_settled(id, status);
    assert(w2.escrows == w.escrows);
    assert(w2.total_locked == w.total_locked);
    assert forall|t: Addr| #[trigger] w2.locked_in(t) == held_total(w2, t) by {
        assert(w.locked_in(t) == held_total(w, t));
    }
}

/// The sum of a batch's amounts.
pub open spec fn plain_sum(list: Seq<(u64, Addr, i128)>) -> int
    decreases list.len(),
{
    if list.len() == 0 {
        0
    } else {
        plain_sum(list.drop_last()) + list.last().2
    }
}

/// Whether a batch's entries all have positive amounts and ids that are
/// new to `m` and to each other.
pub open spec fn entries_fresh(m: Map<u64, EscrowRecord>, list: Seq<(u64, Addr, i128)>) -> bool {
    &&& forall|k: int| 0 <= k < list.len() ==> (#[trigger] list[k]).2 > 0 && !m.contains_key(list[k].0)
    &&& forall|j: int, k: int| 0 <= j < k < list.len() ==> (#[trigger] list[j]).0 != (#[trigger] list[k]).0
}

proof fn lemma_accepted_batch_is_fresh(m: Map<u64, EscrowRecord>, list: Seq<(u64, Addr, i128)>)
    requires
        batch_entry_failure(m, list) is None,
    ensures
        entries_fresh(m, list),
    decreases list.len(),
{
    if list.len() > 0 {
        let pre = list.drop_last();
        lemma_accepted_batch_is_fresh(m, pre);
        let n = list.len() - 1;
        assert forall|j: int, k: int| 0 <= j < k < list.len() implies (#[trigger] list[j]).0 != (
        #[trigger] list[k]).0 by {
            if k < n {
                assert(pre[j] == list[j] && pre[k] == list[k]);
            } else {
                if list[j].0 == list[k].0 {
                    assert(list[j].0 == list.last().0);
                    assert(exists|i: int| 0 <= i < list.len() - 1 && #[trigger] list[i].0 == list.last().0);
                }
            }
        }
        assert forall|k: int| 0 <= k < list.len() implies (#[trigger] list[k]).2 > 0 && !m.contains_key(
            list[k].0,
        ) by {
            if k < n {
                assert(pre[k] == list[k]);
            }
        }
    }
}

proof fn lemma_batch_total_exact(list: Seq<(u64, Addr, i128)>)
    requires
        forall|k: int| 0 <= k < list.len() ==> (#[trigger] list[k]).2 > 0,
        plain_sum(list) <= i128::MAX,
    ensures
        batch_total(list) == plain_sum(list),
        plain_sum(list) >= 0,
    decreases list.len(),
{
    if list.len() > 0 {
        let pre = list.drop_last();
        assert forall|k: int| 0 <= k < pre.len() implies (#[trigger] pre[k]).2 > 0 by {
            assert(pre[k] == list[k]);
        }
        assert(list.last().2 > 0);
        lemma_batch_total_exact(pre);
    }
}

proof fn lemma_batch_holdings(
    v: EscrowView,
    sender: Addr,
    recipient: Addr,
    token: Addr,
    list: Seq<(u64, Addr, i128)>,
    now: u64,
    t: Addr,
)
    requires
        v.escrows.dom().finite(),
        entries_fresh(v.escrows, list),
    ensures
        v.with_batch(sender, recipient, token, list, now).escrows.dom().finite(),
        forall|id: u64| #[trigger] v.with_batch(sender, recipient, token, list, now).escrows.contains_key(id)
            ==> v.escrows.contains_key(id) || exists|k: int| 0 <= k < list.len() && list[k].0 == id,
        v.with_batch(sender, recipient, token, list, now).total_locked == v.total_locked,
        held_total(v.with_batch(sender, recipient, token, list, now), t) == held_total(v, t) + if t
            == token {
            plain_sum(list)
        } else {
            0
        },
    decreases list.len(),
{
    if list.len() > 0 {
        let pre = list.drop_last();
        assert forall|k: int| 0 <= k < pre.len() implies (#[trigger] pre[k]).2 > 0 && !v.escrows.contains_key(
            pre[k].0,
        ) by {
            assert(pre[k] == list[k]);
        }
        assert forall|j: int, k: int| 0 <= j < k < pre.len() implies (#[trigger] pre[j]).0 != (
        #[trigger] pre[k]).0 by {
            assert(pre[j] == list[j] && pre[k] == list[k]);
        }
        lemma_batch_holdings(v, sender, recipient, token, pre, now, t);
        let u = v.with_batch(sender, recipient, token, pre, now);
        let (id, driver, amount) = list.last();
        let rec = fresh_escrow(sender, recipient, driver, token, amount, now, None);
        lemma_held_after_insert(u.escrows, id, rec, t);
        if u.escrows.contains_key(id) {
            if v.escrows.contains_key(id) {
                assert(list[list.len() - 1].0 == id);
            } else {
                let k = choose|k: int| 0 <= k < pre.len() && pre[k].0 == id;
                assert(list[k].0 == list[list.len() - 1].0);
            }
        }
        let w = v.with_batch(sender, recipient, token, list, now);
        assert forall|x: u64| #[trigger] w.escrows.contains_key(x) implies v.escrows.contains_key(x)
            || exists|k: int| 0 <= k < list.len() && list[k].0 == x by {
            if x != id && !v.escrows.contains_key(x) {
                let k = choose|k: int| 0 <= k < pre.len() && pre[k].0 == x;
                assert(list[k].0 == x);
            } else if x == id {
                assert(list[list.len() - 1].0 == x);
            }
        }
    }
}

/// Creating a batch of escrows keeps the accounts accurate: the value
/// locked in the batch's token grows by exactly the batch's total (as long
/// as that does not overflow).
pub proof fn law_locked_total_after_batch(
    v: EscrowView,
    sender: Addr,
    recipient: Addr,
    token: Addr,
    list: Seq<(u64, Addr, i128)>,
    now: u64,
)
    requires
        locked_total_accurate(v),
        v.batch_failure(token, list) is None,
        plain_sum(list) <= i128::MAX,
        v.locked_in(token) + plain_sum(list) <= i128::MAX,
    ensures
        locked_total_accurate(
            v.with_batch(sender, recipient, token, list, now).with_locked(token, batch_total(list)),
        ),
{
    lemma_accepted_batch_is_fresh(v.escrows, list);
    lemma_batch_total_exact(list);
    let u = v.with_batch(sender, recipient, token, list, now);
    let w = u.with_locked(token, batch_total(list));
    lemma_batch_holdings(v, sender, recipient, token, list, now, token);
    assert forall|t: Addr| #[trigger] w.locked_in(t) == held_total(w, t) by {
        lemma_batch_holdings(v, sender, recipient, token, list, now, t);
        assert(v.locked_in(t) == held_total(v, t));
    }
}

/// The fee rate a sender pays: the base rate while the sender's volume
/// reaches no tier's threshold; otherwise the base rate less the discount
/// of the last tier whose threshold it reaches, stopping at zero.
pub proof fn law_fee_rate(tiers: Seq<VolumeTier>, base: u32, volume: u32)
    ensures
        (forall|i: int| 0 <= i < tiers.len() ==> volume < #[trigger] tiers[i].volume_threshold)
            ==> discounted_fee_bps(tiers, base, volume) == base,
        forall|k: int|
            0 <= k < tiers.len() && (#[trigger] tiers[k]).volume_threshold <= volume && (forall|i: int|
                k < i < tiers.len() ==> volume < #[trigger] tiers[i].volume_threshold) ==> discounted_fee_bps(
                tiers,
                base,
                volume,
            ) == (if base < tiers[k].discount_bps {
                0
            } else {
                base - tiers[k].discount_bps
            }),
    decreases tiers.len(),
{
    if tiers.len() > 0 {
        let last = tiers.len() - 1;
        law_fee_rate(tiers.drop_last(), base, volume);
        if volume < tiers[last].volume_threshold {
            assert forall|k: int|
                0 <= k < tiers.len() && (#[trigger] tiers[k]).volume_threshold <= volume && (forall|i: int|
                    k < i < tiers.len() ==> volume < #[trigger] tiers[i].volume_threshold) implies discounted_fee_bps(
                tiers,
                base,
                volume,
            ) == (if base < tiers[k].discount_bps {
                0
            } else {
                base - tiers[k].discount_bps
            }) by {
                assert(k != last);
                assert(tiers.drop_last()[k] == tiers[k]);
                assert forall|i: int| k < i < tiers.drop_last().len() implies volume
                    < #[trigger] tiers.drop_last()[i].volume_threshold by {
                    assert(tiers.drop_last()[i] == tiers[i]);
                }
            }
            if forall|j: int| 0 <= j < tiers.len() ==> volume < #[trigger] tiers[j].volume_threshold {
                assert forall|i: int| 0 <= i < tiers.drop_last().len() implies volume
                    < #[trigger] tiers.drop_last()[i].volume_threshold by {
                    assert(tiers.drop_last()[i] == tiers[i]);
                }
            }
        } else {
            assert forall|k: int|
                0 <= k < tiers.len() && (#[trigger] tiers[k]).volume_threshold <= volume && (forall|i: int|
                    k < i < tiers.len() ==> volume < #[trigger] tiers[i].volume_threshold) implies k == last by {
                if k < last {
                    assert(volume < tiers[last].volume_threshold);
                }
            }
        }
    }
}

/// What releasing escrow `rec` pays out, over the contract's settings: the
/// escrow's token, from the escrow contract; a platform fee on the amount,
/// at the rate that applies to the sender (never above the configured
/// base rate), to the admin; the rest to the escrow's driver. A positive
/// share for the driver goes through the fleet management contract, for
/// the fleet the escrow names, when both are set, and through the
/// settlement contract when one is set; swaps use the protocol's slippage
/// tolerance.
pub proof fn law_release_payout(v: EscrowView, rec: EscrowRecord)
    ensures
        ({
            let p = v.payout_for(rec);
            &&& p.token == rec.token
            &&& p.payer == v.this
            &&& p.driver == rec.driver
            &&& p.platform_fee == div_toward_zero(
                clamp_i128(rec.amount * v.fee_bps_for(rec.sender)),
                10000,
            )
            &&& p.driver_amount == clamp_i128(rec.amount - p.platform_fee)
            &&& p.fee_recipient == v.admin
            &&& p.fleet_route == if p.driver_amount > 0 && v.fleet is Some && rec.fleet_id is Some {
                Some(FleetRoute { fleet_contract: v.fleet->0, fleet_id: rec.fleet_id->0 })
            } else {
                None::<FleetRoute>
            }
            &&& p.settlement_contract == if p.driver_amount > 0 {
                v.settlement
            } else {
                None::<Addr>
            }
            &&& p.slippage_tolerance_bps == match v.config {
                Some(c) => Some(c.slippage_tolerance_bps),
                None => None::<u32>,
            }
        }),
        v.fee_bps_for(rec.sender) <= match v.config {
            Some(c) => c.platform_fee_bps,
            None => 0u32,
        },
        v.fee_bps_for(rec.sender) == discounted_fee_bps(
            v.volume_tiers,
            match v.config {
                Some(c) => c.platform_fee_bps,
                None => 0u32,
            },
            if v.sender_volume.contains_key(rec.sender) {
                v.sender_volume[rec.sender]
            } else {
                0u32
            },
        ),
{
    law_discount_never_exceeds_base(v.volume_tiers, v.base_fee_bps(), v.volume_of(rec.sender));
}

/// How a payout is carried out, given the fleet's payout address and the
/// driver's preferred asset. The driver's share, when positive, is
/// delivered first, to the fleet's payout address when the payout has a
/// fleet route and to the driver otherwise: by a plain transfer, or, when a
/// settlement contract is set and the driver prefers an asset other than
/// the escrow's token, by a swap into that asset through the settlement
/// contract, which must yield at least the share less the slippage
/// tolerance. The platform fee, when positive, then goes to the fee
/// recipient. Nothing else moves. It fails only when a swap is due but no
/// slippage tolerance is known, or a fee is due but no recipient.
pub proof fn law_payout_routing(p: Payout, fleet_payout_address: Addr, preferred_asset: Option<Addr>)
    ensures
        ({
            let dest = if p.fleet_route is Some { fleet_payout_address } else { p.driver };
            let swaps = p.driver_amount > 0 && p.settlement_contract is Some && preferred_asset is Some
                && preferred_asset->0 != p.token;
            let n = (if p.driver_amount > 0 { 1int } else { 0int }) + (if p.platform_fee > 0 {
                1int
            } else {
                0int
            });
            match payout_plan(p, fleet_payout_address, preferred_asset) {
                Ok(s) => {
                    &&& !(swaps && p.slippage_tolerance_bps is None)
                    &&& !(p.platform_fee > 0 && p.fee_recipient is None)
                    &&& s.len() == n
                    &&& (p.driver_amount > 0 && !swaps) ==> s[0] == PayoutInstruction::Transfer(
                        Transfer { token: p.token, from: p.payer, to: dest, amount: p.driver_amount },
                    )
                    &&& swaps ==> s[0] == PayoutInstruction::Swap(
                        SettlementSwap {
                            settlement_contract: p.settlement_contract->0,
                            caller: p.payer,
                            from_token: p.token,
                            to_token: preferred_asset->0,
                            recipient: dest,
                            amount: p.driver_amount,
                            min_amount_out: div_toward_zero(
                                clamp_i128(p.driver_amount * (10000 - p.slippage_tolerance_bps->0)),
                                10000,
                            ) as i128,
                        },
                    )
                    &&& p.platform_fee > 0 ==> s[n - 1] == PayoutInstruction::Transfer(
                        Transfer {
                            token: p.token,
                            from: p.payer,
                            to: p.fee_recipient->0,
                            amount: p.platform_fee,
                        },
                    )
                },
                Err(e) => if swaps && p.slippage_tolerance_bps is None {
                    e == EscrowFailure::Protocol(FaniLabError::NotInitialized)
                } else {
                    p.platform_fee > 0 && p.fee_recipient is None && e == EscrowFailure::NoFeeRecipient
                },
            }
        }),
{
}

/// An escrow the contract creates at `now` is locked, names the parties,
/// token and amount it was created with, has no dispute recorded, and
/// expires [`DEFAULT_ESCROW_EXPIRY_SECONDS`] after `now` (at the end of
/// time when that would overflow).
pub proof fn law_new_escrow_record(
    sender: Addr,
    recipient: Addr,
    driver: Addr,
    token: Addr,
    amount: i128,
    now: u64,
    fleet_id: Option<u64>,
)
    ensures
        fresh_escrow(sender, recipient, driver, token, amount, now, fleet_id) == (EscrowRecord {
            sender,
            recipient,
            driver,
            token,
            amount,
            status: EscrowStatus::Locked,
            created_at: now,
            expires_at: Some(
                if now + DEFAULT_ESCROW_EXPIRY_SECONDS > u64::MAX {
                    u64::MAX
                } else {
                    (now + DEFAULT_ESCROW_EXPIRY_SECONDS) as u64
                },
            ),
            disputed_by: None,
            disputed_at: None,
            fleet_id,
        }),
{
}

/// A batch whose ids are distinct stores, under the id of each entry
/// `(id, driver, amount)`, an escrow locked from the batch's sender to its
/// recipient in its token, with that driver and amount, no fleet and no
/// dispute, created at `now` and expiring
/// [`DEFAULT_ESCROW_EXPIRY_SECONDS`] later (at the end of time when that
/// would overflow); every other escrow stays as it was.
pub proof fn law_batch_stores_each_entry(
    v: EscrowView,
    sender: Addr,
    recipient: Addr,
    token: Addr,
    list: Seq<(u64, Addr, i128)>,
    now: u64,
)
    requires
        forall|j: int, k: int| 0 <= j < k < list.len() ==> (#[trigger] list[j]).0 != (#[trigger] list[k]).0,
    ensures
        ({
            let w = v.with_batch(sender, recipient, token, list, now);
            &&& forall|k: int|
                0 <= k < list.len() ==> w.escrows.contains_key((#[trigger] list[k]).0)
                    && w.escrows[list[k].0] == (EscrowRecord {
                        sender,
                        recipient,
                        driver: list[k].1,
                        token,
                        amount: list[k].2,
                        status: EscrowStatus::Locked,
                        created_at: now,
                        expires_at: Some(
                            if now + DEFAULT_ESCROW_EXPIRY_SECONDS > u64::MAX {
                                u64::MAX
                            } else {
                                (now + DEFAULT_ESCROW_EXPIRY_SECONDS) as u64
                            },
                        ),
                        disputed_by: None,
                        disputed_at: None,
                        fleet_id: None,
                    })
            &&& forall|id: u64|
                (forall|k: int| 0 <= k < list.len() ==> (#[trigger] list[k]).0 != id) ==> (
                #[trigger] w.escrows.contains_key(id) == v.escrows.contains_key(id) && (
                v.escrows.contains_key(id) ==> w.escrows[id] == v.escrows[id]))
        }),
    decreases list.len(),
{
    if list.len() > 0 {
        let pre = list.drop_last();
        let last = list.len() - 1;
        assert forall|j: int, k: int| 0 <= j < k < pre.len() implies (#[trigger] pre[j]).0
            != (#[trigger] pre[k]).0 by {
            assert(pre[j] == list[j] && pre[k] == list[k]);
        }
        law_batch_stores_each_entry(v, sender, recipient, token, pre, now);
        let u = v.with_batch(sender, recipient, token, pre, now);
        let w = v.with_batch(sender, recipient, token, list, now);
        let (id, driver, amount) = list.last();
        assert(w.escrows == u.escrows.insert(id, fresh_escrow(sender, recipient, driver, token, amount, now, None)));
        assert forall|k: int| 0 <= k < list.len() implies w.escrows.contains_key((#[trigger] list[k]).0)
            && w.escrows[list[k].0] == (EscrowRecord {
                        sender,
                        recipient,
                        driver: list[k].1,
                        token,
                        amount: list[k].2,
                        status: EscrowStatus::Locked,
                        created_at: now,
                        expires_at: Some(
                            if now + DEFAULT_ESCROW_EXPIRY_SECONDS > u64::MAX {
                                u64::MAX
                            } else {
                                (now + DEFAULT_ESCROW_EXPIRY_SECONDS) as u64
                            },
                        ),
                        disputed_by: None,
                        disputed_at: None,
                        fleet_id: None,
                    }) by {
            if k < last {
                assert(pre[k] == list[k]);
                assert(list[k].0 != list[last].0);
            }
        }
        assert forall|x: u64|
            (forall|k: int| 0 <= k < list.len() ==> (#[trigger] list[k]).0 != x) implies (
            #[trigger] w.escrows.contains_key(x) == v.escrows.contains_key(x) && (
            v.escrows.contains_key(x) ==> w.escrows[x] == v.escrows[x])) by {
            assert(list[last].0 != x);
            assert forall|k: int| 0 <= k < pre.len() implies (#[trigger] pre[k]).0 != x by {
                assert(pre[k] == list[k]);
            }
        }
    }
}

/// A refund returns the whole escrow to its sender, and a split gives the
/// sender `sender_share_bps` basis points of it (rounded toward zero) and
/// the driver the rest; every movement is in the escrow's token, out of
/// the escrow contract, and only positive shares move.
pub proof fn law_refund_and_split_recipients(v: EscrowView, id: u64, sender_share_bps: u32)
    ensures
        ({
            let rec = v.escrows[id];
            let s = v.split_of(id, sender_share_bps);
            &&& v.refund_of(id) == (Transfer {
                token: rec.token,
                from: v.this,
                to: rec.sender,
                amount: rec.amount,
            })
            &&& s.sender_amount == div_toward_zero(clamp_i128(rec.amount * sender_share_bps), 10000)
            &&& s.driver_amount == clamp_i128(rec.amount - s.sender_amount)
            &&& s.to_sender == if s.sender_amount > 0 {
                Some(Transfer { token: rec.token, from: v.this, to: rec.sender, amount: s.sender_amount })
            } else {
                None::<Transfer>
            }
            &&& s.to_driver == if s.driver_amount > 0 {
                Some(Transfer { token: rec.token, from: v.this, to: rec.driver, amount: s.driver_amount })
            } else {
                None::<Transfer>
            }
        }),
{
}

} // verus!
