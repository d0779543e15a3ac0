//! What holds of every record that the operations can build.
//!
//! The laws are stated over the record's view and the transition rules, for
//! one request and for any run of requests.

use vstd::prelude::*;
use crate::model::{
    all_approved, amounts_of, approved_at, sum, sum_to, unlocked, EscrowError, EscrowState,
    EscrowView, Milestone, MilestoneStatus, Payout,
};
use crate::rules::{
    as_ints, created, creation_error, payouts, rejection, release_payouts, released, step,
    successor, Operation,
};

verus! {

/// A request together with the time at which it arrives.
pub struct Request {
    pub op: Operation,
    pub now: u64,
}

/// The record after one request: changed if it was accepted, as it was if
/// it was refused.
pub open spec fn after(e: EscrowView, r: Request) -> EscrowView {
    match step(e, r.op, r.now) {
        Ok(next) => next,
        Err(_) => e,
    }
}

/// The payouts that one request orders: none if it was refused.
pub open spec fn ordered(e: EscrowView, r: Request) -> Seq<Payout> {
    if rejection(e, r.op, r.now) is None {
        payouts(e, r.op)
    } else {
        Seq::empty()
    }
}

/// The record after a run of requests, taken in order.
pub open spec fn run(e: EscrowView, reqs: Seq<Request>) -> EscrowView
    decreases reqs.len(),
{
    if reqs.len() == 0 {
        e
    } else {
        after(run(e, reqs.drop_last()), reqs.last())
    }
}

/// How many of the payouts `ps` are for the milestone at `index`.
pub open spec fn count_for(ps: Seq<Payout>, index: int) -> nat
    decreases ps.len(),
{
    if ps.len() == 0 {
        0
    } else {
        count_for(ps.drop_last(), index) + if ps.last().index == index {
            1nat
        } else {
            0nat
        }
    }
}

/// How many payouts a run of requests orders for the milestone at `index`.
pub open spec fn paid(e: EscrowView, reqs: Seq<Request>, index: int) -> nat
    decreases reqs.len(),
{
    if reqs.len() == 0 {
        0
    } else {
        paid(e, reqs.drop_last(), index) + count_for(
            ordered(run(e, reqs.drop_last()), reqs.last()),
            index,
        )
    }
}

/// No request of the run is a forced release.
pub open spec fn without_release(reqs: Seq<Request>) -> bool {
    forall|k: int| 0 <= k < reqs.len() ==> !((#[trigger] reqs[k]).op is AutoRelease)
}

/// 1 if the milestone at `index` is approved, else 0.
pub open spec fn approved_mark(e: EscrowView, index: int) -> int {
    if e.milestones[index].status == MilestoneStatus::Approved {
        1
    } else {
        0
    }
}

/// Creation, where it is accepted, gives a well-formed record in state
/// `Created` whose total is the sum of the amounts supplied, with every
/// milestone pending.
pub proof fn creation_is_sound(
    escrow_id: Seq<char>,
    client: Seq<char>,
    freelancer: Seq<char>,
    amounts: Seq<i128>,
    review_window_days: u32,
    deadline: u64,
    now: u64,
)
    requires
        creation_error(client, freelancer, amounts, review_window_days, deadline, now) is None,
    ensures
        ({
            let e = created(
                escrow_id,
                client,
                freelancer,
                amounts,
                review_window_days,
                deadline,
                now,
            );
            &&& e.wf()
            &&& e.total_amount == sum(as_ints(amounts))
            &&& e.total_amount == sum(amounts_of(e.milestones))
            &&& e.state == EscrowState::Created
            &&& e.sequenced()
            &&& e.completion_exact()
            &&& e.milestones.len() == amounts.len()
            &&& forall|i: int|
                0 <= i < e.milestones.len() ==> (#[trigger] e.milestones[i]).status
                    == MilestoneStatus::Pending
        }),
{
    let e = created(escrow_id, client, freelancer, amounts, review_window_days, deadline, now);
    assert(amounts_of(e.milestones) =~= as_ints(amounts));
    assert forall|i: int| 0 <= i < e.milestones.len() implies {
        &&& (#[trigger] e.milestones[i]).amount > 0
        &&& e.milestones[i].deadline == e.deadline
    } by {
        assert(amounts[i] > 0);
    }
    assert(e.milestones[0].status == MilestoneStatus::Pending);
}

/// An accepted request leaves the terms of the escrow as they were: the
/// identifier, the parties, the total, the review window, the two dates,
/// the number of milestones and the amount and deadline of each.
pub proof fn terms_are_fixed(e: EscrowView, op: Operation, now: u64)
    requires
        rejection(e, op, now) is None,
    ensures
        ({
            let next = successor(e, op, now);
            &&& next.escrow_id == e.escrow_id
            &&& next.client == e.client
            &&& next.freelancer == e.freelancer
            &&& next.total_amount == e.total_amount
            &&& next.review_window == e.review_window
            &&& next.created_at == e.created_at
            &&& next.deadline == e.deadline
            &&& next.milestones.len() == e.milestones.len()
            &&& amounts_of(next.milestones) == amounts_of(e.milestones)
            &&& forall|i: int|
                0 <= i < e.milestones.len() ==> {
                    &&& (#[trigger] next.milestones[i]).amount == e.milestones[i].amount
                    &&& next.milestones[i].deadline == e.milestones[i].deadline
                }
        }),
{
    let next = successor(e, op, now);
    assert(amounts_of(next.milestones) =~= amounts_of(e.milestones));
}

/// An accepted request keeps a well-formed record well-formed; so the
/// total stays the sum of the milestone amounts.
pub proof fn total_is_kept(e: EscrowView, op: Operation, now: u64)
    requires
        e.wf(),
        rejection(e, op, now) is None,
    ensures
        successor(e, op, now).wf(),
        successor(e, op, now).total_amount == sum(amounts_of(successor(e, op, now).milestones)),
        successor(e, op, now).total_amount == e.total_amount,
{
    terms_are_fixed(e, op, now);
    let next = successor(e, op, now);
    assert forall|i: int| 0 <= i < next.milestones.len() implies {
        &&& (#[trigger] next.milestones[i]).amount > 0
        &&& next.milestones[i].deadline == next.deadline
    } by {
        assert(e.milestones[i].amount > 0);
    }
}

/// A milestone is handed in only behind an approved predecessor, and an
/// accepted request keeps it so: where no milestone is under review
/// behind one that is not approved, none is afterwards.
pub proof fn unlocking_is_sequential(e: EscrowView, op: Operation, now: u64)
    requires
        e.sequenced(),
        rejection(e, op, now) is None,
    ensures
        successor(e, op, now).sequenced(),
        op is Submit && op->Submit_index > 0 ==> e.milestones[op->Submit_index - 1].status
            == MilestoneStatus::Approved && successor(e, op, now).milestones[op->Submit_index
            - 1].status == MilestoneStatus::Approved,
{
    let next = successor(e, op, now);
    assert forall|i: int| 0 < i < next.milestones.len() implies #[trigger] unlocked(
        next.milestones,
        i,
    ) by {
        assert(unlocked(e.milestones, i));
        if i + 1 < e.milestones.len() {
            assert(unlocked(e.milestones, i + 1));
        }
    }
}

/// Short of a forced release, an accepted request keeps the escrow
/// completed exactly when every milestone is approved.
pub proof fn completion_follows_approval(e: EscrowView, op: Operation, now: u64)
    requires
        e.completion_exact(),
        rejection(e, op, now) is None,
        !(op is AutoRelease),
    ensures
        successor(e, op, now).completion_exact(),
{
    let next = successor(e, op, now);
    match op {
        Operation::Submit { index, .. } => {
            assert(next.milestones[index].status == MilestoneStatus::Submitted);
        },
        Operation::Approve { index, .. } => {
            assert(e.milestones[index].status == MilestoneStatus::Submitted);
        },
        Operation::Reject { index, .. } => {
            assert(e.milestones[index].status == MilestoneStatus::Submitted);
            assert(next.milestones[index].status == MilestoneStatus::Rejected);
        },
        Operation::AutoApprove { index } => {
            assert(e.milestones[index].status == MilestoneStatus::Submitted);
        },
        _ => {},
    }
}

/// An accepted forced release completes the escrow whatever its
/// milestones: those under review become approved, every other one stays
/// as it was, pending and rejected ones included.
pub proof fn forced_release_completes(e: EscrowView, escrow_id: Seq<char>, now: u64)
    requires
        rejection(e, Operation::AutoRelease { escrow_id }, now) is None,
    ensures
        ({
            let next = successor(e, Operation::AutoRelease { escrow_id }, now);
            &&& next.state == EscrowState::Completed
            &&& next.milestones.len() == e.milestones.len()
            &&& forall|i: int|
                0 <= i < e.milestones.len() ==> if (#[trigger] e.milestones[i]).status
                    == MilestoneStatus::Submitted {
                    next.milestones[i].status == MilestoneStatus::Approved
                } else {
                    next.milestones[i] == e.milestones[i]
                }
        }),
{
}

/// Where an escrow stands in its course: created, then funded, then active,
/// then completed. A cancelled escrow has left it.
pub open spec fn stage(s: EscrowState) -> int {
    match s {
        EscrowState::Created => 0,
        EscrowState::Funded => 1,
        EscrowState::Active => 2,
        EscrowState::Completed => 3,
        EscrowState::Cancelled => 4,
    }
}

/// An accepted request never moves an escrow back in its course, and never
/// cancels it. A completed escrow stays completed.
pub proof fn state_only_advances(e: EscrowView, op: Operation, now: u64)
    requires
        rejection(e, op, now) is None,
    ensures
        e.state != EscrowState::Cancelled,
        stage(e.state) <= stage(successor(e, op, now).state),
        successor(e, op, now).state != EscrowState::Cancelled,
        e.state == EscrowState::Completed ==> successor(e, op, now).state
            == EscrowState::Completed,
{
}

/// A cancelled escrow is final: it refuses every request, so its record
/// stays as it is and nothing is paid out.
pub proof fn cancelled_is_final(e: EscrowView, op: Operation, now: u64)
    requires
        e.state == EscrowState::Cancelled,
    ensures
        rejection(e, op, now) is Some,
        step(e, op, now) is Err,
        after(e, Request { op, now }) == e,
        ordered(e, Request { op, now }) == Seq::<Payout>::empty(),
{
}

/// Over any run of requests a cancelled escrow stays as it is, and nothing
/// is paid out.
pub proof fn cancelled_stays_cancelled(e: EscrowView, reqs: Seq<Request>)
    requires
        e.state == EscrowState::Cancelled,
    ensures
        run(e, reqs) == e,
        paid_out(e, reqs) == 0,
    decreases reqs.len(),
{
    if reqs.len() > 0 {
        cancelled_stays_cancelled(e, reqs.drop_last());
        let r = reqs.last();
        cancelled_is_final(e, r.op, r.now);
        assert(payout_sum(Seq::<Payout>::empty()) == 0);
    }
}

/// Over any run of requests a completed escrow stays completed.
pub proof fn completed_stays_completed(e: EscrowView, reqs: Seq<Request>)
    requires
        e.state == EscrowState::Completed,
    ensures
        run(e, reqs).state == EscrowState::Completed,
    decreases reqs.len(),
{
    if reqs.len() > 0 {
        completed_stays_completed(e, reqs.drop_last());
        let before = run(e, reqs.drop_last());
        let r = reqs.last();
        if rejection(before, r.op, r.now) is None {
            state_only_advances(before, r.op, r.now);
        }
    }
}

/// What every operation promises of the record it leaves: an accepted
/// request keeps a well-formed record well-formed, keeps the milestones
/// unlocked in sequence, and, short of a forced release, keeps the escrow
/// completed exactly when every milestone is approved.
pub proof fn request_keeps_invariants(e: EscrowView, op: Operation, now: u64)
    ensures
        rejection(e, op, now) is None && e.wf() ==> successor(e, op, now).wf(),
        rejection(e, op, now) is None && e.sequenced() ==> successor(e, op, now).sequenced(),
        rejection(e, op, now) is None && e.completion_exact() && !(op is AutoRelease)
            ==> successor(e, op, now).completion_exact(),
{
    if rejection(e, op, now) is None {
        if e.wf() {
            total_is_kept(e, op, now);
        }
        if e.sequenced() {
            unlocking_is_sequential(e, op, now);
        }
        if e.completion_exact() && !(op is AutoRelease) {
            completion_follows_approval(e, op, now);
        }
    }
}

/// Funding is accepted once: on the record that an accepted funding
/// leaves, the payer's next funding is refused as `InvalidState`.
pub proof fn funding_happens_once(e: EscrowView, caller: Seq<char>, now: u64, later: u64)
    requires
        rejection(e, Operation::Fund { caller }, now) is None,
    ensures
        e.state == EscrowState::Created,
        successor(e, Operation::Fund { caller }, now).state == EscrowState::Funded,
        rejection(successor(e, Operation::Fund { caller }, now), Operation::Fund { caller }, later)
            == Some(EscrowError::InvalidState),
{
}

/// No accepted request brings a record back to `Created`.
pub proof fn created_is_not_re_entered(e: EscrowView, op: Operation, now: u64)
    requires
        rejection(e, op, now) is None,
        e.state != EscrowState::Created,
    ensures
        successor(e, op, now).state != EscrowState::Created,
{
}

/// Once funded, an escrow refuses the payer's funding as `InvalidState`
/// after any run of requests.
pub proof fn funding_stays_closed(e: EscrowView, reqs: Seq<Request>, later: u64)
    requires
        e.state != EscrowState::Created,
    ensures
        run(e, reqs).state != EscrowState::Created,
        run(e, reqs).client == e.client,
        rejection(run(e, reqs), Operation::Fund { caller: e.client }, later) == Some(
            EscrowError::InvalidState,
        ),
    decreases reqs.len(),
{
    if reqs.len() > 0 {
        funding_stays_closed(e, reqs.drop_last(), later);
        let before = run(e, reqs.drop_last());
        let r = reqs.last();
        if rejection(before, r.op, r.now) is None {
            created_is_not_re_entered(before, r.op, r.now);
            terms_are_fixed(before, r.op, r.now);
        }
    }
}

/// A forced release names each milestone under review once, and no other.
proof fn lemma_release_counts(e: EscrowView, n: nat, index: int)
    requires
        n <= e.milestones.len() <= usize::MAX,
        0 <= index,
    ensures
        count_for(release_payouts(e.milestones, n), index) == if index < n
            && e.milestones[index].status == MilestoneStatus::Submitted {
            1nat
        } else {
            0nat
        },
    decreases n,
{
    if n > 0 {
        let ms = e.milestones;
        lemma_release_counts(e, (n - 1) as nat, index);
        let before = release_payouts(ms, (n - 1) as nat);
        if ms[n - 1].status == MilestoneStatus::Submitted {
            let p = Payout { index: (n - 1) as usize, amount: ms[n - 1].amount };
            assert(before.push(p).drop_last() =~= before);
        }
    }
}

/// An accepted request orders a payout for a milestone exactly when it
/// turns that milestone approved, and then one payout, of the milestone's
/// amount. An approved milestone is never changed again.
pub proof fn payout_marks_approval(e: EscrowView, op: Operation, now: u64, index: int)
    requires
        e.milestones.len() <= usize::MAX,
        0 <= index < e.milestones.len(),
        rejection(e, op, now) is None,
    ensures
        count_for(payouts(e, op), index) == approved_mark(successor(e, op, now), index)
            - approved_mark(e, index),
        e.milestones[index].status == MilestoneStatus::Approved ==> successor(
            e,
            op,
            now,
        ).milestones[index] == e.milestones[index],
        successor(e, op, now).milestones[index].status == MilestoneStatus::Approved
            && e.milestones[index].status != MilestoneStatus::Approved
            ==> e.milestones[index].status == MilestoneStatus::Submitted,
        forall|k: int|
            0 <= k < payouts(e, op).len() && (#[trigger] payouts(e, op)[k]).index == index
                ==> payouts(e, op)[k].amount == e.milestones[index].amount,
{
    let ps = payouts(e, op);
    match op {
        Operation::Approve { .. } | Operation::AutoApprove { .. } => {
            assert(ps.drop_last() =~= Seq::<Payout>::empty());
            assert(count_for(ps.drop_last(), index) == 0);
        },
        Operation::AutoRelease { .. } => {
            lemma_release_counts(e, e.milestones.len(), index);
            assert forall|k: int|
                0 <= k < ps.len() && (#[trigger] ps[k]).index == index implies ps[k].amount
                == e.milestones[index].amount by {
                lemma_release_entries(e, e.milestones.len(), k);
            }
        },
        _ => {},
    }
}

/// Each payout of a forced release carries the amount of the milestone
/// that it names.
proof fn lemma_release_entries(e: EscrowView, n: nat, k: int)
    requires
        n <= e.milestones.len() <= usize::MAX,
        0 <= k < release_payouts(e.milestones, n).len(),
    ensures
        ({
            let p = release_payouts(e.milestones, n)[k];
            p.index < n && p.amount == e.milestones[p.index as int].amount
        }),
    decreases n,
{
    if n > 0 {
        let before = release_payouts(e.milestones, (n - 1) as nat);
        if k < before.len() {
            lemma_release_entries(e, (n - 1) as nat, k);
        }
    }
}

/// Over any run of requests a milestone is paid at most once: the number
/// of payouts ordered for it is 1 if the run turned it approved and 0 if
/// not, and 0 if it was approved before the run began.
pub proof fn paid_at_most_once(e: EscrowView, reqs: Seq<Request>, index: int)
    requires
        e.milestones.len() <= usize::MAX,
        0 <= index < e.milestones.len(),
    ensures
        run(e, reqs).milestones.len() == e.milestones.len(),
        paid(e, reqs, index) == approved_mark(run(e, reqs), index) - approved_mark(e, index),
        paid(e, reqs, index) <= 1,
        e.milestones[index].status == MilestoneStatus::Approved ==> paid(e, reqs, index) == 0,
    decreases reqs.len(),
{
    if reqs.len() > 0 {
        paid_at_most_once(e, reqs.drop_last(), index);
        let before = run(e, reqs.drop_last());
        let r = reqs.last();
        if rejection(before, r.op, r.now) is None {
            terms_are_fixed(before, r.op, r.now);
            payout_marks_approval(before, r.op, r.now, index);
        }
    }
}

/// Any run of requests keeps a well-formed record well-formed, with its
/// total unchanged and equal to the sum of its milestone amounts.
pub proof fn run_keeps_total(e: EscrowView, reqs: Seq<Request>)
    requires
        e.wf(),
    ensures
        run(e, reqs).wf(),
        run(e, reqs).total_amount == e.total_amount,
        run(e, reqs).total_amount == sum(amounts_of(run(e, reqs).milestones)),
    decreases reqs.len(),
{
    if reqs.len() > 0 {
        run_keeps_total(e, reqs.drop_last());
        let before = run(e, reqs.drop_last());
        let r = reqs.last();
        if rejection(before, r.op, r.now) is None {
            total_is_kept(before, r.op, r.now);
        }
    }
}

/// Over any run of requests no milestone comes under review behind one
/// that is not approved, if none was so when the run began.
pub proof fn run_keeps_sequence(e: EscrowView, reqs: Seq<Request>)
    requires
        e.sequenced(),
    ensures
        run(e, reqs).sequenced(),
    decreases reqs.len(),
{
    if reqs.len() > 0 {
        run_keeps_sequence(e, reqs.drop_last());
        let before = run(e, reqs.drop_last());
        let r = reqs.last();
        if rejection(before, r.op, r.now) is None {
            unlocking_is_sequential(before, r.op, r.now);
        }
    }
}

/// The amounts of the approved milestones among the first `n`, added up.
pub open spec fn approved_total(ms: Seq<Milestone>, n: nat) -> int
    decreases n,
{
    if n == 0 {
        0
    } else {
        approved_total(ms, (n - 1) as nat) + if ms[n - 1].status == MilestoneStatus::Approved {
            ms[n - 1].amount as int
        } else {
            0
        }
    }
}

/// What has left custody for the performer: the amounts of the approved
/// milestones.
pub open spec fn released_amount(e: EscrowView) -> int {
    approved_total(e.milestones, e.milestones.len())
}

/// The amounts of the payouts `ps`, added up.
pub open spec fn payout_sum(ps: Seq<Payout>) -> int
    decreases ps.len(),
{
    if ps.len() == 0 {
        0
    } else {
        payout_sum(ps.drop_last()) + ps.last().amount
    }
}

/// The amounts that a run of requests orders to be paid out, added up.
pub open spec fn paid_out(e: EscrowView, reqs: Seq<Request>) -> int
    decreases reqs.len(),
{
    if reqs.len() == 0 {
        0
    } else {
        paid_out(e, reqs.drop_last()) + payout_sum(
            ordered(run(e, reqs.drop_last()), reqs.last()),
        )
    }
}

/// Milestones that agree in amount and in being approved release the same.
proof fn lemma_approved_total_agrees(a: Seq<Milestone>, b: Seq<Milestone>, n: nat)
    requires
        n <= a.len() == b.len(),
        forall|i: int|
            0 <= i < n ==> (#[trigger] a[i]).amount == b[i].amount && (a[i].status
                == MilestoneStatus::Approved) == (b[i].status == MilestoneStatus::Approved),
    ensures
        approved_total(a, n) == approved_total(b, n),
    decreases n,
{
    if n > 0 {
        lemma_approved_total_agrees(a, b, (n - 1) as nat);
    }
}

/// Approving one open milestone adds its amount to what is released.
proof fn lemma_approved_total_gains(ms: Seq<Milestone>, at: int, now: u64, n: nat)
    requires
        n <= ms.len(),
        0 <= at < ms.len(),
        ms[at].status != MilestoneStatus::Approved,
    ensures
        approved_total(ms.update(at, approved_at(ms[at], now)), n) == approved_total(ms, n) + if at
            < n {
            ms[at].amount as int
        } else {
            0
        },
    decreases n,
{
    if n > 0 {
        lemma_approved_total_gains(ms, at, now, (n - 1) as nat);
    }
}

/// A forced release adds to what is released the payouts that it orders.
proof fn lemma_release_totals(ms: Seq<Milestone>, now: u64, n: nat)
    requires
        n <= ms.len(),
    ensures
        approved_total(released(ms, now), n) == approved_total(ms, n) + payout_sum(
            release_payouts(ms, n),
        ),
    decreases n,
{
    if n > 0 {
        lemma_release_totals(ms, now, (n - 1) as nat);
        let before = release_payouts(ms, (n - 1) as nat);
        if ms[n - 1].status == MilestoneStatus::Submitted {
            let p = Payout { index: (n - 1) as usize, amount: ms[n - 1].amount };
            assert(before.push(p).drop_last() =~= before);
        }
    }
}

/// What is released is part of the whole.
proof fn lemma_released_within_total(ms: Seq<Milestone>, n: nat)
    requires
        n <= ms.len(),
        forall|i: int| 0 <= i < ms.len() ==> (#[trigger] ms[i]).amount > 0,
    ensures
        0 <= approved_total(ms, n) <= sum_to(amounts_of(ms), n),
    decreases n,
{
    if n > 0 {
        lemma_released_within_total(ms, (n - 1) as nat);
    }
}

/// Custody is conserved: an accepted request orders payouts of exactly the
/// amount by which the approved milestones have grown.
pub proof fn payouts_match_release(e: EscrowView, op: Operation, now: u64)
    requires
        rejection(e, op, now) is None,
    ensures
        released_amount(successor(e, op, now)) == released_amount(e) + payout_sum(payouts(e, op)),
{
    let ms = e.milestones;
    let next = successor(e, op, now);
    let ps = payouts(e, op);
    match op {
        Operation::Fund { .. } => {},
        Operation::Submit { .. } | Operation::Reject { .. } => {
            lemma_approved_total_agrees(ms, next.milestones, ms.len());
        },
        Operation::Approve { index, .. } | Operation::AutoApprove { index } => {
            lemma_approved_total_gains(ms, index, now, ms.len());
            assert(ps.drop_last() =~= Seq::<Payout>::empty());
            assert(payout_sum(ps.drop_last()) == 0);
        },
        Operation::AutoRelease { .. } => {
            lemma_release_totals(ms, now, ms.len());
        },
    }
}

/// On a well-formed record what has been released lies between nothing
/// and the total.
pub proof fn release_within_total(e: EscrowView)
    requires
        e.wf(),
    ensures
        0 <= released_amount(e) <= e.total_amount,
{
    lemma_released_within_total(e.milestones, e.milestones.len());
}

/// Over any run of requests on a well-formed record, the payouts ordered
/// add up to what the run has released, and so to no more than the part of
/// the total that was still in custody when the run began.
pub proof fn custody_is_never_overdrawn(e: EscrowView, reqs: Seq<Request>)
    requires
        e.wf(),
    ensures
        paid_out(e, reqs) == released_amount(run(e, reqs)) - released_amount(e),
        0 <= paid_out(e, reqs) + released_amount(e) <= e.total_amount,
    decreases reqs.len(),
{
    if reqs.len() > 0 {
        custody_is_never_overdrawn(e, reqs.drop_last());
        let before = run(e, reqs.drop_last());
        let r = reqs.last();
        if rejection(before, r.op, r.now) is None {
            payouts_match_release(before, r.op, r.now);
        }
    }
    run_keeps_total(e, reqs);
    release_within_total(run(e, reqs));
    release_within_total(e);
}

/// Over any run of requests without a forced release, the escrow is
/// completed exactly when every milestone is approved.
pub proof fn completion_is_exact(e: EscrowView, reqs: Seq<Request>)
    requires
        e.completion_exact(),
        without_release(reqs),
    ensures
        run(e, reqs).completion_exact(),
        run(e, reqs).state == EscrowState::Completed <==> all_approved(run(e, reqs).milestones),
    decreases reqs.len(),
{
    if reqs.len() > 0 {
        let earlier = reqs.drop_last();
        assert forall|k: int| 0 <= k < earlier.len() implies !((#[trigger] earlier[k]).op
            is AutoRelease) by {
            assert(earlier[k] == reqs[k]);
        }
        completion_is_exact(e, reqs.drop_last());
        let before = run(e, reqs.drop_last());
        let r = reqs.last();
        if rejection(before, r.op, r.now) is None {
            completion_follows_approval(before, r.op, r.now);
        }
    }
}

} // verus!
