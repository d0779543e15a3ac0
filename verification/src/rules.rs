//! The transition rules, as functions on the record's view.

use vstd::prelude::*;
use crate::model::{
    all_approved, approved_at, pending, sum, EscrowError, EscrowState, EscrowView, Milestone,
    MilestoneStatus, Payout, SECONDS_PER_DAY,
};

verus! {

/// A request to change the record, with the identity it is made under.
pub enum Operation {
    Fund { caller: Seq<char> },
    Submit { caller: Seq<char>, index: int },
    Approve { caller: Seq<char>, index: int },
    Reject { caller: Seq<char>, index: int },
    AutoApprove { index: int },
    AutoRelease { escrow_id: Seq<char> },
}

/// The amounts as mathematical integers, in order.
pub open spec fn as_ints(amounts: Seq<i128>) -> Seq<int> {
    Seq::new(amounts.len(), |i: int| amounts[i] as int)
}

/// The amounts are acceptable at creation: each positive, the total
/// representable.
pub open spec fn amounts_valid(amounts: Seq<i128>) -> bool {
    &&& forall|i: int| 0 <= i < amounts.len() ==> #[trigger] amounts[i] > 0
    &&& sum(as_ints(amounts)) <= i128::MAX
}

/// Why creation is refused, if it is. The first failing check decides.
pub open spec fn creation_error(
    client: Seq<char>,
    freelancer: Seq<char>,
    amounts: Seq<i128>,
    review_window_days: u32,
    deadline: u64,
    now: u64,
) -> Option<EscrowError> {
    if client == freelancer {
        Some(EscrowError::InvalidParties)
    } else if amounts.len() == 0 {
        Some(EscrowError::EmptyMilestoneSet)
    } else if !amounts_valid(amounts) {
        Some(EscrowError::InvalidAmount)
    } else if review_window_days == 0 {
        Some(EscrowError::InvalidReviewWindow)
    } else if deadline <= now {
        Some(EscrowError::InvalidDeadline)
    } else {
        None
    }
}

/// The record that creation builds.
pub open spec fn created(
    escrow_id: Seq<char>,
    client: Seq<char>,
    freelancer: Seq<char>,
    amounts: Seq<i128>,
    review_window_days: u32,
    deadline: u64,
    now: u64,
) -> EscrowView {
    EscrowView {
        escrow_id,
        client,
        freelancer,
        total_amount: sum(as_ints(amounts)),
        milestones: Seq::new(amounts.len(), |i: int| pending(amounts[i], deadline)),
        review_window: (review_window_days * SECONDS_PER_DAY) as u64,
        state: EscrowState::Created,
        created_at: now,
        deadline,
    }
}

/// Why `op` is refused on `e` at time `now`, if it is. The first failing
/// check decides. The time bears on the two deadline-driven requests only.
/// A cancelled escrow refuses every request.
pub open spec fn rejection(e: EscrowView, op: Operation, now: u64) -> Option<EscrowError> {
    let ms = e.milestones;
    match op {
        Operation::Fund { caller } => {
            if caller != e.client {
                Some(EscrowError::WrongCaller)
            } else if e.state != EscrowState::Created {
                Some(EscrowError::InvalidState)
            } else {
                None
            }
        },
        Operation::Submit { caller, index } => {
            if caller != e.freelancer {
                Some(EscrowError::WrongCaller)
            } else if e.state != EscrowState::Funded && e.state != EscrowState::Active {
                Some(EscrowError::InvalidState)
            } else if !(0 <= index < ms.len()) {
                Some(EscrowError::IndexOutOfRange)
            } else if ms[index].status != MilestoneStatus::Pending && ms[index].status
                != MilestoneStatus::Rejected {
                Some(EscrowError::MilestoneNotSubmittable)
            } else if index > 0 && ms[index - 1].status != MilestoneStatus::Approved {
                Some(EscrowError::PriorMilestoneIncomplete)
            } else {
                None
            }
        },
        Operation::Approve { caller, index } => {
            if caller != e.client {
                Some(EscrowError::WrongCaller)
            } else if !(0 <= index < ms.len()) {
                Some(EscrowError::IndexOutOfRange)
            } else if ms[index].status != MilestoneStatus::Submitted {
                Some(EscrowError::MilestoneNotApprovable)
            } else if e.state == EscrowState::Cancelled {
                Some(EscrowError::InvalidState)
            } else {
                None
            }
        },
        Operation::Reject { caller, index } => {
            if caller != e.client {
                Some(EscrowError::WrongCaller)
            } else if !(0 <= index < ms.len()) {
                Some(EscrowError::IndexOutOfRange)
            } else if ms[index].status != MilestoneStatus::Submitted {
                Some(EscrowError::MilestoneNotRejectable)
            } else if e.state == EscrowState::Cancelled {
                Some(EscrowError::InvalidState)
            } else {
                None
            }
        },
        Operation::AutoApprove { index } => {
            if !(0 <= index < ms.len()) {
                Some(EscrowError::IndexOutOfRange)
            } else if ms[index].status != MilestoneStatus::Submitted {
                Some(EscrowError::MilestoneNotSubmitted)
            } else if now < ms[index].submitted_at + e.review_window {
                Some(EscrowError::ReviewWindowOpen)
            } else if e.state == EscrowState::Cancelled {
                Some(EscrowError::InvalidState)
            } else {
                None
            }
        },
        Operation::AutoRelease { escrow_id } => {
            if escrow_id != e.escrow_id {
                Some(EscrowError::IdMismatch)
            } else if now < e.deadline {
                Some(EscrowError::DeadlineNotReached)
            } else if e.state == EscrowState::Cancelled {
                Some(EscrowError::AlreadyCancelled)
            } else {
                None
            }
        },
    }
}

/// The record after milestone `index` is approved at `now`: completed if
/// that was the last one open.
pub open spec fn with_approval(e: EscrowView, index: int, now: u64) -> EscrowView {
    let ms = e.milestones.update(index, approved_at(e.milestones[index], now));
    EscrowView {
        milestones: ms,
        state: if all_approved(ms) {
            EscrowState::Completed
        } else {
            e.state
        },
        ..e
    }
}

/// The milestones after a forced release at `now`: those under review are
/// approved, the others untouched.
pub open spec fn released(ms: Seq<Milestone>, now: u64) -> Seq<Milestone> {
    Seq::new(
        ms.len(),
        |i: int|
            if ms[i].status == MilestoneStatus::Submitted {
                approved_at(ms[i], now)
            } else {
                ms[i]
            },
    )
}

/// The record after `op` was accepted on `e` at time `now`.
pub open spec fn successor(e: EscrowView, op: Operation, now: u64) -> EscrowView {
    let ms = e.milestones;
    match op {
        Operation::Fund { .. } => EscrowView { state: EscrowState::Funded, ..e },
        Operation::Submit { index, .. } => EscrowView {
            milestones: ms.update(
                index,
                Milestone { status: MilestoneStatus::Submitted, submitted_at: now, ..ms[index] },
            ),
            state: EscrowState::Active,
            ..e
        },
        Operation::Approve { index, .. } => with_approval(e, index, now),
        Operation::Reject { index, .. } => EscrowView {
            milestones: ms.update(
                index,
                Milestone { status: MilestoneStatus::Rejected, ..ms[index] },
            ),
            ..e
        },
        Operation::AutoApprove { index } => with_approval(e, index, now),
        Operation::AutoRelease { .. } => EscrowView {
            milestones: released(ms, now),
            state: EscrowState::Completed,
            ..e
        },
    }
}

/// The payouts of a forced release among the first `n` milestones: one for
/// each milestone under review, in ascending order.
pub open spec fn release_payouts(ms: Seq<Milestone>, n: nat) -> Seq<Payout>
    decreases n,
{
    if n == 0 {
        Seq::empty()
    } else {
        let before = release_payouts(ms, (n - 1) as nat);
        if ms[n - 1].status == MilestoneStatus::Submitted {
            before.push(Payout { index: (n - 1) as usize, amount: ms[n - 1].amount })
        } else {
            before
        }
    }
}

/// The transfers to the performer that `op`, accepted on `e`, orders.
pub open spec fn payouts(e: EscrowView, op: Operation) -> Seq<Payout> {
    let ms = e.milestones;
    match op {
        Operation::Approve { index, .. } => seq![
            Payout { index: index as usize, amount: ms[index].amount },
        ],
        Operation::AutoApprove { index } => seq![
            Payout { index: index as usize, amount: ms[index].amount },
        ],
        Operation::AutoRelease { .. } => release_payouts(ms, ms.len()),
        _ => Seq::empty(),
    }
}

/// What one request does: the next record, or the refusal that leaves the
/// record as it was.
pub open spec fn step(e: EscrowView, op: Operation, now: u64) -> Result<EscrowView, EscrowError> {
    match rejection(e, op, now) {
        Some(err) => Err(err),
        None => Ok(successor(e, op, now)),
    }
}

} // verus!
