//! The escrow record, its milestones and their mathematical view.

use vstd::prelude::*;

verus! {

/// Seconds in one day: the unit in which a review window is given at creation.
pub const SECONDS_PER_DAY: u64 = 86400;

/// Where the whole escrow stands.
#[derive(Clone, Copy, PartialEq, Eq, Debug, Structural)]
pub enum EscrowState {
    Created,
    Funded,
    Active,
    Completed,
    Cancelled,
}

/// Where one milestone stands.
#[derive(Clone, Copy, PartialEq, Eq, Debug, Structural)]
pub enum MilestoneStatus {
    Pending,
    Submitted,
    Approved,
    Rejected,
}

/// The slots under which an instance keeps its data.
#[derive(Clone, Copy, PartialEq, Eq, Debug, Structural)]
pub enum DataKey {
    Escrow,
    Token,
    ReleasedAmount,
}

/// Why an operation was refused. A refused operation changes nothing.
#[derive(Clone, Copy, PartialEq, Eq, Debug, Structural)]
pub enum EscrowError {
    WrongCaller,
    InvalidState,
    AlreadyCancelled,
    MilestoneNotSubmittable,
    MilestoneNotApprovable,
    MilestoneNotRejectable,
    MilestoneNotSubmitted,
    PriorMilestoneIncomplete,
    InvalidParties,
    EmptyMilestoneSet,
    InvalidAmount,
    InvalidReviewWindow,
    InvalidDeadline,
    IndexOutOfRange,
    IdMismatch,
    ReviewWindowOpen,
    DeadlineNotReached,
}

/// One unit of work with its payment.
#[derive(Clone, Copy, PartialEq, Eq, Debug, Structural)]
pub struct Milestone {
    pub amount: i128,
    pub status: MilestoneStatus,
    pub submitted_at: u64,
    pub approved_at: u64,
    pub deadline: u64,
}

/// A transfer out of custody to the performer that an operation orders:
/// the amount of the milestone at `index`.
#[derive(Clone, Copy, PartialEq, Eq, Debug, Structural)]
pub struct Payout {
    pub index: usize,
    pub amount: i128,
}

/// The escrow record. Parties and the identifier are held as text.
#[derive(Clone, PartialEq, Eq, Debug)]
pub struct Escrow {
    pub escrow_id: String,
    pub client: String,
    pub freelancer: String,
    pub total_amount: i128,
    pub milestones: Vec<Milestone>,
    pub review_window: u64,
    pub state: EscrowState,
    pub created_at: u64,
    pub deadline: u64,
}

/// The record as a mathematical value: what contracts and laws speak of.
pub struct EscrowView {
    pub escrow_id: Seq<char>,
    pub client: Seq<char>,
    pub freelancer: Seq<char>,
    pub total_amount: int,
    pub milestones: Seq<Milestone>,
    pub review_window: u64,
    pub state: EscrowState,
    pub created_at: u64,
    pub deadline: u64,
}

impl View for Escrow {
    type V = EscrowView;

    open spec fn view(&self) -> EscrowView {
        EscrowView {
            escrow_id: self.escrow_id@,
            client: self.client@,
            freelancer: self.freelancer@,
            total_amount: self.total_amount as int,
            milestones: self.milestones@,
            review_window: self.review_window,
            state: self.state,
            created_at: self.created_at,
            deadline: self.deadline,
        }
    }
}

/// The sum of the first `n` entries of `s`.
pub open spec fn sum_to(s: Seq<int>, n: nat) -> int
    decreases n,
{
    if n == 0 {
        0
    } else {
        sum_to(s, (n - 1) as nat) + s[n - 1]
    }
}

/// The sum of all entries of `s`.
pub open spec fn sum(s: Seq<int>) -> int {
    sum_to(s, s.len())
}

/// The amounts of a run of milestones, in order.
pub open spec fn amounts_of(ms: Seq<Milestone>) -> Seq<int> {
    Seq::new(ms.len(), |i: int| ms[i].amount as int)
}

/// Every milestone has been approved.
pub open spec fn all_approved(ms: Seq<Milestone>) -> bool {
    forall|i: int| 0 <= i < ms.len() ==> (#[trigger] ms[i]).status == MilestoneStatus::Approved
}

/// The milestone `m` after approval at time `now`.
pub open spec fn approved_at(m: Milestone, now: u64) -> Milestone {
    Milestone { status: MilestoneStatus::Approved, approved_at: now, ..m }
}

/// A milestone of the given amount on which no work has been handed in.
pub open spec fn pending(amount: i128, deadline: u64) -> Milestone {
    Milestone {
        amount,
        status: MilestoneStatus::Pending,
        submitted_at: 0,
        approved_at: 0,
        deadline,
    }
}

/// The milestone at `i`, if it is under review, stands behind an approved
/// one.
pub open spec fn unlocked(ms: Seq<Milestone>, i: int) -> bool {
    ms[i].status == MilestoneStatus::Submitted ==> ms[i - 1].status == MilestoneStatus::Approved
}

impl EscrowView {
    /// What creation establishes and every operation keeps: two distinct
    /// parties, at least one milestone, positive amounts that add up to the
    /// total, a positive review window, a deadline after creation that each
    /// milestone carries too.
    pub open spec fn wf(self) -> bool {
        &&& self.client != self.freelancer
        &&& self.milestones.len() >= 1
        &&& self.total_amount == sum(amounts_of(self.milestones))
        &&& self.review_window > 0
        &&& self.deadline > self.created_at
        &&& forall|i: int|
            0 <= i < self.milestones.len() ==> {
                &&& (#[trigger] self.milestones[i]).amount > 0
                &&& self.milestones[i].deadline == self.deadline
            }
    }

    /// Strict unlocking: a milestone under review has an approved predecessor.
    pub open spec fn sequenced(self) -> bool {
        forall|i: int| 0 < i < self.milestones.len() ==> #[trigger] unlocked(self.milestones, i)
    }

    /// The escrow is completed exactly when every milestone is approved.
    pub open spec fn completion_exact(self) -> bool {
        self.state == EscrowState::Completed <==> all_approved(self.milestones)
    }
}

} // verus!
