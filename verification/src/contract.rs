//! The operations on an escrow record.
//!
//! Each takes the record and the facts of the request (who asks, which
//! milestone, what time it is) and either changes the record as the rules say
//! or refuses and leaves it as it was. Moving funds, proving identities and
//! keeping the record are left to the caller, who is told which transfer an
//! accepted operation calls for.

use vstd::prelude::*;
use crate::model::{
    all_approved, pending, sum, sum_to, Escrow, EscrowError, EscrowState, Milestone,
    MilestoneStatus, Payout, SECONDS_PER_DAY,
};
use crate::laws::{creation_is_sound, request_keeps_invariants};
use crate::rules::{
    amounts_valid, as_ints, created, creation_error, payouts, release_payouts, released, step,
    with_approval, Operation,
};

verus! {

/// The escrow engine. Its operations are associated functions: the record
/// is handed in by the caller.
pub struct EscrowContract;

/// Adding entries that are not negative does not lower a sum.
proof fn lemma_sum_grows(s: Seq<int>, n: nat, m: nat)
    requires
        n <= m <= s.len(),
        forall|j: int| n <= j < m ==> s[j] >= 0,
    ensures
        sum_to(s, n) <= sum_to(s, m),
    decreases m,
{
    if n < m {
        lemma_sum_grows(s, n, (m - 1) as nat);
    }
}

/// Whether every milestone of `ms` is approved.
fn every_milestone_approved(ms: &Vec<Milestone>) -> (r: bool)
    ensures
        r == all_approved(ms@),
{
    let n: usize = ms.len();
    let mut i: usize = 0;
    while i < n
        invariant
            i <= n,
            n == ms.len(),
            forall|j: int| 0 <= j < i ==> (#[trigger] ms@[j]).status == MilestoneStatus::Approved,
        decreases n - i,
    {
        if ms[i].status != MilestoneStatus::Approved {
            return false;
        }
        i += 1;
    }
    true
}

/// Approves the milestone at `index` at time `now`, completes the escrow
/// if none is left open, and gives the payout that this calls for.
fn approve_at(escrow: &mut Escrow, index: usize, now: u64) -> (p: Payout)
    requires
        index < old(escrow).milestones.len(),
    ensures
        final(escrow)@ == with_approval(old(escrow)@, index as int, now),
        p == (Payout { index, amount: old(escrow).milestones[index as int].amount }),
{
    let m: Milestone = escrow.milestones[index];
    escrow.milestones.set(
        index,
        Milestone { status: MilestoneStatus::Approved, approved_at: now, ..m },
    );
    if every_milestone_approved(&escrow.milestones) {
        escrow.state = EscrowState::Completed;
    }
    Payout { index, amount: m.amount }
}

impl EscrowContract {
    /// Builds a new escrow between `client`, who pays, and `freelancer`,
    /// who performs, with one pending milestone per amount, at time `now`.
    ///
    /// Refused when the parties are the same, when no amount is given, when
    /// an amount is not positive or the amounts add up to more than an
    /// `i128` holds, when the review window is zero days, or when the
    /// deadline is not after `now`; the first of these that applies is
    /// reported.
    pub fn create_escrow(
        escrow_id: String,
        client: String,
        freelancer: String,
        milestone_amounts: &Vec<i128>,
        review_window_days: u32,
        deadline_timestamp: u64,
        now: u64,
    ) -> (r: Result<Escrow, EscrowError>)
        ensures
            match creation_error(
                client@,
                freelancer@,
                milestone_amounts@,
                review_window_days,
                deadline_timestamp,
                now,
            ) {
                Some(err) => r == Err::<Escrow, EscrowError>(err),
                None => r matches Ok(rec) && rec@ == created(
                    escrow_id@,
                    client@,
                    freelancer@,
                    milestone_amounts@,
                    review_window_days,
                    deadline_timestamp,
                    now,
                ),
            },
            r matches Ok(rec) ==> rec@.wf() && rec@.sequenced() && rec@.completion_exact()
                && rec@.total_amount == sum(
                as_ints(milestone_amounts@),
            ),
    {
        if client == freelancer {
            return Err(EscrowError::InvalidParties);
        }
        let n: usize = milestone_amounts.len();
        if n == 0 {
            return Err(EscrowError::EmptyMilestoneSet);
        }
        let ghost ints = as_ints(milestone_amounts@);
        let mut total: i128 = 0;
        let mut milestones: Vec<Milestone> = Vec::new();
        let mut i: usize = 0;
        while i < n
            invariant
                i <= n,
                0 < n,
                n == milestone_amounts.len(),
                client@ != freelancer@,
                ints == as_ints(milestone_amounts@),
                0 <= total,
                total == sum_to(ints, i as nat),
                milestones@.len() == i,
                forall|j: int| 0 <= j < i ==> #[trigger] milestone_amounts@[j] > 0,
                forall|j: int|
                    0 <= j < i ==> #[trigger] milestones@[j] == pending(
                        milestone_amounts@[j],
                        deadline_timestamp,
                    ),
            decreases n - i,
        {
            let amount: i128 = milestone_amounts[i];
            if amount <= 0 {
                assert(!(milestone_amounts@[i as int] > 0));
                return Err(EscrowError::InvalidAmount);
            }
            if amount > i128::MAX - total {
                proof {
                    if amounts_valid(milestone_amounts@) {
                        assert forall|j: int| i + 1 <= j < n implies ints[j] >= 0 by {
                            assert(milestone_amounts@[j] > 0);
                        }
                        assert(sum_to(ints, (i + 1) as nat) == total + amount);
                        lemma_sum_grows(ints, (i + 1) as nat, n as nat);
                    }
                }
                return Err(EscrowError::InvalidAmount);
            }
            total = total + amount;
            milestones.push(
                Milestone {
                    amount,
                    status: MilestoneStatus::Pending,
                    submitted_at: 0,
                    approved_at: 0,
                    deadline: deadline_timestamp,
                },
            );
            i += 1;
        }
        if review_window_days == 0 {
            return Err(EscrowError::InvalidReviewWindow);
        }
        if deadline_timestamp <= now {
            return Err(EscrowError::InvalidDeadline);
        }
        let review_window: u64 = (review_window_days as u64) * SECONDS_PER_DAY;
        let rec = Escrow {
            escrow_id,
            client,
            freelancer,
            total_amount: total,
            milestones,
            review_window,
            state: EscrowState::Created,
            created_at: now,
            deadline: deadline_timestamp,
        };
        assert(rec@.milestones =~= created(
            escrow_id@,
            client@,
            freelancer@,
            milestone_amounts@,
            review_window_days,
            deadline_timestamp,
            now,
        ).milestones);
        proof {
            creation_is_sound(
                escrow_id@,
                client@,
                freelancer@,
                milestone_amounts@,
                review_window_days,
                deadline_timestamp,
                now,
            );
        }
        Ok(rec)
    }

    /// Records that `client` has paid the escrow in. Accepted once, from the
    /// payer, on a record that is `Created`; the result is the amount to
    /// move from the payer into custody.
    pub fn deposit_funds(escrow: &mut Escrow, client: &String) -> (r: Result<i128, EscrowError>)
        ensures
            match step(old(escrow)@, Operation::Fund { caller: client@ }, 0) {
                Ok(next) => {
                    &&& r == Ok::<i128, EscrowError>(old(escrow).total_amount)
                    &&& final(escrow)@ == next
                },
                Err(err) => {
                    &&& r == Err::<i128, EscrowError>(err)
                    &&& *final(escrow) == *old(escrow)
                },
            },
            old(escrow)@.wf() ==> final(escrow)@.wf(),
            old(escrow)@.sequenced() ==> final(escrow)@.sequenced(),
            old(escrow)@.completion_exact() ==> final(escrow)@.completion_exact(),
    {
        proof {
            request_keeps_invariants(escrow@, Operation::Fund { caller: client@ }, 0);
        }
        if escrow.client != *client {
            return Err(EscrowError::WrongCaller);
        }
        if escrow.state != EscrowState::Created {
            return Err(EscrowError::InvalidState);
        }
        escrow.state = EscrowState::Funded;
        Ok(escrow.total_amount)
    }

    /// Hands in the milestone at `milestone_index` for review at time `now`.
    /// Only the performer may, on a funded or active escrow, for a milestone
    /// that is pending or was rejected and whose predecessor is approved.
    pub fn submit_milestone(
        escrow: &mut Escrow,
        freelancer: &String,
        milestone_index: u32,
        now: u64,
    ) -> (r: Result<(), EscrowError>)
        ensures
            match step(
                old(escrow)@,
                Operation::Submit { caller: freelancer@, index: milestone_index as int },
                now,
            ) {
                Ok(next) => {
                    &&& r == Ok::<(), EscrowError>(())
                    &&& final(escrow)@ == next
                },
                Err(err) => {
                    &&& r == Err::<(), EscrowError>(err)
                    &&& *final(escrow) == *old(escrow)
                },
            },
            old(escrow)@.wf() ==> final(escrow)@.wf(),
            old(escrow)@.sequenced() ==> final(escrow)@.sequenced(),
            old(escrow)@.completion_exact() ==> final(escrow)@.completion_exact(),
    {
        proof {
            request_keeps_invariants(
                escrow@,
                Operation::Submit { caller: freelancer@, index: milestone_index as int },
                now,
            );
        }
        if escrow.freelancer != *freelancer {
            return Err(EscrowError::WrongCaller);
        }
        if escrow.state != EscrowState::Funded && escrow.state != EscrowState::Active {
            return Err(EscrowError::InvalidState);
        }
        let index: usize = milestone_index as usize;
        if index >= escrow.milestones.len() {
            return Err(EscrowError::IndexOutOfRange);
        }
        let m: Milestone = escrow.milestones[index];
        if m.status != MilestoneStatus::Pending && m.status != MilestoneStatus::Rejected {
            return Err(EscrowError::MilestoneNotSubmittable);
        }
        if index > 0 && escrow.milestones[index - 1].status != MilestoneStatus::Approved {
            return Err(EscrowError::PriorMilestoneIncomplete);
        }
        escrow.milestones.set(
            index,
            Milestone { status: MilestoneStatus::Submitted, submitted_at: now, ..m },
        );
        escrow.state = EscrowState::Active;
        Ok(())
    }

    /// Approves the milestone at `milestone_index` at time `now`, on the
    /// payer's word. The result is the payout to make to the performer. The
    /// escrow is completed when this was the last milestone open. A
    /// cancelled escrow refuses as `InvalidState`.
    pub fn approve_milestone(
        escrow: &mut Escrow,
        client: &String,
        milestone_index: u32,
        now: u64,
    ) -> (r: Result<Payout, EscrowError>)
        ensures
            match step(
                old(escrow)@,
                Operation::Approve { caller: client@, index: milestone_index as int },
                now,
            ) {
                Ok(next) => {
                    &&& r matches Ok(p) && p == (Payout {
                        index: milestone_index as usize,
                        amount: old(escrow).milestones[milestone_index as int].amount,
                    }) && seq![p] == payouts(
                        old(escrow)@,
                        Operation::Approve { caller: client@, index: milestone_index as int },
                    )
                    &&& final(escrow)@ == next
                },
                Err(err) => {
                    &&& r == Err::<Payout, EscrowError>(err)
                    &&& *final(escrow) == *old(escrow)
                },
            },
            old(escrow)@.wf() ==> final(escrow)@.wf(),
            old(escrow)@.sequenced() ==> final(escrow)@.sequenced(),
            old(escrow)@.completion_exact() ==> final(escrow)@.completion_exact(),
    {
        proof {
            request_keeps_invariants(
                escrow@,
                Operation::Approve { caller: client@, index: milestone_index as int },
                now,
            );
        }
        if escrow.client != *client {
            return Err(EscrowError::WrongCaller);
        }
        let index: usize = milestone_index as usize;
        if index >= escrow.milestones.len() {
            return Err(EscrowError::IndexOutOfRange);
        }
        if escrow.milestones[index].status != MilestoneStatus::Submitted {
            return Err(EscrowError::MilestoneNotApprovable);
        }
        if escrow.state == EscrowState::Cancelled {
            return Err(EscrowError::InvalidState);
        }
        Ok(approve_at(escrow, index, now))
    }

    /// Sends the milestone at `milestone_index` back to the performer, on
    /// the payer's word. No funds move; the milestone can be handed in again.
    /// A cancelled escrow refuses as `InvalidState`.
    pub fn reject_milestone(escrow: &mut Escrow, client: &String, milestone_index: u32) -> (r:
        Result<(), EscrowError>)
        ensures
            match step(
                old(escrow)@,
                Operation::Reject { caller: client@, index: milestone_index as int },
                0,
            ) {
                Ok(next) => {
                    &&& r == Ok::<(), EscrowError>(())
                    &&& final(escrow)@ == next
                },
                Err(err) => {
                    &&& r == Err::<(), EscrowError>(err)
                    &&& *final(escrow) == *old(escrow)
                },
            },
            old(escrow)@.wf() ==> final(escrow)@.wf(),
            old(escrow)@.sequenced() ==> final(escrow)@.sequenced(),
            old(escrow)@.completion_exact() ==> final(escrow)@.completion_exact(),
    {
        proof {
            request_keeps_invariants(
                escrow@,
                Operation::Reject { caller: client@, index: milestone_index as int },
                0,
            );
        }
        if escrow.client != *client {
            return Err(EscrowError::WrongCaller);
        }
        let index: usize = milestone_index as usize;
        if index >= escrow.milestones.len() {
            return Err(EscrowError::IndexOutOfRange);
        }
        let m: Milestone = escrow.milestones[index];
        if m.status != MilestoneStatus::Submitted {
            return Err(EscrowError::MilestoneNotRejectable);
        }
        if escrow.state == EscrowState::Cancelled {
            return Err(EscrowError::InvalidState);
        }
        escrow.milestones.set(index, Milestone { status: MilestoneStatus::Rejected, ..m });
        Ok(())
    }

    /// Approves the milestone at `milestone_index` because its review window
    /// has run out at time `now`. Anyone may ask. The effect is that of an
    /// approval by the payer. A cancelled escrow refuses as `InvalidState`.
    pub fn auto_approve(escrow: &mut Escrow, milestone_index: u32, now: u64) -> (r: Result<
        Payout,
        EscrowError,
    >)
        ensures
            match step(
                old(escrow)@,
                Operation::AutoApprove { index: milestone_index as int },
                now,
            ) {
                Ok(next) => {
                    &&& r matches Ok(p) && p == (Payout {
                        index: milestone_index as usize,
                        amount: old(escrow).milestones[milestone_index as int].amount,
                    }) && seq![p] == payouts(
                        old(escrow)@,
                        Operation::AutoApprove { index: milestone_index as int },
                    )
                    &&& final(escrow)@ == next
                },
                Err(err) => {
                    &&& r == Err::<Payout, EscrowError>(err)
                    &&& *final(escrow) == *old(escrow)
                },
            },
            old(escrow)@.wf() ==> final(escrow)@.wf(),
            old(escrow)@.sequenced() ==> final(escrow)@.sequenced(),
            old(escrow)@.completion_exact() ==> final(escrow)@.completion_exact(),
    {
        proof {
            request_keeps_invariants(
                escrow@,
                Operation::AutoApprove { index: milestone_index as int },
                now,
            );
        }
        let index: usize = milestone_index as usize;
        if index >= escrow.milestones.len() {
            return Err(EscrowError::IndexOutOfRange);
        }
        let m: Milestone = escrow.milestones[index];
        if m.status != MilestoneStatus::Submitted {
            return Err(EscrowError::MilestoneNotSubmitted);
        }
        let opens: u128 = (m.submitted_at as u128) + (escrow.review_window as u128);
        if (now as u128) < opens {
            return Err(EscrowError::ReviewWindowOpen);
        }
        if escrow.state == EscrowState::Cancelled {
            return Err(EscrowError::InvalidState);
        }
        Ok(approve_at(escrow, index, now))
    }

    /// Closes the escrow because its final deadline has passed at time
    /// `now`. Anyone may ask. Every milestone under review is approved; the
    /// result lists their payouts in ascending order. Milestones that are
    /// pending or rejected stay so and are paid nothing. The escrow is then
    /// completed, whatever its milestones.
    pub fn auto_release(escrow: &mut Escrow, escrow_id: &String, now: u64) -> (r: Result<
        Vec<Payout>,
        EscrowError,
    >)
        ensures
            match step(old(escrow)@, Operation::AutoRelease { escrow_id: escrow_id@ }, now) {
                Ok(next) => {
                    &&& r matches Ok(ps) && ps@ == payouts(
                        old(escrow)@,
                        Operation::AutoRelease { escrow_id: escrow_id@ },
                    )
                    &&& final(escrow)@ == next
                },
                Err(err) => {
                    &&& r == Err::<Vec<Payout>, EscrowError>(err)
                    &&& *final(escrow) == *old(escrow)
                },
            },
            old(escrow)@.wf() ==> final(escrow)@.wf(),
            old(escrow)@.sequenced() ==> final(escrow)@.sequenced(),
    {
        proof {
            request_keeps_invariants(
                escrow@,
                Operation::AutoRelease { escrow_id: escrow_id@ },
                now,
            );
        }
        if escrow.escrow_id != *escrow_id {
            return Err(EscrowError::IdMismatch);
        }
        if now < escrow.deadline {
            return Err(EscrowError::DeadlineNotReached);
        }
        if escrow.state == EscrowState::Cancelled {
            return Err(EscrowError::AlreadyCancelled);
        }
        let n: usize = escrow.milestones.len();
        let mut after: Vec<Milestone> = Vec::new();
        let mut due: Vec<Payout> = Vec::new();
        let mut i: usize = 0;
        while i < n
            invariant
                i <= n,
                n == escrow.milestones.len(),
                after@.len() == i,
                forall|j: int|
                    0 <= j < i ==> #[trigger] after@[j] == released(escrow.milestones@, now)[j],
                due@ == release_payouts(escrow.milestones@, i as nat),
            decreases n - i,
        {
            let m: Milestone = escrow.milestones[i];
            if m.status == MilestoneStatus::Submitted {
                due.push(Payout { index: i, amount: m.amount });
                after.push(Milestone { status: MilestoneStatus::Approved, approved_at: now, ..m });
            } else {
                after.push(m);
            }
            i += 1;
        }
        assert(after@ =~= released(escrow.milestones@, now));
        escrow.milestones = after;
        escrow.state = EscrowState::Completed;
        Ok(due)
    }

    /// A copy of the record.
    pub fn get_escrow(escrow: &Escrow) -> (r: Escrow)
        ensures
            r@ == escrow@,
    {
        let n: usize = escrow.milestones.len();
        let mut milestones: Vec<Milestone> = Vec::new();
        let mut i: usize = 0;
        while i < n
            invariant
                i <= n,
                n == escrow.milestones.len(),
                milestones@.len() == i,
                forall|j: int| 0 <= j < i ==> #[trigger] milestones@[j] == escrow.milestones@[j],
            decreases n - i,
        {
            milestones.push(escrow.milestones[i]);
            i += 1;
        }
        assert(milestones@ =~= escrow.milestones@);
        Escrow {
            escrow_id: escrow.escrow_id.clone(),
            client: escrow.client.clone(),
            freelancer: escrow.freelancer.clone(),
            total_amount: escrow.total_amount,
            milestones,
            review_window: escrow.review_window,
            state: escrow.state,
            created_at: escrow.created_at,
            deadline: escrow.deadline,
        }
    }

    /// The milestone at `milestone_index`, if there is one.
    pub fn get_milestone(escrow: &Escrow, milestone_index: u32) -> (r: Result<
        Milestone,
        EscrowError,
    >)
        ensures
            milestone_index < escrow.milestones.len() ==> r == Ok::<Milestone, EscrowError>(
                escrow.milestones[milestone_index as int],
            ),
            milestone_index >= escrow.milestones.len() ==> r == Err::<Milestone, EscrowError>(
                EscrowError::IndexOutOfRange,
            ),
    {
        let index: usize = milestone_index as usize;
        if index >= escrow.milestones.len() {
            return Err(EscrowError::IndexOutOfRange);
        }
        Ok(escrow.milestones[index])
    }
}

} // verus!
