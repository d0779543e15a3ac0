use milestone_escrow::{
    Escrow, EscrowContract, EscrowError, EscrowState, MilestoneStatus, Payout,
};

const NOW: u64 = 100;
const DEADLINE: u64 = 1_000_000;

fn payer() -> String {
    String::from("payer")
}

fn performer() -> String {
    String::from("performer")
}

fn id() -> String {
    String::from("deal")
}

fn sum_of(e: &Escrow) -> i128 {
    e.milestones.iter().map(|m| m.amount).sum()
}

fn all_approved(e: &Escrow) -> bool {
    e.milestones.iter().all(|m| m.status == MilestoneStatus::Approved)
}

fn released_amount(e: &Escrow) -> i128 {
    e.milestones
        .iter()
        .filter(|m| m.status == MilestoneStatus::Approved)
        .map(|m| m.amount)
        .sum()
}

fn rank(s: EscrowState) -> u8 {
    match s {
        EscrowState::Created => 0,
        EscrowState::Funded => 1,
        EscrowState::Active => 2,
        EscrowState::Completed => 3,
        EscrowState::Cancelled => 4,
    }
}

fn in_sequence(e: &Escrow) -> bool {
    (1..e.milestones.len()).all(|i| {
        e.milestones[i].status != MilestoneStatus::Submitted
            || e.milestones[i - 1].status == MilestoneStatus::Approved
    })
}

/// Tries one request, chosen by `pick`, and gives the payouts it ordered.
fn request(e: &mut Escrow, pick: u32, now: u64) -> Vec<Payout> {
    let index = (pick / 8) % 4;
    match pick % 8 {
        0 => {
            let _ = EscrowContract::deposit_funds(e, &payer());
            vec![]
        }
        1 | 2 => {
            let _ = EscrowContract::submit_milestone(e, &performer(), index, now);
            vec![]
        }
        3 | 4 => EscrowContract::approve_milestone(e, &payer(), index, now).into_iter().collect(),
        5 => {
            let _ = EscrowContract::reject_milestone(e, &payer(), index);
            vec![]
        }
        6 => EscrowContract::auto_approve(e, index, now).into_iter().collect(),
        _ => {
            let _ = EscrowContract::submit_milestone(e, &payer(), index, now);
            vec![]
        }
    }
}

fn walk(seed: u64, steps: u32, with_release: bool) {
    let amounts: Vec<i128> = vec![100, 250, 75];
    let mut e = EscrowContract::create_escrow(
        id(),
        payer(),
        performer(),
        &amounts,
        1,
        DEADLINE,
        NOW,
    )
    .unwrap();
    let mut paid: Vec<u32> = vec![0, 0, 0];
    let mut paid_total: i128 = 0;
    let mut stage = rank(e.state);
    let mut state = seed;
    let mut now = NOW;
    let mut released = false;
    for _ in 0..steps {
        state = state.wrapping_mul(6364136223846793005).wrapping_add(1442695040888963407);
        let pick = (state >> 33) as u32;
        now += 50_000;
        let due = if with_release && pick % 97 == 0 {
            match EscrowContract::auto_release(&mut e, &id(), now) {
                Ok(ps) => {
                    released = true;
                    ps
                }
                Err(_) => vec![],
            }
        } else {
            request(&mut e, pick, now)
        };
        for p in due {
            assert_eq!(p.amount, amounts[p.index]);
            assert_eq!(e.milestones[p.index].status, MilestoneStatus::Approved);
            paid[p.index] += 1;
            paid_total += p.amount;
        }
        assert_eq!(paid_total, released_amount(&e));
        assert!(paid_total <= e.total_amount);
        assert!(rank(e.state) >= stage);
        stage = rank(e.state);
        assert_eq!(e.total_amount, 425);
        assert_eq!(sum_of(&e), 425);
        assert_eq!(e.milestones.len(), 3);
        assert!(in_sequence(&e));
        for i in 0..3 {
            assert!(paid[i] <= 1);
            assert_eq!(paid[i] == 1, e.milestones[i].status == MilestoneStatus::Approved);
        }
        if !released {
            assert_eq!(e.state == EscrowState::Completed, all_approved(&e));
        } else {
            assert_eq!(e.state, EscrowState::Completed);
        }
    }
}

#[test]
fn total_sequence_and_single_payment_hold_along_many_runs() {
    for seed in 0..40u64 {
        walk(seed, 120, false);
    }
}

#[test]
fn the_same_holds_when_a_forced_release_cuts_in() {
    for seed in 0..40u64 {
        walk(seed * 7 + 3, 200, true);
    }
}

#[test]
fn completion_comes_with_the_last_approval_and_not_before() {
    let mut e =
        EscrowContract::create_escrow(id(), payer(), performer(), &vec![1, 2, 3], 1, DEADLINE, NOW)
            .unwrap();
    EscrowContract::deposit_funds(&mut e, &payer()).unwrap();
    for i in 0..3u32 {
        assert_ne!(e.state, EscrowState::Completed);
        EscrowContract::submit_milestone(&mut e, &performer(), i, NOW + 1).unwrap();
        assert_ne!(e.state, EscrowState::Completed);
        EscrowContract::approve_milestone(&mut e, &payer(), i, NOW + 2).unwrap();
    }
    assert_eq!(e.state, EscrowState::Completed);
    assert!(all_approved(&e));
}

#[test]
fn an_approved_milestone_is_paid_by_no_other_path() {
    let mut e =
        EscrowContract::create_escrow(id(), payer(), performer(), &vec![9, 8], 1, DEADLINE, NOW)
            .unwrap();
    EscrowContract::deposit_funds(&mut e, &payer()).unwrap();
    EscrowContract::submit_milestone(&mut e, &performer(), 0, NOW).unwrap();
    assert_eq!(
        EscrowContract::approve_milestone(&mut e, &payer(), 0, NOW + 1),
        Ok(Payout { index: 0, amount: 9 })
    );
    assert!(EscrowContract::auto_approve(&mut e, 0, u64::MAX).is_err());
    assert!(EscrowContract::approve_milestone(&mut e, &payer(), 0, NOW + 2).is_err());
    assert_eq!(EscrowContract::auto_release(&mut e, &id(), DEADLINE), Ok(vec![]));
    assert_eq!(e.milestones[0].approved_at, NOW + 1);
}

#[test]
fn a_cancelled_escrow_refuses_every_request() {
    let mut e =
        EscrowContract::create_escrow(id(), payer(), performer(), &vec![500], 1, DEADLINE, NOW)
            .unwrap();
    EscrowContract::deposit_funds(&mut e, &payer()).unwrap();
    EscrowContract::submit_milestone(&mut e, &performer(), 0, NOW).unwrap();
    e.state = EscrowState::Cancelled;
    let before = e.clone();

    assert_eq!(
        EscrowContract::approve_milestone(&mut e, &payer(), 0, NOW + 1),
        Err(EscrowError::InvalidState)
    );
    assert_eq!(e, before);
    assert_eq!(e.state, EscrowState::Cancelled);
    assert_eq!(e.milestones[0].status, MilestoneStatus::Submitted);

    assert_eq!(
        EscrowContract::auto_approve(&mut e, 0, NOW + 86400),
        Err(EscrowError::InvalidState)
    );
    assert_eq!(
        EscrowContract::reject_milestone(&mut e, &payer(), 0),
        Err(EscrowError::InvalidState)
    );
    assert_eq!(
        EscrowContract::submit_milestone(&mut e, &performer(), 0, NOW + 2),
        Err(EscrowError::InvalidState)
    );
    assert_eq!(EscrowContract::deposit_funds(&mut e, &payer()), Err(EscrowError::InvalidState));
    assert_eq!(
        EscrowContract::auto_release(&mut e, &id(), DEADLINE),
        Err(EscrowError::AlreadyCancelled)
    );
    assert_eq!(e, before);
}

#[test]
fn a_cancelled_escrow_reports_the_other_refusals_first() {
    let mut e =
        EscrowContract::create_escrow(id(), payer(), performer(), &vec![5, 6], 1, DEADLINE, NOW)
            .unwrap();
    EscrowContract::deposit_funds(&mut e, &payer()).unwrap();
    EscrowContract::submit_milestone(&mut e, &performer(), 0, NOW).unwrap();
    e.state = EscrowState::Cancelled;

    assert_eq!(
        EscrowContract::approve_milestone(&mut e, &performer(), 0, NOW),
        Err(EscrowError::WrongCaller)
    );
    assert_eq!(
        EscrowContract::approve_milestone(&mut e, &payer(), 2, NOW),
        Err(EscrowError::IndexOutOfRange)
    );
    assert_eq!(
        EscrowContract::approve_milestone(&mut e, &payer(), 1, NOW),
        Err(EscrowError::MilestoneNotApprovable)
    );
    assert_eq!(
        EscrowContract::reject_milestone(&mut e, &payer(), 1),
        Err(EscrowError::MilestoneNotRejectable)
    );
    assert_eq!(EscrowContract::auto_approve(&mut e, 2, NOW), Err(EscrowError::IndexOutOfRange));
    assert_eq!(
        EscrowContract::auto_approve(&mut e, 1, u64::MAX),
        Err(EscrowError::MilestoneNotSubmitted)
    );
    assert_eq!(
        EscrowContract::auto_approve(&mut e, 0, NOW + 86399),
        Err(EscrowError::ReviewWindowOpen)
    );
}

#[test]
fn a_completed_escrow_stays_completed() {
    let mut e =
        EscrowContract::create_escrow(id(), payer(), performer(), &vec![5, 6], 1, DEADLINE, NOW)
            .unwrap();
    EscrowContract::deposit_funds(&mut e, &payer()).unwrap();
    EscrowContract::submit_milestone(&mut e, &performer(), 0, NOW).unwrap();
    EscrowContract::auto_release(&mut e, &id(), DEADLINE).unwrap();
    assert_eq!(e.state, EscrowState::Completed);
    let before = e.clone();
    assert!(EscrowContract::deposit_funds(&mut e, &payer()).is_err());
    assert!(EscrowContract::submit_milestone(&mut e, &performer(), 1, DEADLINE).is_err());
    assert!(EscrowContract::approve_milestone(&mut e, &payer(), 1, DEADLINE).is_err());
    assert!(EscrowContract::reject_milestone(&mut e, &payer(), 1).is_err());
    assert!(EscrowContract::auto_approve(&mut e, 1, u64::MAX).is_err());
    assert_eq!(e, before);
    assert_eq!(EscrowContract::auto_release(&mut e, &id(), DEADLINE + 1), Ok(vec![]));
    assert_eq!(e, before);
}
