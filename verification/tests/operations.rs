//! The three entry operations, exercised one rule at a time.

use crowdfund_ledger::{Error, Pallet, ProjectInfo};

const ALICE: u64 = 1;
const BOB: u64 = 2;
const CHARLIE: u64 = 3;
const PROJECT_ID: u64 = 40;

fn project_descr() -> ProjectInfo {
    ProjectInfo {
        owner: ALICE,
        total_fund: 0,
        target_fund: 100,
        min_fund: 10,
        contributors: vec![],
        status: true,
        pot_account: CHARLIE,
    }
}

fn funded_ledger() -> Pallet {
    let mut pallet = Pallet::new(1);
    pallet.set_balance(ALICE, 1000);
    pallet.set_balance(BOB, 1000);
    pallet.set_balance(CHARLIE, 1000);
    pallet
}

#[test]
fn initiate_project_successfully() {
    let mut pallet = funded_ledger();
    let pr = project_descr();
    assert_eq!(pallet.initiate_project(ALICE, PROJECT_ID, pr), Ok(()));
}

#[test]
fn initiate_duplicate_project_fail() {
    let mut pallet = funded_ledger();
    let pr = project_descr();
    assert_eq!(pallet.initiate_project(ALICE, PROJECT_ID, pr.clone()), Ok(()));
    assert_eq!(
        pallet.initiate_project(ALICE, PROJECT_ID, pr),
        Err(Error::DuplicateProjectIdNotAllowed)
    );
}

#[test]
fn fund_project_successfully() {
    let mut pallet = funded_ledger();
    assert_eq!(pallet.initiate_project(ALICE, PROJECT_ID, project_descr()), Ok(()));
    assert_eq!(pallet.fund_project(BOB, PROJECT_ID, 70), Ok(()));
}

#[test]
fn fund_inactive_project_fail() {
    let mut pallet = funded_ledger();
    assert_eq!(pallet.initiate_project(ALICE, PROJECT_ID, project_descr()), Ok(()));
    assert_eq!(pallet.fund_project(BOB, PROJECT_ID, 100), Ok(()));
    assert_eq!(
        pallet.fund_project(CHARLIE, PROJECT_ID, 10),
        Err(Error::ProjectNotActive)
    );
}

#[test]
fn fund_project_below_min_amount_fail() {
    let mut pallet = funded_ledger();
    assert_eq!(pallet.initiate_project(ALICE, PROJECT_ID, project_descr()), Ok(()));
    assert_eq!(
        pallet.fund_project(CHARLIE, PROJECT_ID, 5),
        Err(Error::IncreaseAmount)
    );
}

#[test]
fn stop_crowdfunding_successfully() {
    let mut pallet = funded_ledger();
    assert_eq!(pallet.initiate_project(ALICE, PROJECT_ID, project_descr()), Ok(()));
    assert_eq!(pallet.stop_crowdfunding(ALICE, PROJECT_ID), Ok(()));
}

#[test]
fn stop_crowdfunding_fail() {
    let mut pallet = funded_ledger();
    assert_eq!(pallet.initiate_project(ALICE, PROJECT_ID, project_descr()), Ok(()));
    assert_eq!(
        pallet.stop_crowdfunding(CHARLIE, PROJECT_ID),
        Err(Error::OnlyOwnerCanStopCrowdFunding)
    );
}

#[test]
fn fund_unknown_project_fail() {
    let mut pallet = funded_ledger();
    assert_eq!(
        pallet.fund_project(BOB, PROJECT_ID, 10),
        Err(Error::ProjectNotFound)
    );
}

#[test]
fn stop_unknown_project_fail() {
    let mut pallet = funded_ledger();
    assert_eq!(
        pallet.stop_crowdfunding(ALICE, PROJECT_ID),
        Err(Error::ProjectNotFound)
    );
}

#[test]
fn initiate_resets_running_state() {
    let mut pallet = funded_ledger();
    let pr = ProjectInfo {
        owner: ALICE,
        total_fund: 55,
        target_fund: 100,
        min_fund: 10,
        contributors: vec![9, 9],
        status: false,
        pot_account: CHARLIE,
    };
    assert_eq!(pallet.initiate_project(BOB, PROJECT_ID, pr), Ok(()));
    let stored = pallet.tasks(PROJECT_ID).unwrap();
    assert_eq!(stored.owner, ALICE);
    assert_eq!(stored.pot_account, CHARLIE);
    assert_eq!(stored.target_fund, 100);
    assert_eq!(stored.min_fund, 10);
    assert_eq!(stored.total_fund, 0);
    assert_eq!(stored.contributors, Vec::<u64>::new());
    assert!(stored.status);
}

#[test]
fn initiate_duplicate_leaves_record_unchanged() {
    let mut pallet = funded_ledger();
    assert_eq!(pallet.initiate_project(ALICE, PROJECT_ID, project_descr()), Ok(()));
    let other = ProjectInfo {
        owner: BOB,
        total_fund: 0,
        target_fund: 999,
        min_fund: 1,
        contributors: vec![],
        status: true,
        pot_account: BOB,
    };
    assert_eq!(
        pallet.initiate_project(BOB, PROJECT_ID, other),
        Err(Error::DuplicateProjectIdNotAllowed)
    );
    let stored = pallet.tasks(PROJECT_ID).unwrap();
    assert_eq!(stored.owner, ALICE);
    assert_eq!(stored.target_fund, 100);
}

#[test]
fn fund_below_min_changes_nothing() {
    let mut pallet = funded_ledger();
    assert_eq!(pallet.initiate_project(ALICE, PROJECT_ID, project_descr()), Ok(()));
    assert_eq!(pallet.fund_project(BOB, PROJECT_ID, 70), Ok(()));
    assert_eq!(
        pallet.fund_project(BOB, PROJECT_ID, 9),
        Err(Error::IncreaseAmount)
    );
    assert_eq!(pallet.tasks(PROJECT_ID).unwrap().total_fund, 70);
    assert_eq!(pallet.balance_of(BOB), 930);
}

#[test]
fn fund_target_already_met_fail() {
    let mut pallet = funded_ledger();
    let pr = ProjectInfo {
        owner: ALICE,
        total_fund: 0,
        target_fund: 0,
        min_fund: 10,
        contributors: vec![],
        status: true,
        pot_account: CHARLIE,
    };
    assert_eq!(pallet.initiate_project(ALICE, PROJECT_ID, pr), Ok(()));
    assert_eq!(
        pallet.fund_project(BOB, PROJECT_ID, 10),
        Err(Error::TargetAmountReached)
    );
    assert_eq!(pallet.tasks(PROJECT_ID).unwrap().total_fund, 0);
}

#[test]
fn fund_adds_each_contributor_once() {
    let mut pallet = funded_ledger();
    pallet.set_balance(4, 1000);
    assert_eq!(pallet.initiate_project(ALICE, PROJECT_ID, project_descr()), Ok(()));
    assert_eq!(pallet.fund_project(BOB, PROJECT_ID, 10), Ok(()));
    assert_eq!(pallet.fund_project(BOB, PROJECT_ID, 10), Ok(()));
    assert_eq!(pallet.fund_project(4, PROJECT_ID, 10), Ok(()));
    assert_eq!(pallet.tasks(PROJECT_ID).unwrap().contributors, vec![BOB, 4]);
    assert_eq!(pallet.tasks(PROJECT_ID).unwrap().total_fund, 30);
}
