//! Ledger-wide laws, stated over the same spec-level transition functions
//! that the operation contracts use, and proved once and for all.

use vstd::prelude::*;
use crate::pallet::{fund_outcome, stop_outcome, Pallet};
use crate::types::{
    contributed, fund_allowed, wf_record, AccountId, Balance, Error, ProjectId, ProjectRec,
};

verus! {

/// Sum of the amounts of a sequence of contributions (caller, amount).
pub open spec fn amounts_sum(steps: Seq<(AccountId, Balance)>) -> int
    decreases steps.len(),
{
    if steps.len() == 0 {
        0
    } else {
        amounts_sum(steps.drop_last()) + steps.last().1
    }
}

/// The distinct callers of a sequence of contributions.
pub open spec fn callers_of(steps: Seq<(AccountId, Balance)>) -> Set<AccountId>
    decreases steps.len(),
{
    if steps.len() == 0 {
        Set::empty()
    } else {
        callers_of(steps.drop_last()).insert(steps.last().0)
    }
}

/// Record after a sequence of accepted contributions, in order.
pub open spec fn after_contributions(r: ProjectRec, steps: Seq<(AccountId, Balance)>) -> ProjectRec
    decreases steps.len(),
{
    if steps.len() == 0 {
        r
    } else {
        contributed(after_contributions(r, steps.drop_last()), steps.last().0, steps.last().1)
    }
}

/// Every contribution of the sequence is admissible when its turn comes and
/// none reaches the target, so none triggers settlement.
pub open spec fn contributions_below_target(
    r: ProjectRec,
    steps: Seq<(AccountId, Balance)>,
) -> bool
    decreases steps.len(),
{
    if steps.len() == 0 {
        true
    } else {
        let prev = after_contributions(r, steps.drop_last());
        &&& contributions_below_target(r, steps.drop_last())
        &&& fund_allowed(prev, steps.last().1)
        &&& prev.total_fund + steps.last().1 < prev.target_fund
    }
}

/// Appending one element to a sequence inserts it into the sequence's set.
proof fn lemma_push_to_set(s: Seq<AccountId>, x: AccountId)
    ensures
        s.push(x).to_set() == s.to_set().insert(x),
{
    assert forall|y: AccountId| s.push(x).contains(y) implies s.to_set().insert(x).contains(y) by {
        let i = choose|i: int| 0 <= i < s.push(x).len() && s.push(x)[i] == y;
        if i < s.len() {
            assert(s[i] == y);
        }
    }
    assert forall|y: AccountId| s.to_set().insert(x).contains(y) implies s.push(x).contains(y) by {
        if y == x {
            assert(s.push(x)[s.len() as int] == y);
        } else {
            let i = choose|i: int| 0 <= i < s.len() && s[i] == y;
            assert(s.push(x)[i] == y);
        }
    }
    assert(s.push(x).to_set() =~= s.to_set().insert(x));
}

/// Law: after any sequence of accepted contributions that never reaches the
/// target, the campaign is still active and well formed, its total equals
/// the starting total plus the sum of the accepted amounts, its contributor
/// set equals the starting set joined with the callers of those
/// contributions, and the campaign's terms (owner, pot, target, minimum)
/// are untouched.
pub proof fn lemma_fund_accumulation(r: ProjectRec, steps: Seq<(AccountId, Balance)>)
    requires
        wf_record(r),
        r.status,
        contributions_below_target(r, steps),
    ensures
        after_contributions(r, steps).total_fund == r.total_fund + amounts_sum(steps),
        after_contributions(r, steps).contributors.to_set() == r.contributors.to_set().union(
            callers_of(steps),
        ),
        wf_record(after_contributions(r, steps)),
        after_contributions(r, steps).status,
        after_contributions(r, steps).owner == r.owner,
        after_contributions(r, steps).pot_account == r.pot_account,
        after_contributions(r, steps).target_fund == r.target_fund,
        after_contributions(r, steps).min_fund == r.min_fund,
    decreases steps.len(),
{
    if steps.len() == 0 {
        assert(r.contributors.to_set() =~= r.contributors.to_set().union(Set::empty()));
    } else {
        lemma_fund_accumulation(r, steps.drop_last());
        let prev = after_contributions(r, steps.drop_last());
        let c = steps.last().0;
        let a = steps.last().1;
        let next = contributed(prev, c, a);
        if prev.contributors.contains(c) {
            assert(prev.contributors.to_set().contains(c));
            assert(next.contributors.to_set() =~= prev.contributors.to_set().insert(c));
        } else {
            lemma_push_to_set(prev.contributors, c);
            crate::types::lemma_no_dups_push(prev.contributors, c);
        }
        assert(next.contributors.to_set() == prev.contributors.to_set().insert(c));
        assert(r.contributors.to_set().union(callers_of(steps.drop_last())).insert(c)
            =~= r.contributors.to_set().union(callers_of(steps)));
    }
}

/// Law: once a campaign is terminal, funding it fails with
/// `ProjectNotActive` whoever calls, and the owner's `stop` fails the same
/// way; a non-owner's `stop` still fails, with the ownership error.
pub proof fn lemma_terminal_rejects(
    s: Pallet,
    caller: AccountId,
    project_id: ProjectId,
    amount: Balance,
)
    requires
        s.has_project(project_id),
        !s.project(project_id).status,
    ensures
        fund_outcome(s, caller, project_id, amount) == Err::<(), Error>(Error::ProjectNotActive),
        caller == s.project(project_id).owner ==> stop_outcome(s, caller, project_id) == Err::<
            (),
            Error,
        >(Error::ProjectNotActive),
        caller != s.project(project_id).owner ==> stop_outcome(s, caller, project_id) == Err::<
            (),
            Error,
        >(Error::OnlyOwnerCanStopCrowdFunding),
{
}

} // verus!
