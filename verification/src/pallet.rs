//! The crowdfunding ledger itself: a map from project identifier to campaign
//! record, the account balances it moves value over, and the log of emitted
//! events, exercised through the three entry operations `initiate_project`,
//! `fund_project` and `stop_crowdfunding`.
//!
//! Each operation checks every rule, and that every required transfer goes
//! through, before it mutates anything: a call that returns an error leaves
//! the ledger exactly as it found it.

use vstd::prelude::*;
use std::collections::HashMap;
use crate::balances::{transfer_check, xfer, Balances};
use crate::types::{
    closed, contributed, initiated, lemma_no_dups_push, wf_record,
    AccountId, Balance, Error, Event, ProjectId, ProjectInfo, ProjectRec, TransferError,
};

verus! {

broadcast use vstd::std_specs::hash::group_hash_axioms;

/// The crowdfunding ledger: campaign records keyed by project identifier,
/// the account balances, and the events emitted so far, in commit order.
pub struct Pallet {
    projects: HashMap<ProjectId, ProjectInfo>,
    balances: Balances,
    events: Vec<Event>,
}

impl Pallet {
    /// Is a campaign stored under this identifier?
    pub closed spec fn has_project(self, project_id: ProjectId) -> bool {
        self.projects@.contains_key(project_id)
    }

    /// The record stored under this identifier.
    pub closed spec fn project(self, project_id: ProjectId) -> ProjectRec {
        self.projects@[project_id]@
    }

    /// Balance of every account.
    pub closed spec fn balance_map(self) -> Map<AccountId, Balance> {
        self.balances@
    }

    /// Balance of one account.
    pub open spec fn bal(self, who: AccountId) -> Balance {
        self.balance_map()[who]
    }

    /// The keep-alive threshold of the value-transfer service.
    pub closed spec fn existential_minimum(self) -> Balance {
        self.balances.existential_minimum()
    }

    /// Events emitted so far, oldest first.
    pub closed spec fn events_log(self) -> Seq<Event> {
        self.events@
    }

    /// Every stored record is well formed.
    pub open spec fn wf(self) -> bool {
        forall|q: ProjectId| #[trigger] self.has_project(q) ==> wf_record(self.project(q))
    }

    /// An empty ledger: no campaigns, every account at zero, no events.
    pub fn new(existential_min: Balance) -> (r: Pallet)
        ensures
            forall|q: ProjectId| !r.has_project(q),
            r.balance_map() == crate::balances::zero_balances(),
            r.events_log() == Seq::<Event>::empty(),
            r.existential_minimum() == existential_min,
            r.wf(),
    {
        Pallet {
            projects: HashMap::new(),
            balances: Balances::new(existential_min),
            events: Vec::new(),
        }
    }

    /// Overwrite one account's balance: the endowment step that in the host
    /// ledger happens outside the crowdfunding rules.
    pub fn set_balance(&mut self, who: AccountId, amount: Balance)
        ensures
            final(self).balance_map() == old(self).balance_map().insert(who, amount),
            final(self).existential_minimum() == old(self).existential_minimum(),
            forall|q: ProjectId| #[trigger] final(self).has_project(q) <==> old(
                self,
            ).has_project(q),
            forall|q: ProjectId| old(self).has_project(q) ==> #[trigger] final(self).project(q)
                == old(self).project(q),
            final(self).events_log() == old(self).events_log(),
            old(self).wf() ==> final(self).wf(),
    {
        self.balances.set_balance(who, amount);
        proof {
            if old(self).wf() {
                assert forall|q: ProjectId| #[trigger] self.has_project(q) implies wf_record(
                    self.project(q),
                ) by {
                    assert(old(self).has_project(q));
                }
            }
        }
    }

    /// Current balance of one account.
    pub fn balance_of(&self, who: AccountId) -> (r: Balance)
        ensures
            r == self.bal(who),
    {
        self.balances.balance_of(who)
    }

    /// Direct lookup of a stored campaign record.
    pub fn tasks(&self, project_id: ProjectId) -> (r: Option<&ProjectInfo>)
        ensures
            match r {
                Some(p) => self.has_project(project_id) && p@ == self.project(project_id),
                None => !self.has_project(project_id),
            },
    {
        self.projects.get(&project_id)
    }

    /// The events emitted so far, oldest first.
    pub fn events(&self) -> (r: &Vec<Event>)
        ensures
            r@ == self.events_log(),
    {
        &self.events
    }
}

/// Campaigns other than `project_id` are exactly as they were.
pub open spec fn others_unchanged(pre: Pallet, post: Pallet, project_id: ProjectId) -> bool {
    &&& forall|q: ProjectId|
        q != project_id ==> ((#[trigger] post.has_project(q)) <==> pre.has_project(q))
    &&& forall|q: ProjectId|
        q != project_id && pre.has_project(q) ==> (#[trigger] post.project(q)) == pre.project(q)
}

/// A campaign that was terminal stays terminal: `status` never returns
/// to `true`.
pub open spec fn terminal_stays(pre: Pallet, post: Pallet) -> bool {
    forall|q: ProjectId|
        (#[trigger] pre.has_project(q)) && !pre.project(q).status ==> post.has_project(q)
            && !post.project(q).status
}

/// What `initiate_project` answers on a given ledger state.
pub open spec fn initiate_outcome(s: Pallet, project_id: ProjectId) -> Result<(), Error> {
    if s.has_project(project_id) {
        Err(Error::DuplicateProjectIdNotAllowed)
    } else {
        Ok(())
    }
}

/// What `fund_project` answers on a given ledger state: the first failed
/// check wins, and a contribution is committed only if every transfer it
/// requires (including the settlement sweep, if the target is reached) goes
/// through.
pub open spec fn fund_outcome(
    s: Pallet,
    caller: AccountId,
    project_id: ProjectId,
    amount: Balance,
) -> Result<(), Error> {
    if !s.has_project(project_id) {
        Err(Error::ProjectNotFound)
    } else {
        let r = s.project(project_id);
        if !r.status {
            Err(Error::ProjectNotActive)
        } else if r.total_fund >= r.target_fund {
            Err(Error::TargetAmountReached)
        } else if amount < r.min_fund {
            Err(Error::IncreaseAmount)
        } else if r.total_fund + amount > u64::MAX {
            Err(Error::TransferFailed(TransferError::Overflow))
        } else {
            let new_total = (r.total_fund + amount) as Balance;
            match transfer_check(
                s.balance_map(),
                s.existential_minimum(),
                caller,
                r.pot_account,
                amount,
            ) {
                Some(e) => Err(Error::TransferFailed(e)),
                None => {
                    if new_total >= r.target_fund {
                        match transfer_check(
                            xfer(s.balance_map(), caller, r.pot_account, amount),
                            s.existential_minimum(),
                            r.pot_account,
                            r.owner,
                            new_total,
                        ) {
                            Some(e) => Err(Error::TransferFailed(e)),
                            None => Ok(()),
                        }
                    } else {
                        Ok(())
                    }
                },
            }
        }
    }
}

/// What `stop_crowdfunding` answers on a given ledger state.
pub open spec fn stop_outcome(s: Pallet, caller: AccountId, project_id: ProjectId) -> Result<
    (),
    Error,
> {
    if !s.has_project(project_id) {
        Err(Error::ProjectNotFound)
    } else {
        let r = s.project(project_id);
        if r.owner != caller {
            Err(Error::OnlyOwnerCanStopCrowdFunding)
        } else if !r.status {
            Err(Error::ProjectNotActive)
        } else {
            match transfer_check(
                s.balance_map(),
                s.existential_minimum(),
                r.pot_account,
                r.owner,
                r.total_fund,
            ) {
                Some(e) => Err(Error::TransferFailed(e)),
                None => Ok(()),
            }
        }
    }
}

/// Linear scan for one account in a contributor list.
fn contains_account(v: &Vec<AccountId>, x: AccountId) -> (r: bool)
    ensures
        r == v@.contains(x),
{
    let mut i: usize = 0;
    while i < v.len()
        invariant
            i <= v@.len(),
            forall|k: int| 0 <= k < i ==> v@[k] != x,
        decreases v@.len() - i,
    {
        if v[i] == x {
            return true;
        }
        i += 1;
    }
    false
}

impl Pallet {
    /// Register a new campaign under `project_id`.  The caller arrives
    /// already authenticated; following the stored record's own `owner`
    /// field, the caller is deliberately not required to equal it.  The
    /// supplied description contributes owner, pot account, target and
    /// minimum; the running state starts fresh: nothing funded, no
    /// contributors, active.
    pub fn initiate_project(
        &mut self,
        caller: AccountId,
        project_id: ProjectId,
        project: ProjectInfo,
    ) -> (r: Result<(), Error>)
        requires
            old(self).wf(),
        ensures
            final(self).wf(),
            r == initiate_outcome(*old(self), project_id),
            r is Err ==> *final(self) == *old(self),
            r is Ok ==> {
                &&& final(self).has_project(project_id)
                &&& final(self).project(project_id) == initiated(project@)
                &&& others_unchanged(*old(self), *final(self), project_id)
                &&& final(self).balance_map() == old(self).balance_map()
                &&& final(self).existential_minimum() == old(self).existential_minimum()
                &&& final(self).events_log().len() == old(self).events_log().len() + 1
                &&& forall|i: int|
                    0 <= i < old(self).events_log().len() ==> final(self).events_log()[i] == old(
                        self,
                    ).events_log()[i]
                &&& (final(self).events_log().last() matches Event::CrowdFundingInitiated {
                    project: p,
                } && p@ == initiated(project@))
            },
            terminal_stays(*old(self), *final(self)),
    {
        let _ = caller;
        if self.projects.contains_key(&project_id) {
            return Err(Error::DuplicateProjectIdNotAllowed);
        }
        let stored = ProjectInfo {
            owner: project.owner,
            total_fund: 0,
            target_fund: project.target_fund,
            min_fund: project.min_fund,
            contributors: Vec::new(),
            status: true,
            pot_account: project.pot_account,
        };
        let announced = ProjectInfo {
            owner: project.owner,
            total_fund: 0,
            target_fund: project.target_fund,
            min_fund: project.min_fund,
            contributors: Vec::new(),
            status: true,
            pot_account: project.pot_account,
        };
        self.events.push(Event::CrowdFundingInitiated { project: announced });
        self.projects.insert(project_id, stored);
        proof {
            assert(self.project(project_id) == initiated(project@));
            assert(wf_record(initiated(project@)));
            assert forall|q: ProjectId| #[trigger] self.has_project(q) implies wf_record(
                self.project(q),
            ) by {
                if q != project_id {
                    assert(old(self).has_project(q));
                }
            }
        }
        Ok(())
    }

    /// Contribute `amount` to an active campaign.  The amount moves from the
    /// caller to the pot; if the new total reaches the target, the same
    /// transition also sweeps the whole pot to the owner and closes the
    /// campaign, so no state where the goal is met but funds remain unswept
    /// is ever observable.  A contribution that overshoots the target is
    /// absorbed in full and forwarded to the owner at settlement.  Any
    /// failure, of a rule or of a required transfer, aborts the whole call
    /// with nothing changed.
    pub fn fund_project(
        &mut self,
        caller: AccountId,
        project_id: ProjectId,
        amount: Balance,
    ) -> (r: Result<(), Error>)
        requires
            old(self).wf(),
        ensures
            final(self).wf(),
            r == fund_outcome(*old(self), caller, project_id, amount),
            r is Err ==> *final(self) == *old(self),
            r is Ok ==> ({
                let rec0 = old(self).project(project_id);
                let new_total = (rec0.total_fund + amount) as Balance;
                let settling = new_total >= rec0.target_fund;
                &&& final(self).has_project(project_id)
                &&& final(self).project(project_id) == if settling {
                    closed(contributed(rec0, caller, amount))
                } else {
                    contributed(rec0, caller, amount)
                }
                &&& others_unchanged(*old(self), *final(self), project_id)
                &&& final(self).balance_map() == if settling {
                    xfer(
                        xfer(old(self).balance_map(), caller, rec0.pot_account, amount),
                        rec0.pot_account,
                        rec0.owner,
                        new_total,
                    )
                } else {
                    xfer(old(self).balance_map(), caller, rec0.pot_account, amount)
                }
                &&& final(self).existential_minimum() == old(self).existential_minimum()
                &&& final(self).events_log() == if settling {
                    old(self).events_log().push(
                        (Event::CrowdFundTransfer {
                            source: caller,
                            destination: rec0.pot_account,
                        }),
                    ).push(
                        (Event::CrowdFundWithdrawn {
                            source: rec0.pot_account,
                            destination: rec0.owner,
                        }),
                    )
                } else {
                    old(self).events_log().push(
                        (Event::CrowdFundTransfer {
                            source: caller,
                            destination: rec0.pot_account,
                        }),
                    )
                }
            }),
            terminal_stays(*old(self), *final(self)),
    {
        let (status, total, target, min_fund, owner, pot) = match self.projects.get(&project_id) {
            None => {
                return Err(Error::ProjectNotFound);
            },
            Some(rec) => (
                rec.status,
                rec.total_fund,
                rec.target_fund,
                rec.min_fund,
                rec.owner,
                rec.pot_account,
            ),
        };
        if !status {
            return Err(Error::ProjectNotActive);
        }
        if total >= target {
            return Err(Error::TargetAmountReached);
        }
        if amount < min_fund {
            return Err(Error::IncreaseAmount);
        }
        if amount > u64::MAX - total {
            return Err(Error::TransferFailed(TransferError::Overflow));
        }
        let new_total = total + amount;
        let settling = new_total >= target;
        if let Some(e) = self.balances.try_transfer_check(caller, pot, amount) {
            return Err(Error::TransferFailed(e));
        }
        if settling {
            if let Some(e) = self.balances.try_transfer_check_after(
                caller,
                pot,
                amount,
                pot,
                owner,
                new_total,
            ) {
                return Err(Error::TransferFailed(e));
            }
        }
        // Every rule holds and every required transfer is known to go
        // through: commit the transition.
        let moved = self.balances.transfer(caller, pot, amount);
        assert(moved is Ok);
        let mut rec = self.projects.remove(&project_id).unwrap();
        rec.total_fund = new_total;
        if !contains_account(&rec.contributors, caller) {
            rec.contributors.push(caller);
            proof {
                lemma_no_dups_push(
                    old(self).project(project_id).contributors,
                    caller,
                );
            }
        }
        self.events.push(Event::CrowdFundTransfer { source: caller, destination: pot });
        if settling {
            let swept = self.balances.transfer(pot, owner, new_total);
            assert(swept is Ok);
            rec.status = false;
            rec.total_fund = 0;
            self.events.push(Event::CrowdFundWithdrawn { source: pot, destination: owner });
        }
        self.projects.insert(project_id, rec);
        proof {
            let rec0 = old(self).project(project_id);
            assert(self.project(project_id) == if settling {
                closed(contributed(rec0, caller, amount))
            } else {
                contributed(rec0, caller, amount)
            });
            assert(wf_record(self.project(project_id)));
            assert forall|q: ProjectId| #[trigger] self.has_project(q) implies wf_record(
                self.project(q),
            ) by {
                if q != project_id {
                    assert(old(self).has_project(q));
                }
            }
        }
        Ok(())
    }

    /// Stop an active campaign early.  Only the owner may do it: the whole
    /// pot moves from the pot account to the owner, the total is zeroed and
    /// the campaign becomes terminal, all in one transition.  Any failure
    /// aborts the call with nothing changed.
    pub fn stop_crowdfunding(&mut self, caller: AccountId, project_id: ProjectId) -> (r: Result<
        (),
        Error,
    >)
        requires
            old(self).wf(),
        ensures
            final(self).wf(),
            r == stop_outcome(*old(self), caller, project_id),
            r is Err ==> *final(self) == *old(self),
            r is Ok ==> ({
                let rec0 = old(self).project(project_id);
                &&& final(self).has_project(project_id)
                &&& final(self).project(project_id) == closed(rec0)
                &&& others_unchanged(*old(self), *final(self), project_id)
                &&& final(self).balance_map() == xfer(
                    old(self).balance_map(),
                    rec0.pot_account,
                    rec0.owner,
                    rec0.total_fund,
                )
                &&& final(self).existential_minimum() == old(self).existential_minimum()
                &&& final(self).events_log() == old(self).events_log().push(
                    (Event::CrowdFundWithdrawn {
                        source: rec0.pot_account,
                        destination: rec0.owner,
                    }),
                )
            }),
            terminal_stays(*old(self), *final(self)),
    {
        let (status, total, owner, pot) = match self.projects.get(&project_id) {
            None => {
                return Err(Error::ProjectNotFound);
            },
            Some(rec) => (rec.status, rec.total_fund, rec.owner, rec.pot_account),
        };
        if owner != caller {
            return Err(Error::OnlyOwnerCanStopCrowdFunding);
        }
        if !status {
            return Err(Error::ProjectNotActive);
        }
        match self.balances.transfer(pot, owner, total) {
            Err(e) => {
                return Err(Error::TransferFailed(e));
            },
            Ok(()) => {},
        }
        let mut rec = self.projects.remove(&project_id).unwrap();
        rec.status = false;
        rec.total_fund = 0;
        self.events.push(Event::CrowdFundWithdrawn { source: pot, destination: owner });
        self.projects.insert(project_id, rec);
        proof {
            assert(self.project(project_id) == closed(old(self).project(project_id)));
            assert forall|q: ProjectId| #[trigger] self.has_project(q) implies wf_record(
                self.project(q),
            ) by {
                if q != project_id {
                    assert(old(self).has_project(q));
                }
            }
        }
        Ok(())
    }
}

} // verus!
