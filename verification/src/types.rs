//! The data model of the crowdfunding ledger: campaign records, their
//! mathematical view, the error taxonomy and the event shapes, together
//! with the spec-level transition functions that the operation contracts
//! are stated over.

use vstd::prelude::*;

verus! {

/// Account identifier in the host ledger. Callers reach the ledger already
/// authenticated by the host's identity service.
pub type AccountId = u64;

/// Balance quantity of the host ledger's currency (unsigned).
pub type Balance = u64;

/// Opaque fixed-width campaign identifier, supplied by the initiator
/// (for instance a content hash).
pub type ProjectId = u64;

/// One crowdfunding campaign, keyed in the ledger by its `ProjectId`.
#[derive(Clone, Debug, PartialEq, Eq)]
pub struct ProjectInfo {
    /// Campaign creator; immutable after creation, receives the pot.
    pub owner: AccountId,
    /// Contributions currently held in the pot for this campaign.
    pub total_fund: Balance,
    /// Funding goal; reaching it settles the campaign.
    pub target_fund: Balance,
    /// Minimum accepted per individual contribution.
    pub min_fund: Balance,
    /// Accounts that contributed at least once, without duplicates.
    pub contributors: Vec<AccountId>,
    /// `true` while the campaign is active; `false` is terminal.
    pub status: bool,
    /// Custodial account that holds pooled funds during the campaign.
    pub pot_account: AccountId,
}

/// Mathematical view of a `ProjectInfo`.
pub ghost struct ProjectRec {
    pub owner: AccountId,
    pub total_fund: Balance,
    pub target_fund: Balance,
    pub min_fund: Balance,
    pub contributors: Seq<AccountId>,
    pub status: bool,
    pub pot_account: AccountId,
}

impl View for ProjectInfo {
    type V = ProjectRec;

    open spec fn view(&self) -> ProjectRec {
        ProjectRec {
            owner: self.owner,
            total_fund: self.total_fund,
            target_fund: self.target_fund,
            min_fund: self.min_fund,
            contributors: self.contributors@,
            status: self.status,
            pot_account: self.pot_account,
        }
    }
}

/// No account appears twice.
pub open spec fn no_dups(s: Seq<AccountId>) -> bool {
    forall|i: int, j: int| 0 <= i < j < s.len() ==> s[i] != s[j]
}

/// Well-formedness of a stored record: an active campaign never holds more
/// than its target, a terminal campaign holds nothing (its pot was swept),
/// and the contributor list has no duplicates.
pub open spec fn wf_record(r: ProjectRec) -> bool {
    &&& r.status ==> r.total_fund <= r.target_fund
    &&& !r.status ==> r.total_fund == 0
    &&& no_dups(r.contributors)
}

/// The record stored at creation: owner, pot, target and minimum are taken
/// from the supplied description; the running state starts fresh.
pub open spec fn initiated(descr: ProjectRec) -> ProjectRec {
    ProjectRec {
        total_fund: 0,
        contributors: Seq::empty(),
        status: true,
        ..descr
    }
}

/// A contribution is admissible on an active record that is still short of
/// its target, when the amount meets the per-contribution minimum.
pub open spec fn fund_allowed(r: ProjectRec, amount: Balance) -> bool {
    &&& r.status
    &&& r.total_fund < r.target_fund
    &&& amount >= r.min_fund
}

/// Record after one accepted contribution, before any settlement: the total
/// grows by the amount and the caller joins the contributors if new.
pub open spec fn contributed(r: ProjectRec, caller: AccountId, amount: Balance) -> ProjectRec {
    ProjectRec {
        total_fund: (r.total_fund + amount) as Balance,
        contributors: if r.contributors.contains(caller) {
            r.contributors
        } else {
            r.contributors.push(caller)
        },
        ..r
    }
}

/// Record after settlement or an owner stop: terminal, pot swept to the
/// owner, nothing left in the pot.
pub open spec fn closed(r: ProjectRec) -> ProjectRec {
    ProjectRec { status: false, total_fund: 0, ..r }
}

/// Appending an account that is not yet present keeps the list duplicate-free.
pub proof fn lemma_no_dups_push(s: Seq<AccountId>, x: AccountId)
    requires
        no_dups(s),
        !s.contains(x),
    ensures
        no_dups(s.push(x)),
{
    assert forall|i: int, j: int| 0 <= i < j < s.push(x).len() implies s.push(x)[i] != s.push(x)[j] by {
        if j == s.len() {
            assert(s.push(x)[i] == s[i]);
            if s[i] == x {
                assert(s.contains(x));
            }
        } else {
            assert(s.push(x)[i] == s[i]);
            assert(s.push(x)[j] == s[j]);
        }
    }
}

/// Why the value-transfer service refused a transfer.
#[derive(Clone, Copy, Debug, PartialEq, Eq, Structural)]
pub enum TransferError {
    /// The sender does not hold the amount.
    InsufficientBalance,
    /// The transfer would leave the sender below the existential minimum
    /// (the ledger's keep-alive policy).
    WouldKillSender,
    /// The recipient's balance would not fit in a `Balance`.
    Overflow,
}

/// Terminal, non-retriable failures of the three entry operations.
#[derive(Clone, Copy, Debug, PartialEq, Eq, Structural)]
pub enum Error {
    /// No record under the given project identifier.
    ProjectNotFound,
    /// The operation needs an active campaign, but it is settled or stopped.
    ProjectNotActive,
    /// The goal is already met; further contributions are rejected.
    TargetAmountReached,
    /// The contribution is below the campaign's minimum.
    IncreaseAmount,
    /// Only the campaign owner may stop it.
    OnlyOwnerCanStopCrowdFunding,
    /// A record already exists under the given project identifier.
    DuplicateProjectIdNotAllowed,
    /// The value-transfer service refused a required transfer; the whole
    /// transition was aborted and no state changed.
    TransferFailed(TransferError),
}

/// Events emitted after a state commit, in commit order.
#[derive(Clone, Debug, PartialEq, Eq)]
pub enum Event {
    /// A campaign was created; carries the stored record.
    CrowdFundingInitiated { project: ProjectInfo },
    /// A contribution moved from a contributor to the pot.
    CrowdFundTransfer { source: AccountId, destination: AccountId },
    /// The pot was swept to the owner (settlement or stop).
    CrowdFundWithdrawn { source: AccountId, destination: AccountId },
    /// A campaign was stopped early by its owner.
    CrowdFundingStopped { project: ProjectId },
}

} // verus!
