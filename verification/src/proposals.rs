//! The proposal store: quorum-weighted governance proposals and the votes
//! cast on them. A proposal accepts votes for `VOTING_WINDOW` after its
//! creation and may be executed until `EXECUTION_WINDOW` after it; each user
//! votes at most once per proposal, with power frozen at cast time.

use vstd::prelude::*;

use crate::access::AccessPassRegistry;
use crate::config::GlobalConfig;
use crate::errors::ErrorCode;
use crate::identity::AccountId;
use crate::params::{
    valid_time,
    EXECUTION_WINDOW,
    MAX_BURN_AMOUNT,
    MIN_BURN_AMOUNT,
    MIN_PROPOSAL_BALANCE,
    MIN_VOTING_BALANCE,
    QUORUM_MIN_VOTERS,
    QUORUM_MIN_YES_PERCENT,
    VOTING_WINDOW,
};

verus! {

/// A governance proposal and its running tallies.
#[derive(Clone, Debug, PartialEq, Eq)]
pub struct Proposal {
    /// The proposal's id, assigned from the global counter; never reused.
    pub id: u64,
    /// Who created the proposal.
    pub proposer: AccountId,
    /// What the proposal changes: 0 = access cost, 1 = fee mode,
    /// 2 = emergency unlock, 3 = prize distribution.
    pub proposal_type: u8,
    /// Free-form text describing the proposal.
    pub description: String,
    /// The value the proposal would set, for the types that carry one.
    pub target_value: u64,
    /// When the proposal was created.
    pub created_at: i64,
    /// Until when votes are accepted: creation plus `VOTING_WINDOW`.
    pub voting_deadline: i64,
    /// Until when execution is allowed: creation plus `EXECUTION_WINDOW`.
    pub execution_deadline: i64,
    /// Total voting power cast in favour.
    pub yes_votes: u64,
    /// Total voting power cast against.
    pub no_votes: u64,
    /// How many unique voters have voted.
    pub total_voters: u32,
    /// Whether the proposal has been executed; terminal.
    pub executed: bool,
    /// Whether the proposal was cancelled; terminal.
    pub cancelled: bool,
}

impl Proposal {
    /// A single proposal is well formed when its deadlines are the two policy
    /// windows after its creation, its type is one of the four kinds, at most
    /// one terminal flag is set, and its tallies carry at least the minimum
    /// voting power per counted voter.
    pub open spec fn wf(self) -> bool {
        &&& self.id >= 1
        &&& self.proposal_type <= 3
        &&& valid_time(self.created_at)
        &&& self.voting_deadline == self.created_at + VOTING_WINDOW
        &&& self.execution_deadline == self.created_at + EXECUTION_WINDOW
        &&& !(self.executed && self.cancelled)
        &&& self.total_voters * MIN_VOTING_BALANCE <= self.yes_votes + self.no_votes
    }
}

/// One user's vote on one proposal; at most one exists per (proposal, user).
#[derive(Clone, Copy, Debug, PartialEq, Eq, Structural)]
pub struct UserVote {
    /// Who voted.
    pub user: AccountId,
    /// The proposal the vote was cast on.
    pub proposal_id: u64,
    /// The choice: true = yes, false = no.
    pub vote: bool,
    /// The voter's balance at cast time; never re-evaluated.
    pub voting_power: u64,
    /// Always true for a recorded vote; kept for the host's bookkeeping.
    pub has_voted: bool,
}

impl UserVote {
    /// A recorded vote is well formed when it is marked cast, names a real
    /// proposal id, and carries at least the minimum voting balance.
    pub open spec fn wf(self) -> bool {
        &&& self.has_voted
        &&& self.proposal_id >= 1
        &&& self.voting_power >= MIN_VOTING_BALANCE
    }
}

/// Where a proposal stands, derived from its fields and the clock.
#[derive(Clone, Copy, Debug, PartialEq, Eq, Structural)]
pub enum ProposalStatus {
    /// The voting window is still open.
    VotingOpen,
    /// Voting closed, quorum reached, and the execution window is open.
    ReadyForExecution,
    /// Voting closed without reaching quorum; still inside the execution
    /// window.
    Failed,
    /// The proposal was executed.
    Executed,
    /// The proposal was cancelled.
    Cancelled,
    /// The execution window passed without execution.
    Expired,
}

/// A user's standing for governance participation at one moment.
#[derive(Clone, Copy, Debug, PartialEq, Eq, Structural)]
pub struct VotingEligibility {
    /// Whether the user holds an active access pass.
    pub has_active_access: bool,
    /// The balance the host read for the user, in raw token units.
    pub wzn_balance: u64,
    /// Whether the user may vote: active access and the voting minimum.
    pub can_vote: bool,
    /// Whether the user may create proposals: active access and the
    /// proposal minimum.
    pub can_create_proposal: bool,
    /// The power a vote cast now would carry: the balance itself.
    pub voting_power: u64,
}

/// The share of cast voting power in favour, in whole percent, rounded
/// down; zero when no power was cast at all.
pub open spec fn spec_yes_percentage(yes: u64, no: u64) -> int {
    if yes + no == 0 {
        0
    } else {
        (yes * 100) / (yes + no)
    }
}

/// Whether tallies meet quorum: at least `QUORUM_MIN_VOTERS` unique voters
/// and at least `QUORUM_MIN_YES_PERCENT` percent of cast power in favour. A
/// proposal with no cast power never meets quorum.
pub open spec fn spec_quorum_met(yes: u64, no: u64, total_voters: u32) -> bool {
    &&& total_voters >= QUORUM_MIN_VOTERS
    &&& spec_yes_percentage(yes, no) >= QUORUM_MIN_YES_PERCENT
}

/// Decides quorum for the given tallies, exactly as `spec_quorum_met` reads.
pub fn quorum_reached(yes: u64, no: u64, total_voters: u32) -> (r: bool)
    ensures
        r == spec_quorum_met(yes, no, total_voters),
{
    if total_voters < QUORUM_MIN_VOTERS {
        return false;
    }
    let total: u128 = yes as u128 + no as u128;
    if total == 0 {
        return false;
    }
    let pct: u128 = (yes as u128 * 100) / total;
    pct >= QUORUM_MIN_YES_PERCENT as u128
}

/// Where a proposal stands at time `now`: terminal flags first, then the
/// voting window, then the execution window with the quorum test, then
/// expiry.
pub open spec fn spec_proposal_status(p: Proposal, now: i64) -> ProposalStatus {
    if p.cancelled {
        ProposalStatus::Cancelled
    } else if p.executed {
        ProposalStatus::Executed
    } else if now <= p.voting_deadline {
        ProposalStatus::VotingOpen
    } else if now <= p.execution_deadline {
        if spec_quorum_met(p.yes_votes, p.no_votes, p.total_voters) {
            ProposalStatus::ReadyForExecution
        } else {
            ProposalStatus::Failed
        }
    } else {
        ProposalStatus::Expired
    }
}

/// The store of every proposal and every vote cast on them.
#[derive(Clone, Debug)]
pub struct ProposalStore {
    /// The proposals, with pairwise distinct ids.
    pub proposals: Vec<Proposal>,
    /// The cast votes, with pairwise distinct (proposal, user) pairs.
    pub votes: Vec<UserVote>,
}

impl ProposalStore {
    /// The store's invariant: ids and (proposal, user) pairs are unique and
    /// every record is well formed.
    pub open spec fn wf(self) -> bool {
        &&& forall|i: int, j: int|
            0 <= i < j < self.proposals@.len() ==> (#[trigger] self.proposals@[i]).id != (
            #[trigger] self.proposals@[j]).id
        &&& forall|i: int| 0 <= i < self.proposals@.len() ==> (#[trigger] self.proposals@[i]).wf()
        &&& forall|i: int, j: int|
            0 <= i < j < self.votes@.len() ==> !((#[trigger] self.votes@[i]).proposal_id == (
            #[trigger] self.votes@[j]).proposal_id && self.votes@[i].user == self.votes@[j].user)
        &&& forall|i: int| 0 <= i < self.votes@.len() ==> (#[trigger] self.votes@[i]).wf()
    }

    /// Every stored proposal id stays below the configuration's counter, so
    /// the next assigned id is fresh.
    pub open spec fn consistent_with(self, config: GlobalConfig) -> bool {
        forall|i: int|
            0 <= i < self.proposals@.len() ==> (#[trigger] self.proposals@[i]).id
                < config.next_proposal_id
    }

    /// Whether some stored proposal carries `id`.
    pub open spec fn has_proposal(self, id: u64) -> bool {
        exists|i: int| 0 <= i < self.proposals@.len() && (#[trigger] self.proposals@[i]).id == id
    }

    /// The position of the proposal carrying `id`; meaningful only while
    /// `has_proposal` holds.
    pub open spec fn proposal_index(self, id: u64) -> int {
        choose|i: int| 0 <= i < self.proposals@.len() && (#[trigger] self.proposals@[i]).id == id
    }

    /// The proposal stored under `id`, if any.
    pub open spec fn proposal_of(self, id: u64) -> Option<Proposal> {
        if self.has_proposal(id) {
            Some(self.proposals@[self.proposal_index(id)])
        } else {
            None
        }
    }

    /// Whether `user` has a vote on file for proposal `proposal_id`.
    pub open spec fn has_vote(self, proposal_id: u64, user: AccountId) -> bool {
        exists|i: int|
            0 <= i < self.votes@.len() && (#[trigger] self.votes@[i]).proposal_id == proposal_id
                && self.votes@[i].user == user
    }

    /// The position of `user`'s vote on `proposal_id`; meaningful only while
    /// `has_vote` holds.
    pub open spec fn vote_index(self, proposal_id: u64, user: AccountId) -> int {
        choose|i: int|
            0 <= i < self.votes@.len() && (#[trigger] self.votes@[i]).proposal_id == proposal_id
                && self.votes@[i].user == user
    }

    /// The vote `user` cast on `proposal_id`, if any.
    pub open spec fn vote_of(self, proposal_id: u64, user: AccountId) -> Option<UserVote> {
        if self.has_vote(proposal_id, user) {
            Some(self.votes@[self.vote_index(proposal_id, user)])
        } else {
            None
        }
    }

    /// In a store with unique ids, the proposal at a position carrying `id`
    /// is the proposal `proposal_of` answers.
    proof fn lemma_proposal_at(self, id: u64, i: int)
        requires
            self.wf(),
            0 <= i < self.proposals@.len(),
            self.proposals@[i].id == id,
        ensures
            self.has_proposal(id),
            self.proposal_index(id) == i,
            self.proposal_of(id) == Some(self.proposals@[i]),
    {
        assert(self.has_proposal(id));
        let j = self.proposal_index(id);
        assert(0 <= j < self.proposals@.len() && self.proposals@[j].id == id);
        if i < j {
            assert(self.proposals@[i].id != self.proposals@[j].id);
        } else if j < i {
            assert(self.proposals@[j].id != self.proposals@[i].id);
        }
    }

    /// In a store with unique (proposal, user) pairs, the vote at a position
    /// carrying the pair is the vote `vote_of` answers.
    proof fn lemma_vote_at(self, proposal_id: u64, user: AccountId, i: int)
        requires
            self.wf(),
            0 <= i < self.votes@.len(),
            self.votes@[i].proposal_id == proposal_id,
            self.votes@[i].user == user,
        ensures
            self.has_vote(proposal_id, user),
            self.vote_index(proposal_id, user) == i,
            self.vote_of(proposal_id, user) == Some(self.votes@[i]),
    {
        assert(self.has_vote(proposal_id, user));
        let j = self.vote_index(proposal_id, user);
        assert(0 <= j < self.votes@.len() && self.votes@[j].proposal_id == proposal_id
            && self.votes@[j].user == user);
        if i < j {
            assert(!(self.votes@[i].proposal_id == self.votes@[j].proposal_id && self.votes@[i].user
                == self.votes@[j].user));
        } else if j < i {
            assert(!(self.votes@[j].proposal_id == self.votes@[i].proposal_id && self.votes@[j].user
                == self.votes@[i].user));
        }
    }

    /// An empty store: no proposals, no votes.
    pub fn new() -> (r: ProposalStore)
        ensures
            r.wf(),
            forall|id: u64| #[trigger] r.proposal_of(id) is None,
            forall|id: u64, user: AccountId| #[trigger] r.vote_of(id, user) is None,
            r.proposals@.len() == 0,
            r.votes@.len() == 0,
    {
        let r = ProposalStore { proposals: Vec::new(), votes: Vec::new() };
        proof {
            assert(forall|id: u64| !(#[trigger] r.has_proposal(id)));
            assert(forall|id: u64, user: AccountId| !(#[trigger] r.has_vote(id, user)));
        }
        r
    }

    /// Finds the position of the proposal carrying `id`, or reports that
    /// none exists.
    fn find_proposal_index(&self, id: u64) -> (r: Option<usize>)
        requires
            self.wf(),
        ensures
            match r {
                Some(i) => 0 <= i < self.proposals@.len() && self.proposals@[i as int].id == id
                    && self.proposal_of(id) == Some(self.proposals@[i as int]),
                None => self.proposal_of(id) is None,
            },
    {
        let n = self.proposals.len();
        let mut i: usize = 0;
        while i < n
            invariant
                n == self.proposals@.len(),
                0 <= i <= n,
                self.wf(),
                forall|k: int| 0 <= k < i ==> (#[trigger] self.proposals@[k]).id != id,
            decreases n - i,
        {
            if self.proposals[i].id == id {
                proof {
                    self.lemma_proposal_at(id, i as int);
                }
                return Some(i);
            }
            i += 1;
        }
        proof {
            assert(!self.has_proposal(id));
        }
        None
    }

    /// Finds the position of `user`'s vote on `proposal_id`, or reports that
    /// none exists.
    fn find_vote_index(&self, proposal_id: u64, user: AccountId) -> (r: Option<usize>)
        requires
            self.wf(),
        ensures
            match r {
                Some(i) => 0 <= i < self.votes@.len() && self.vote_of(proposal_id, user) == Some(
                    self.votes@[i as int],
                ),
                None => self.vote_of(proposal_id, user) is None,
            },
    {
        let n = self.votes.len();
        let mut i: usize = 0;
        while i < n
            invariant
                n == self.votes@.len(),
                0 <= i <= n,
                self.wf(),
                forall|k: int|
                    0 <= k < i ==> !((#[trigger] self.votes@[k]).proposal_id == proposal_id
                        && self.votes@[k].user == user),
            decreases n - i,
        {
            if self.votes[i].proposal_id == proposal_id && self.votes[i].user == user {
                proof {
                    self.lemma_vote_at(proposal_id, user, i as int);
                }
                return Some(i);
            }
            i += 1;
        }
        proof {
            assert(!self.has_vote(proposal_id, user));
        }
        None
    }

    /// Reports where the proposal under `proposal_id` stands at time `now`,
    /// using the same quorum formula as execution; no state changes.
    pub fn get_proposal_status(&self, proposal_id: u64, now: i64) -> (r: Result<
        ProposalStatus,
        ErrorCode,
    >)
        requires
            self.wf(),
        ensures
            r == match self.proposal_of(proposal_id) {
                Some(p) => Ok::<ProposalStatus, ErrorCode>(spec_proposal_status(p, now)),
                None => Err::<ProposalStatus, ErrorCode>(ErrorCode::RecordNotFound),
            },
    {
        let i = match self.find_proposal_index(proposal_id) {
            Some(i) => i,
            None => {
                return Err(ErrorCode::RecordNotFound);
            },
        };
        let p = &self.proposals[i];
        if p.cancelled {
            Ok(ProposalStatus::Cancelled)
        } else if p.executed {
            Ok(ProposalStatus::Executed)
        } else if now <= p.voting_deadline {
            Ok(ProposalStatus::VotingOpen)
        } else if now <= p.execution_deadline {
            if quorum_reached(p.yes_votes, p.no_votes, p.total_voters) {
                Ok(ProposalStatus::ReadyForExecution)
            } else {
                Ok(ProposalStatus::Failed)
            }
        } else {
            Ok(ProposalStatus::Expired)
        }
    }

    /// Whether `user` has already voted on `proposal_id`; no state changes.
    pub fn check_user_vote_status(&self, proposal_id: u64, user: AccountId) -> (r: bool)
        requires
            self.wf(),
        ensures
            r == (self.vote_of(proposal_id, user) is Some),
    {
        self.find_vote_index(proposal_id, user).is_some()
    }
}

/// The proposal a successful creation call records: deadlines are the two
/// policy windows after `now` and every tally starts at zero.
pub open spec fn spec_new_proposal(
    id: u64,
    proposer: AccountId,
    proposal_type: u8,
    description: String,
    target_value: u64,
    now: i64,
) -> Proposal {
    Proposal {
        id,
        proposer,
        proposal_type,
        description,
        target_value,
        created_at: now,
        voting_deadline: (now + VOTING_WINDOW) as i64,
        execution_deadline: (now + EXECUTION_WINDOW) as i64,
        yes_votes: 0,
        no_votes: 0,
        total_voters: 0,
        executed: false,
        cancelled: false,
    }
}

/// What a creation attempt answers: the proposer needs an active pass and
/// the proposal-creation balance, the type must be one of the four kinds,
/// and the id counter must still have room.
pub open spec fn create_outcome(
    config: GlobalConfig,
    access: AccessPassRegistry,
    proposer: AccountId,
    proposal_type: u8,
    balance: u64,
    now: i64,
) -> Result<(), ErrorCode> {
    if !access.spec_has_access(proposer, now) {
        Err(ErrorCode::NoActiveAccess)
    } else if balance < MIN_PROPOSAL_BALANCE {
        Err(ErrorCode::InsufficientWznForProposal)
    } else if proposal_type > 3 {
        Err(ErrorCode::InvalidProposalType)
    } else if config.next_proposal_id == u64::MAX {
        Err(ErrorCode::ArithmeticOverflow)
    } else {
        Ok(())
    }
}

/// The proposal as one more vote leaves it: the chosen tally grows by the
/// voter's power and the voter count by one.
pub open spec fn spec_voted_proposal(p: Proposal, choice: bool, power: u64) -> Proposal {
    if choice {
        Proposal {
            yes_votes: (p.yes_votes + power) as u64,
            total_voters: (p.total_voters + 1) as u32,
            ..p
        }
    } else {
        Proposal {
            no_votes: (p.no_votes + power) as u64,
            total_voters: (p.total_voters + 1) as u32,
            ..p
        }
    }
}

/// What the type-specific step of execution answers once quorum is met: an
/// access-cost proposal must carry a cost in the policy range, a fee-mode
/// proposal one of the two modes; the two signal-only types always pass.
pub open spec fn spec_dispatch_outcome(p: Proposal) -> Result<(), ErrorCode> {
    if p.proposal_type == 0 && !(MIN_BURN_AMOUNT <= p.target_value <= MAX_BURN_AMOUNT) {
        Err(ErrorCode::InvalidAccessCost)
    } else if p.proposal_type == 1 && p.target_value > 1 {
        Err(ErrorCode::InvalidFeeMode)
    } else if p.proposal_type > 3 {
        Err(ErrorCode::InvalidProposalType)
    } else {
        Ok(())
    }
}

impl ProposalStore {
    /// Replacing the proposal at a position with one carrying the same id
    /// keeps the store well formed and leaves every other proposal and all
    /// votes as they were.
    proof fn lemma_proposal_updated(self, post: ProposalStore, i: int)
        requires
            self.wf(),
            0 <= i < self.proposals@.len(),
            post.proposals@ == self.proposals@.update(i, post.proposals@[i]),
            post.proposals@[i].id == self.proposals@[i].id,
            post.proposals@[i].wf(),
            post.votes@ == self.votes@,
        ensures
            post.wf(),
            post.proposal_of(self.proposals@[i].id) == Some(post.proposals@[i]),
            forall|id2: u64|
                id2 != self.proposals@[i].id ==> #[trigger] post.proposal_of(id2)
                    == self.proposal_of(id2),
            forall|id2: u64, u2: AccountId|
                #[trigger] post.vote_of(id2, u2) == self.vote_of(id2, u2),
    {
        let id = self.proposals@[i].id;
        assert(forall|k: int|
            0 <= k < post.proposals@.len() ==> (#[trigger] post.proposals@[k]).id
                == self.proposals@[k].id);
        assert forall|a: int, b: int| 0 <= a < b < post.proposals@.len() implies (
        #[trigger] post.proposals@[a]).id != (#[trigger] post.proposals@[b]).id by {
            assert(self.proposals@[a].id != self.proposals@[b].id);
        }
        post.lemma_proposal_at(id, i);
        assert forall|id2: u64| id2 != id implies #[trigger] post.proposal_of(id2)
            == self.proposal_of(id2) by {
            if self.has_proposal(id2) {
                let j = self.proposal_index(id2);
                assert(0 <= j < self.proposals@.len() && self.proposals@[j].id == id2);
                assert(post.proposals@[j] == self.proposals@[j]);
                self.lemma_proposal_at(id2, j);
                post.lemma_proposal_at(id2, j);
            } else {
                assert(forall|k: int|
                    0 <= k < post.proposals@.len() ==> (#[trigger] post.proposals@[k]).id != id2);
            }
        }
    }

    /// Appending a proposal with a fresh id keeps the store well formed and
    /// leaves every other proposal and all votes as they were.
    proof fn lemma_proposal_appended(self, post: ProposalStore, id: u64)
        requires
            self.wf(),
            !self.has_proposal(id),
            post.proposals@ == self.proposals@.push(post.proposals@.last()),
            post.proposals@.last().id == id,
            post.proposals@.last().wf(),
            post.votes@ == self.votes@,
        ensures
            post.wf(),
            post.proposal_of(id) == Some(post.proposals@.last()),
            forall|id2: u64|
                id2 != id ==> #[trigger] post.proposal_of(id2) == self.proposal_of(id2),
            forall|id2: u64, u2: AccountId|
                #[trigger] post.vote_of(id2, u2) == self.vote_of(id2, u2),
    {
        let n = self.proposals@.len() as int;
        assert(forall|k: int| 0 <= k < n ==> (#[trigger] self.proposals@[k]).id != id);
        assert forall|a: int, b: int| 0 <= a < b < post.proposals@.len() implies (
        #[trigger] post.proposals@[a]).id != (#[trigger] post.proposals@[b]).id by {
            if b < n {
                assert(self.proposals@[a].id != self.proposals@[b].id);
            } else {
                assert(post.proposals@[b].id == id);
                assert(self.proposals@[a].id != id);
            }
        }
        post.lemma_proposal_at(id, n);
        assert forall|id2: u64| id2 != id implies #[trigger] post.proposal_of(id2)
            == self.proposal_of(id2) by {
            if self.has_proposal(id2) {
                let j = self.proposal_index(id2);
                assert(0 <= j < n && self.proposals@[j].id == id2);
                assert(post.proposals@[j] == self.proposals@[j]);
                self.lemma_proposal_at(id2, j);
                post.lemma_proposal_at(id2, j);
            } else {
                assert(forall|k: int|
                    0 <= k < post.proposals@.len() ==> (#[trigger] post.proposals@[k]).id != id2);
            }
        }
    }

    /// Appending a vote for a pair with none on file keeps the store well
    /// formed and leaves every other vote and all proposals as they were.
    proof fn lemma_vote_appended(self, post: ProposalStore, proposal_id: u64, user: AccountId)
        requires
            self.wf(),
            !self.has_vote(proposal_id, user),
            post.votes@ == self.votes@.push(post.votes@.last()),
            post.votes@.last().proposal_id == proposal_id,
            post.votes@.last().user == user,
            post.votes@.last().wf(),
            post.proposals@ == self.proposals@,
        ensures
            post.wf(),
            post.vote_of(proposal_id, user) == Some(post.votes@.last()),
            forall|id2: u64, u2: AccountId|
                !(id2 == proposal_id && u2 == user) ==> #[trigger] post.vote_of(id2, u2)
                    == self.vote_of(id2, u2),
            forall|id2: u64| #[trigger] post.proposal_of(id2) == self.proposal_of(id2),
    {
        let n = self.votes@.len() as int;
        assert(forall|k: int|
            0 <= k < n ==> !((#[trigger] self.votes@[k]).proposal_id == proposal_id
                && self.votes@[k].user == user));
        assert forall|a: int, b: int| 0 <= a < b < post.votes@.len() implies !((
        #[trigger] post.votes@[a]).proposal_id == (#[trigger] post.votes@[b]).proposal_id
            && post.votes@[a].user == post.votes@[b].user) by {
            if b < n {
                assert(!(self.votes@[a].proposal_id == self.votes@[b].proposal_id
                    && self.votes@[a].user == self.votes@[b].user));
            } else {
                assert(post.votes@[b].proposal_id == proposal_id && post.votes@[b].user == user);
                assert(!(self.votes@[a].proposal_id == proposal_id && self.votes@[a].user == user));
            }
        }
        post.lemma_vote_at(proposal_id, user, n);
        assert forall|id2: u64, u2: AccountId| !(id2 == proposal_id && u2 == user) implies (
        #[trigger] post.vote_of(id2, u2)) == self.vote_of(id2, u2) by {
            if self.has_vote(id2, u2) {
                let j = self.vote_index(id2, u2);
                assert(0 <= j < n && self.votes@[j].proposal_id == id2 && self.votes@[j].user
                    == u2);
                assert(post.votes@[j] == self.votes@[j]);
                self.lemma_vote_at(id2, u2, j);
                post.lemma_vote_at(id2, u2, j);
            } else {
                assert(forall|k: int|
                    0 <= k < post.votes@.len() ==> !((#[trigger] post.votes@[k]).proposal_id == id2
                        && post.votes@[k].user == u2));
            }
        }
    }

    /// Creates a proposal under the next fresh id. The proposer needs an
    /// active pass and the proposal-creation balance; on success the new
    /// proposal starts with zero tallies and the configuration's counter
    /// advances. Nothing else changes.
    pub fn create_proposal(
        &mut self,
        config: &mut GlobalConfig,
        access: &AccessPassRegistry,
        proposer: AccountId,
        proposal_type: u8,
        description: String,
        target_value: u64,
        balance: u64,
        now: i64,
    ) -> (r: Result<(), ErrorCode>)
        requires
            old(self).wf(),
            old(config).wf(),
            access.wf(),
            old(self).consistent_with(*old(config)),
            valid_time(now),
        ensures
            r == create_outcome(*old(config), *access, proposer, proposal_type, balance, now),
            r is Ok ==> final(self).proposal_of(old(config).next_proposal_id) == Some(
                spec_new_proposal(
                    old(config).next_proposal_id,
                    proposer,
                    proposal_type,
                    description,
                    target_value,
                    now,
                ),
            ),
            r is Ok ==> *final(config) == (GlobalConfig {
                next_proposal_id: (old(config).next_proposal_id + 1) as u64,
                ..*old(config)
            }),
            forall|id2: u64|
                id2 != old(config).next_proposal_id ==> #[trigger] final(self).proposal_of(id2)
                    == old(self).proposal_of(id2),
            final(self).votes@ == old(self).votes@,
            forall|id2: u64, u2: AccountId|
                #[trigger] final(self).vote_of(id2, u2) == old(self).vote_of(id2, u2),
            r is Err ==> *final(self) == *old(self) && *final(config) == *old(config),
            final(self).wf(),
            final(config).wf(),
            final(self).consistent_with(*final(config)),
    {
        if !access.check_access(proposer, now) {
            return Err(ErrorCode::NoActiveAccess);
        }
        if balance < MIN_PROPOSAL_BALANCE {
            return Err(ErrorCode::InsufficientWznForProposal);
        }
        if proposal_type > 3 {
            return Err(ErrorCode::InvalidProposalType);
        }
        if config.next_proposal_id == u64::MAX {
            return Err(ErrorCode::ArithmeticOverflow);
        }
        let id = config.next_proposal_id;
        let proposal = Proposal {
            id,
            proposer,
            proposal_type,
            description,
            target_value,
            created_at: now,
            voting_deadline: now + VOTING_WINDOW,
            execution_deadline: now + EXECUTION_WINDOW,
            yes_votes: 0,
            no_votes: 0,
            total_voters: 0,
            executed: false,
            cancelled: false,
        };
        let ghost prior = *self;
        proof {
            assert(forall|k: int|
                0 <= k < prior.proposals@.len() ==> (#[trigger] prior.proposals@[k]).id != id);
            assert(!prior.has_proposal(id));
        }
        self.proposals.push(proposal);
        config.next_proposal_id = config.next_proposal_id + 1;
        proof {
            prior.lemma_proposal_appended(*self, id);
        }
        Ok(())
    }

    /// What a vote attempt answers: the proposal must exist, the voter needs
    /// an active pass and the voting balance, the voting window must still
    /// be open, the proposal must not be terminal, the voter must not have
    /// voted before, and the tallies must have room for the new power.
    pub open spec fn vote_outcome(
        self,
        access: AccessPassRegistry,
        voter: AccountId,
        proposal_id: u64,
        choice: bool,
        balance: u64,
        now: i64,
    ) -> Result<(), ErrorCode> {
        match self.proposal_of(proposal_id) {
            None => Err(ErrorCode::RecordNotFound),
            Some(p) => if !access.spec_has_access(voter, now) {
                Err(ErrorCode::NoActiveAccess)
            } else if balance < MIN_VOTING_BALANCE {
                Err(ErrorCode::InsufficientWznForVoting)
            } else if now > p.voting_deadline {
                Err(ErrorCode::VotingClosed)
            } else if p.executed {
                Err(ErrorCode::ProposalAlreadyExecuted)
            } else if p.cancelled {
                Err(ErrorCode::ProposalCancelled)
            } else if self.vote_of(proposal_id, voter) is Some {
                Err(ErrorCode::AlreadyVoted)
            } else if choice && p.yes_votes + balance > u64::MAX {
                Err(ErrorCode::ArithmeticOverflow)
            } else if !choice && p.no_votes + balance > u64::MAX {
                Err(ErrorCode::ArithmeticOverflow)
            } else if p.total_voters == u32::MAX {
                Err(ErrorCode::ArithmeticOverflow)
            } else {
                Ok(())
            },
        }
    }

    /// Casts `voter`'s vote on `proposal_id`, with power frozen as the
    /// balance the host read at this moment. On success the chosen tally
    /// and the voter count grow and the vote goes on file; nothing else
    /// changes, and a second vote by the same user on the same proposal is
    /// impossible from the resulting state.
    pub fn vote_on_proposal(
        &mut self,
        access: &AccessPassRegistry,
        voter: AccountId,
        proposal_id: u64,
        choice: bool,
        balance: u64,
        now: i64,
    ) -> (r: Result<(), ErrorCode>)
        requires
            old(self).wf(),
            access.wf(),
        ensures
            r == old(self).vote_outcome(*access, voter, proposal_id, choice, balance, now),
            r is Ok ==> (old(self).proposal_of(proposal_id) matches Some(p) && final(self).proposal_of(proposal_id) == Some(spec_voted_proposal(p, choice, balance))),
            r is Ok ==> final(self).vote_of(proposal_id, voter) == Some(
                UserVote {
                    user: voter,
                    proposal_id,
                    vote: choice,
                    voting_power: balance,
                    has_voted: true,
                },
            ),
            forall|id2: u64|
                id2 != proposal_id ==> #[trigger] final(self).proposal_of(id2) == old(self).proposal_of(id2),
            forall|id2: u64, u2: AccountId|
                !(id2 == proposal_id && u2 == voter) ==> #[trigger] final(self).vote_of(id2, u2)
                    == old(self).vote_of(id2, u2),
            r is Err ==> *final(self) == *old(self),
            final(self).wf(),
    {
        let i = match self.find_proposal_index(proposal_id) {
            Some(i) => i,
            None => {
                return Err(ErrorCode::RecordNotFound);
            },
        };
        if !access.check_access(voter, now) {
            return Err(ErrorCode::NoActiveAccess);
        }
        if balance < MIN_VOTING_BALANCE {
            return Err(ErrorCode::InsufficientWznForVoting);
        }
        if now > self.proposals[i].voting_deadline {
            return Err(ErrorCode::VotingClosed);
        }
        if self.proposals[i].executed {
            return Err(ErrorCode::ProposalAlreadyExecuted);
        }
        if self.proposals[i].cancelled {
            return Err(ErrorCode::ProposalCancelled);
        }
        if self.find_vote_index(proposal_id, voter).is_some() {
            return Err(ErrorCode::AlreadyVoted);
        }
        if choice && self.proposals[i].yes_votes > u64::MAX - balance {
            return Err(ErrorCode::ArithmeticOverflow);
        }
        if !choice && self.proposals[i].no_votes > u64::MAX - balance {
            return Err(ErrorCode::ArithmeticOverflow);
        }
        if self.proposals[i].total_voters == u32::MAX {
            return Err(ErrorCode::ArithmeticOverflow);
        }
        let ghost prior = *self;
        let prop = &mut self.proposals[i];
        if choice {
            prop.yes_votes = prop.yes_votes + balance;
        } else {
            prop.no_votes = prop.no_votes + balance;
        }
        prop.total_voters = prop.total_voters + 1;
        proof {
            assert(self.proposals@[i as int] == spec_voted_proposal(
                prior.proposals@[i as int],
                choice,
                balance,
            ));
            prior.lemma_proposal_updated(*self, i as int);
        }
        let ghost mid = *self;
        self.votes.push(
            UserVote { user: voter, proposal_id, vote: choice, voting_power: balance, has_voted: true },
        );
        proof {
            mid.lemma_vote_appended(*self, proposal_id, voter);
        }
        Ok(())
    }

    /// What an execution attempt answers: the proposal must exist, voting
    /// must be over but the execution window open, the proposal must not be
    /// terminal, quorum must be met, and the type-specific step must accept
    /// the carried value.
    pub open spec fn execute_outcome(
        self,
        config: GlobalConfig,
        proposal_id: u64,
        now: i64,
    ) -> Result<(), ErrorCode> {
        match self.proposal_of(proposal_id) {
            None => Err(ErrorCode::RecordNotFound),
            Some(p) => if now <= p.voting_deadline {
                Err(ErrorCode::VotingStillOpen)
            } else if now > p.execution_deadline {
                Err(ErrorCode::ExecutionDeadlinePassed)
            } else if p.executed {
                Err(ErrorCode::ProposalAlreadyExecuted)
            } else if p.cancelled {
                Err(ErrorCode::ProposalCancelled)
            } else if p.total_voters < QUORUM_MIN_VOTERS {
                Err(ErrorCode::QuorumNotMet)
            } else if spec_yes_percentage(p.yes_votes, p.no_votes) < QUORUM_MIN_YES_PERCENT {
                Err(ErrorCode::InsufficientYesVotes)
            } else {
                spec_dispatch_outcome(p)
            },
        }
    }

    /// Executes the proposal under `proposal_id`: after the voting window,
    /// inside the execution window, and only with quorum met. An access-cost
    /// or fee-mode proposal applies its value to the configuration; the two
    /// signal-only types leave it untouched. On success the proposal is
    /// terminally marked executed; on failure nothing changes.
    pub fn execute_proposal(
        &mut self,
        config: &mut GlobalConfig,
        proposal_id: u64,
        now: i64,
    ) -> (r: Result<(), ErrorCode>)
        requires
            old(self).wf(),
            old(config).wf(),
            old(self).consistent_with(*old(config)),
        ensures
            r == old(self).execute_outcome(*old(config), proposal_id, now),
            r is Ok ==> (old(self).proposal_of(proposal_id) matches Some(p) && final(self).proposal_of(proposal_id) == Some(Proposal { executed: true, ..p })),
            r is Ok ==> (old(self).proposal_of(proposal_id) matches Some(p) && *final(config) == (
            if p.proposal_type == 0 {
                GlobalConfig { access_cost: p.target_value, ..*old(config) }
            } else if p.proposal_type == 1 {
                GlobalConfig { fee_mode: p.target_value as u8, ..*old(config) }
            } else {
                *old(config)
            })),
            forall|id2: u64|
                id2 != proposal_id ==> #[trigger] final(self).proposal_of(id2) == old(self).proposal_of(id2),
            final(self).votes@ == old(self).votes@,
            forall|id2: u64, u2: AccountId|
                #[trigger] final(self).vote_of(id2, u2) == old(self).vote_of(id2, u2),
            r is Err ==> *final(self) == *old(self) && *final(config) == *old(config),
            final(self).wf(),
            final(config).wf(),
            final(self).consistent_with(*final(config)),
    {
        let i = match self.find_proposal_index(proposal_id) {
            Some(i) => i,
            None => {
                return Err(ErrorCode::RecordNotFound);
            },
        };
        if now <= self.proposals[i].voting_deadline {
            return Err(ErrorCode::VotingStillOpen);
        }
        if now > self.proposals[i].execution_deadline {
            return Err(ErrorCode::ExecutionDeadlinePassed);
        }
        if self.proposals[i].executed {
            return Err(ErrorCode::ProposalAlreadyExecuted);
        }
        if self.proposals[i].cancelled {
            return Err(ErrorCode::ProposalCancelled);
        }
        if self.proposals[i].total_voters < QUORUM_MIN_VOTERS {
            return Err(ErrorCode::QuorumNotMet);
        }
        let yes = self.proposals[i].yes_votes;
        let no = self.proposals[i].no_votes;
        proof {
            let p = self.proposals@[i as int];
            assert(p.total_voters as int * MIN_VOTING_BALANCE as int >= QUORUM_MIN_VOTERS as int
                * MIN_VOTING_BALANCE as int) by (nonlinear_arith)
                requires
                    p.total_voters >= QUORUM_MIN_VOTERS,
            ;
            assert(p.yes_votes + p.no_votes > 0);
        }
        let total: u128 = yes as u128 + no as u128;
        let pct: u128 = (yes as u128 * 100) / total;
        if pct < QUORUM_MIN_YES_PERCENT as u128 {
            return Err(ErrorCode::InsufficientYesVotes);
        }
        let ptype = self.proposals[i].proposal_type;
        let target = self.proposals[i].target_value;
        if ptype == 0 {
            if target < MIN_BURN_AMOUNT || target > MAX_BURN_AMOUNT {
                return Err(ErrorCode::InvalidAccessCost);
            }
            config.access_cost = target;
        } else if ptype == 1 {
            if target > 1 {
                return Err(ErrorCode::InvalidFeeMode);
            }
            config.fee_mode = target as u8;
        } else if ptype > 3 {
            return Err(ErrorCode::InvalidProposalType);
        }
        let ghost prior = *self;
        let prop = &mut self.proposals[i];
        prop.executed = true;
        proof {
            prior.lemma_proposal_updated(*self, i as int);
        }
        Ok(())
    }

    /// What a cancellation attempt answers: the proposal must exist, only
    /// its proposer or the administrator may cancel, and the proposal must
    /// not already be terminal.
    pub open spec fn cancel_outcome(
        self,
        config: GlobalConfig,
        proposal_id: u64,
        caller: AccountId,
    ) -> Result<(), ErrorCode> {
        match self.proposal_of(proposal_id) {
            None => Err(ErrorCode::RecordNotFound),
            Some(p) => if caller != p.proposer && caller != config.admin {
                Err(ErrorCode::UnauthorizedCancel)
            } else if p.executed {
                Err(ErrorCode::ProposalAlreadyExecuted)
            } else if p.cancelled {
                Err(ErrorCode::ProposalAlreadyCancelled)
            } else {
                Ok(())
            },
        }
    }

    /// Cancels the proposal under `proposal_id`. Only the proposer or the
    /// administrator may cancel, and only before execution; cancellation is
    /// terminal. On failure nothing changes.
    pub fn cancel_proposal(
        &mut self,
        config: &GlobalConfig,
        proposal_id: u64,
        caller: AccountId,
    ) -> (r: Result<(), ErrorCode>)
        requires
            old(self).wf(),
        ensures
            r == old(self).cancel_outcome(*config, proposal_id, caller),
            r is Ok ==> (old(self).proposal_of(proposal_id) matches Some(p) && final(self).proposal_of(proposal_id) == Some(Proposal { cancelled: true, ..p })),
            forall|id2: u64|
                id2 != proposal_id ==> #[trigger] final(self).proposal_of(id2) == old(self).proposal_of(id2),
            final(self).votes@ == old(self).votes@,
            forall|id2: u64, u2: AccountId|
                #[trigger] final(self).vote_of(id2, u2) == old(self).vote_of(id2, u2),
            r is Err ==> *final(self) == *old(self),
            final(self).wf(),
    {
        let i = match self.find_proposal_index(proposal_id) {
            Some(i) => i,
            None => {
                return Err(ErrorCode::RecordNotFound);
            },
        };
        if !(caller == self.proposals[i].proposer) && !(caller == config.admin) {
            return Err(ErrorCode::UnauthorizedCancel);
        }
        if self.proposals[i].executed {
            return Err(ErrorCode::ProposalAlreadyExecuted);
        }
        if self.proposals[i].cancelled {
            return Err(ErrorCode::ProposalAlreadyCancelled);
        }
        let ghost prior = *self;
        let prop = &mut self.proposals[i];
        prop.cancelled = true;
        proof {
            prior.lemma_proposal_updated(*self, i as int);
        }
        Ok(())
    }
}

/// Every stored proposal's voting deadline is `VOTING_WINDOW` after its
/// creation, its execution deadline `EXECUTION_WINDOW` after it, and the
/// execution deadline is always strictly the later of the two.
pub proof fn lemma_proposal_deadlines(s: ProposalStore, id: u64)
    requires
        s.wf(),
    ensures
        s.proposal_of(id) matches Some(p) ==> p.voting_deadline == p.created_at + VOTING_WINDOW
            && p.execution_deadline == p.created_at + EXECUTION_WINDOW && p.execution_deadline
            > p.voting_deadline,
{
    if s.has_proposal(id) {
        let i = s.proposal_index(id);
        assert(0 <= i < s.proposals@.len() && s.proposals@[i].id == id);
        assert(s.proposals@[i].wf());
    }
}

/// One vote per user per proposal: with a vote by `user` on `proposal_id`
/// on file, every further vote attempt by the same user on the same
/// proposal fails — as already voted whenever it gets past the
/// access, balance, window and terminal-state gates.
pub proof fn lemma_single_vote(
    s: ProposalStore,
    access: AccessPassRegistry,
    proposal_id: u64,
    user: AccountId,
    choice: bool,
    balance: u64,
    now: i64,
)
    requires
        s.wf(),
        s.vote_of(proposal_id, user) is Some,
    ensures
        s.vote_outcome(access, user, proposal_id, choice, balance, now) is Err,
        (s.proposal_of(proposal_id) matches Some(p) && access.spec_has_access(user, now) && balance
            >= MIN_VOTING_BALANCE && now <= p.voting_deadline && !p.executed && !p.cancelled)
            ==> s.vote_outcome(access, user, proposal_id, choice, balance, now) == Err::<
            (),
            ErrorCode,
        >(ErrorCode::AlreadyVoted),
{
}

/// The quorum gate: for a proposal whose execution window is open, which is
/// not terminal, and whose carried value its type accepts, execution
/// succeeds exactly when at least `QUORUM_MIN_VOTERS` unique voters took
/// part and at least `QUORUM_MIN_YES_PERCENT` percent of cast power was in
/// favour; too few voters report the missing quorum, too little approval
/// the missing yes votes.
pub proof fn lemma_quorum_gate(s: ProposalStore, config: GlobalConfig, proposal_id: u64, now: i64)
    requires
        s.wf(),
        s.proposal_of(proposal_id) matches Some(p) && p.voting_deadline < now
            <= p.execution_deadline && !p.executed && !p.cancelled && spec_dispatch_outcome(p)
            == Ok::<(), ErrorCode>(()),
    ensures
        s.proposal_of(proposal_id) matches Some(p) ==> (s.execute_outcome(config, proposal_id, now)
            == Ok::<(), ErrorCode>(()) <==> spec_quorum_met(
            p.yes_votes,
            p.no_votes,
            p.total_voters,
        )),
        s.proposal_of(proposal_id) matches Some(p) && p.total_voters < QUORUM_MIN_VOTERS
            ==> s.execute_outcome(config, proposal_id, now) == Err::<(), ErrorCode>(
            ErrorCode::QuorumNotMet,
        ),
        s.proposal_of(proposal_id) matches Some(p) && p.total_voters >= QUORUM_MIN_VOTERS
            && spec_yes_percentage(p.yes_votes, p.no_votes) < QUORUM_MIN_YES_PERCENT
            ==> s.execute_outcome(config, proposal_id, now) == Err::<(), ErrorCode>(
            ErrorCode::InsufficientYesVotes,
        ),
{
}

/// Executing is not repeatable: once a proposal is marked executed, every
/// further execution attempt fails — inside the execution window it reports
/// the proposal as already executed — so its effect is applied at most once.
pub proof fn lemma_execute_idempotent(
    s: ProposalStore,
    config: GlobalConfig,
    proposal_id: u64,
    now: i64,
)
    requires
        s.wf(),
        s.proposal_of(proposal_id) matches Some(p) && p.executed,
    ensures
        s.execute_outcome(config, proposal_id, now) is Err,
        (s.proposal_of(proposal_id) matches Some(p) && p.voting_deadline < now
            <= p.execution_deadline) ==> s.execute_outcome(config, proposal_id, now) == Err::<
            (),
            ErrorCode,
        >(ErrorCode::ProposalAlreadyExecuted),
{
}

/// A user's standing for governance at time `now`, given the balance the
/// host read for them: active access gates everything, the two balance
/// minimums gate voting and proposing, and a vote cast now would carry the
/// balance itself as power.
pub fn check_voting_eligibility(
    access: &AccessPassRegistry,
    user: AccountId,
    balance: u64,
    now: i64,
) -> (r: VotingEligibility)
    requires
        access.wf(),
    ensures
        r.has_active_access == access.spec_has_access(user, now),
        r.wzn_balance == balance,
        r.can_vote == (access.spec_has_access(user, now) && balance >= MIN_VOTING_BALANCE),
        r.can_create_proposal == (access.spec_has_access(user, now) && balance
            >= MIN_PROPOSAL_BALANCE),
        r.voting_power == balance,
{
    let has_active_access = access.check_access(user, now);
    VotingEligibility {
        has_active_access,
        wzn_balance: balance,
        can_vote: has_active_access && balance >= MIN_VOTING_BALANCE,
        can_create_proposal: has_active_access && balance >= MIN_PROPOSAL_BALANCE,
        voting_power: balance,
    }
}

} // verus!
