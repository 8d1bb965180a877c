//! On-chain governance for contract upgrades: proposals, votes, finalisation
//! and execution, over plain values.

use std::collections::HashMap;
use vstd::prelude::*;

verus! {

/// Lifecycle status of a governance proposal.
#[derive(Clone, Copy, Debug, PartialEq, Eq, Structural)]
pub enum ProposalStatus {
    Pending,
    Active,
    Approved,
    Rejected,
    Executed,
    Expired,
}

/// The choice a voter makes.
#[derive(Clone, Copy, Debug, PartialEq, Eq, Structural)]
pub enum VoteType {
    For,
    Against,
    Abstain,
}

/// How voting power is derived.
#[derive(Clone, Copy, Debug, PartialEq, Eq, Structural)]
pub enum VotingScheme {
    OnePersonOneVote,
    TokenWeighted,
}

/// Errors returned by the governance operations.
#[derive(Clone, Copy, Debug, PartialEq, Eq, PartialOrd, Ord, Structural)]
pub enum Error {
    NotInitialized,
    InvalidThreshold,
    ThresholdTooLow,
    InsufficientStake,
    ProposalsNotFound,
    ProposalNotFound,
    ProposalNotActive,
    VotingNotStarted,
    VotingEnded,
    VotingStillActive,
    AlreadyVoted,
    ProposalNotApproved,
    ExecutionDelayNotMet,
    ProposalExpired,
    ZeroVotingPower,
    InvalidTotalVotingPower,
}

/// Governance parameters. Addresses are held as their strkey text.
#[derive(Clone, Debug)]
pub struct GovernanceConfig {
    pub voting_period: u64,
    pub execution_delay: u64,
    /// Quorum in basis points against the scheme-specific total voting power.
    pub quorum_percentage: u32,
    /// Approval threshold in basis points against non-abstaining votes.
    pub approval_threshold: u32,
    /// Minimum governance-token balance required to create a proposal.
    pub min_proposal_stake: i128,
    pub voting_scheme: VotingScheme,
    /// Token used for token-weighted votes and proposal stake checks.
    pub governance_token: String,
    /// Total eligible voters for one-person-one-vote quorum calculations.
    pub one_person_total_voters: u32,
    /// Total token voting power for token-weighted quorum calculations.
    pub token_total_voting_power: i128,
    /// Optional ledger recorded by governance policy for snapshot semantics.
    pub snapshot_ledger: Option<u32>,
}

/// Total voting power against which quorum is measured.
pub open spec fn spec_total_voting_power(config: GovernanceConfig) -> int {
    match config.voting_scheme {
        VotingScheme::OnePersonOneVote => config.one_person_total_voters as int,
        VotingScheme::TokenWeighted => config.token_total_voting_power as int,
    }
}

/// Voting power of a voter whose governance-token balance is `balance`.
pub open spec fn spec_voting_power(config: GovernanceConfig, balance: i128) -> i128 {
    match config.voting_scheme {
        VotingScheme::OnePersonOneVote => 1,
        VotingScheme::TokenWeighted => balance,
    }
}

/// Outcome of validating a configuration before it is stored.
pub open spec fn spec_config_check(config: GovernanceConfig) -> Result<(), Error> {
    if config.quorum_percentage > 10000 || config.approval_threshold > 10000 {
        Err(Error::InvalidThreshold)
    } else if config.approval_threshold < 5000 {
        Err(Error::ThresholdTooLow)
    } else if config.min_proposal_stake < 0 {
        Err(Error::InsufficientStake)
    } else if spec_total_voting_power(config) <= 0 {
        Err(Error::InvalidTotalVotingPower)
    } else {
        Ok(())
    }
}

/// Returns the total voting power for the configured scheme.
pub fn total_voting_power(config: &GovernanceConfig) -> (r: i128)
    ensures
        r == spec_total_voting_power(*config),
{
    match config.voting_scheme {
        VotingScheme::OnePersonOneVote => config.one_person_total_voters as i128,
        VotingScheme::TokenWeighted => config.token_total_voting_power,
    }
}

/// A governance proposal for a candidate upgrade (the hash of the new WASM).
#[derive(Clone, Debug)]
pub struct Proposal {
    pub id: u32,
    pub proposer: String,
    pub new_wasm_hash: [u8; 32],
    pub description: String,
    pub created_at: u64,
    pub voting_start: u64,
    pub voting_end: u64,
    pub execution_delay: u64,
    pub status: ProposalStatus,
    pub votes_for: i128,
    pub votes_against: i128,
    pub votes_abstain: i128,
    pub total_votes: u32,
}

/// A recorded ballot.
#[derive(Clone, Debug)]
pub struct Vote {
    pub voter: String,
    pub proposal_id: u32,
    pub vote_type: VoteType,
    pub voting_power: i128,
    pub timestamp: u64,
}

/// `a + b`, saturating at `u64::MAX`.
pub open spec fn sat_add_u64(a: u64, b: u64) -> u64 {
    if a + b > u64::MAX {
        u64::MAX
    } else {
        (a + b) as u64
    }
}

/// Whether a governance-token balance must be read to settle a stake check.
pub open spec fn spec_stake_check(config: GovernanceConfig, balance: i128) -> Result<(), Error> {
    if config.min_proposal_stake != 0 && balance < config.min_proposal_stake {
        Err(Error::InsufficientStake)
    } else {
        Ok(())
    }
}

/// The proposal created under `id` with the given parameters.
pub open spec fn spec_new_proposal(
    id: u32,
    proposer: String,
    new_wasm_hash: [u8; 32],
    description: String,
    now: u64,
    config: GovernanceConfig,
) -> Proposal {
    Proposal {
        id,
        proposer,
        new_wasm_hash,
        description,
        created_at: now,
        voting_start: now,
        voting_end: (now + config.voting_period) as u64,
        execution_delay: config.execution_delay,
        status: ProposalStatus::Active,
        votes_for: 0,
        votes_against: 0,
        votes_abstain: 0,
        total_votes: 0,
    }
}

/// The tally that a ballot of `vote_type` with weight `power` adds to.
pub open spec fn spec_tally_of(p: Proposal, vote_type: VoteType) -> i128 {
    match vote_type {
        VoteType::For => p.votes_for,
        VoteType::Against => p.votes_against,
        VoteType::Abstain => p.votes_abstain,
    }
}

/// `p` with one more ballot of `vote_type` and weight `power`.
pub open spec fn spec_tallied(p: Proposal, vote_type: VoteType, power: i128) -> Proposal {
    match vote_type {
        VoteType::For => Proposal {
            votes_for: (p.votes_for + power) as i128,
            total_votes: (p.total_votes + 1) as u32,
            ..p
        },
        VoteType::Against => Proposal {
            votes_against: (p.votes_against + power) as i128,
            total_votes: (p.total_votes + 1) as u32,
            ..p
        },
        VoteType::Abstain => Proposal {
            votes_abstain: (p.votes_abstain + power) as i128,
            total_votes: (p.total_votes + 1) as u32,
            ..p
        },
    }
}

/// The status that the tally of `p` earns under `config`: quorum first (cast
/// votes in basis points of the total voting power), then the approval ratio
/// of `For` among non-abstaining votes in basis points.
pub open spec fn spec_tally_outcome(p: Proposal, config: GovernanceConfig) -> ProposalStatus {
    let total_cast = p.votes_for + p.votes_against + p.votes_abstain;
    let quorum_bps = (total_cast * 10000) / spec_total_voting_power(config);
    if quorum_bps < config.quorum_percentage {
        ProposalStatus::Rejected
    } else {
        let approval_votes = p.votes_for + p.votes_against;
        if approval_votes == 0 {
            ProposalStatus::Rejected
        } else if (p.votes_for * 10000) / approval_votes >= config.approval_threshold {
            ProposalStatus::Approved
        } else {
            ProposalStatus::Rejected
        }
    }
}

/// Whether `p` approves the upgrade to `wasm_hash` at time `now`: it carries
/// that hash, was executed, and its execution delay has elapsed.
pub open spec fn spec_approves(p: Proposal, wasm_hash: Seq<u8>, now: u64) -> bool {
    &&& p.new_wasm_hash@ == wasm_hash
    &&& p.status == ProposalStatus::Executed
    &&& now >= sat_add_u64(p.voting_end, p.execution_delay)
}


/// The proposal table holding the proposals of `s`, each under its own id
/// (a later entry with the same id replaces an earlier one).
pub open spec fn spec_proposal_table(s: Seq<Proposal>) -> Map<u32, Proposal>
    decreases s.len(),
{
    if s.len() == 0 {
        Map::empty()
    } else {
        spec_proposal_table(s.drop_last()).insert(s.last().id, s.last())
    }
}

/// No two proposals of `s` share an id.
pub open spec fn spec_ids_distinct(s: Seq<Proposal>) -> bool {
    forall|i: int, j: int| 0 <= i < j < s.len() ==> #[trigger] s[i].id != #[trigger] s[j].id
}

/// The governance state described by stored parts.
pub open spec fn spec_restored_state(
    config: Option<GovernanceConfig>,
    proposal_count: u32,
    proposals: Option<Seq<Proposal>>,
    votes: Seq<Vote>,
) -> GovernanceState {
    GovernanceState {
        config,
        proposal_count,
        proposals_stored: proposals is Some,
        proposals: match proposals {
            Some(ps) => spec_proposal_table(ps),
            None => Map::empty(),
        },
        votes,
    }
}

/// The contents of an optional stored list.
pub open spec fn spec_listed(proposals: Option<Vec<Proposal>>) -> Option<Seq<Proposal>> {
    match proposals {
        Some(v) => Some(v@),
        None => None,
    }
}

/// Whether stored parts describe a state that the operations can produce
/// the invariant of.
pub open spec fn spec_restorable(
    config: Option<GovernanceConfig>,
    proposal_count: u32,
    proposals: Option<Seq<Proposal>>,
    votes: Seq<Vote>,
) -> bool {
    &&& (proposals matches Some(ps) ==> spec_ids_distinct(ps))
    &&& spec_restored_state(config, proposal_count, proposals, votes).wf()
}

proof fn lemma_proposal_table_keys(s: Seq<Proposal>)
    ensures
        spec_proposal_table(s).dom().finite(),
        forall|id: u32|
            spec_proposal_table(s).contains_key(id) <==> exists|i: int|
                0 <= i < s.len() && #[trigger] s[i].id == id,
        forall|id: u32| #[trigger]
            spec_proposal_table(s).contains_key(id) ==> spec_proposal_table(s)[id].id == id,
    decreases s.len(),
{
    if s.len() > 0 {
        let t = s.drop_last();
        lemma_proposal_table_keys(t);
        assert forall|id: u32|
            spec_proposal_table(s).contains_key(id) implies exists|i: int|
                0 <= i < s.len() && #[trigger] s[i].id == id by {
            if id != s.last().id {
                let i = choose|i: int| 0 <= i < t.len() && #[trigger] t[i].id == id;
                assert(s[i].id == id);
            } else {
                assert(s[s.len() - 1].id == id);
            }
        }
        assert forall|id: u32|
            (exists|i: int| 0 <= i < s.len() && #[trigger] s[i].id == id) implies spec_proposal_table(
            s,
        ).contains_key(id) by {
            let i = choose|i: int| 0 <= i < s.len() && #[trigger] s[i].id == id;
            if i < s.len() - 1 {
                assert(t[i].id == id);
            }
        }
    }
}

proof fn lemma_proposal_table_values(s: Seq<Proposal>, i: int)
    requires
        spec_ids_distinct(s),
        0 <= i < s.len(),
    ensures
        spec_proposal_table(s).contains_key(s[i].id),
        spec_proposal_table(s)[s[i].id] == s[i],
    decreases s.len(),
{
    let t = s.drop_last();
    if i < s.len() - 1 {
        assert(s[i].id != s.last().id);
        assert(t[i] == s[i]);
        lemma_proposal_table_values(t, i);
    }
}

/// The abstract state of the governance storage.
#[verifier::ext_equal]
pub struct GovernanceState {
    pub config: Option<GovernanceConfig>,
    pub proposal_count: u32,
    /// Whether the proposal table has ever been written.
    pub proposals_stored: bool,
    pub proposals: Map<u32, Proposal>,
    pub votes: Seq<Vote>,
}

impl GovernanceState {
    /// Nothing stored yet.
    pub open spec fn empty() -> GovernanceState {
        GovernanceState {
            config: None,
            proposal_count: 0,
            proposals_stored: false,
            proposals: Map::empty(),
            votes: Seq::empty(),
        }
    }

    /// Whether `voter` already has a ballot on proposal `id`.
    pub open spec fn has_voted(self, id: u32, voter: Seq<char>) -> bool {
        exists|i: int|
            0 <= i < self.votes.len() && #[trigger] self.votes[i].proposal_id == id
                && self.votes[i].voter@ == voter
    }

    /// The invariant that every operation keeps.
    pub open spec fn wf(self) -> bool {
        &&& self.proposals.dom().finite()
        &&& (!self.proposals_stored ==> self.proposals.dom().is_empty())
        &&& (self.config matches Some(c) ==> spec_config_check(c) is Ok)
        &&& forall|id: u32| #[trigger]
            self.proposals.contains_key(id) ==> {
                &&& self.proposals[id].id == id
                &&& self.proposals[id].votes_for >= 0
                &&& self.proposals[id].votes_against >= 0
                &&& self.proposals[id].votes_abstain >= 0
            }
        &&& forall|i: int, j: int|
            0 <= i < j < self.votes.len() ==> !(#[trigger] self.votes[i].proposal_id
                == #[trigger] self.votes[j].proposal_id && self.votes[i].voter@
                == self.votes[j].voter@)
    }

    // ---------------------------------------------------------------- init

    /// Storing a configuration: validated first, and the proposal counter reset.
    pub open spec fn init_governance(self, config: GovernanceConfig) -> (
        GovernanceState,
        Result<(), Error>,
    ) {
        match spec_config_check(config) {
            Err(e) => (self, Err(e)),
            Ok(_) => (GovernanceState { config: Some(config), proposal_count: 0, ..self }, Ok(())),
        }
    }

    // ---------------------------------------------------------------- create

    pub open spec fn create_proposal_check(self, proposer_balance: i128) -> Result<u32, Error> {
        match self.config {
            None => Err(Error::NotInitialized),
            Some(c) => match spec_stake_check(c, proposer_balance) {
                Err(e) => Err(e),
                Ok(_) => Ok(self.proposal_count),
            },
        }
    }

    /// No arithmetic overflow on the way to a new proposal.
    pub open spec fn create_proposal_fits(self, now: u64, proposer_balance: i128) -> bool {
        self.create_proposal_check(proposer_balance) is Ok ==> {
            &&& self.proposal_count < u32::MAX
            &&& now + self.config.unwrap().voting_period <= u64::MAX
        }
    }

    pub open spec fn create_proposal(
        self,
        proposer: String,
        new_wasm_hash: [u8; 32],
        description: String,
        now: u64,
        proposer_balance: i128,
    ) -> (GovernanceState, Result<u32, Error>) {
        match self.create_proposal_check(proposer_balance) {
            Err(e) => (self, Err(e)),
            Ok(id) => (
                GovernanceState {
                    proposal_count: (id + 1) as u32,
                    proposals_stored: true,
                    proposals: self.proposals.insert(
                        id,
                        spec_new_proposal(
                            id,
                            proposer,
                            new_wasm_hash,
                            description,
                            now,
                            self.config.unwrap(),
                        ),
                    ),
                    ..self
                },
                Ok(id),
            ),
        }
    }

    // ---------------------------------------------------------------- vote

    /// The checks made before the voting power is known.
    pub open spec fn vote_check(self, voter: Seq<char>, id: u32, now: u64) -> Result<(), Error> {
        if !self.proposals_stored {
            Err(Error::ProposalsNotFound)
        } else if !self.proposals.contains_key(id) {
            Err(Error::ProposalNotFound)
        } else if self.proposals[id].status != ProposalStatus::Active {
            Err(Error::ProposalNotActive)
        } else if now > self.proposals[id].voting_end {
            Err(Error::VotingEnded)
        } else if self.has_voted(id, voter) {
            Err(Error::AlreadyVoted)
        } else if self.config is None {
            Err(Error::NotInitialized)
        } else {
            Ok(())
        }
    }

    pub open spec fn cast_vote_check(
        self,
        voter: Seq<char>,
        id: u32,
        now: u64,
        voter_balance: i128,
    ) -> Result<(), Error> {
        match self.vote_check(voter, id, now) {
            Err(e) => Err(e),
            Ok(_) => if spec_voting_power(self.config.unwrap(), voter_balance) <= 0 {
                Err(Error::ZeroVotingPower)
            } else {
                Ok(())
            },
        }
    }

    /// No arithmetic overflow when the ballot is added to the tally.
    pub open spec fn cast_vote_fits(
        self,
        voter: Seq<char>,
        id: u32,
        vote_type: VoteType,
        now: u64,
        voter_balance: i128,
    ) -> bool {
        self.cast_vote_check(voter, id, now, voter_balance) is Ok ==> {
            &&& spec_tally_of(self.proposals[id], vote_type) + spec_voting_power(
                self.config.unwrap(),
                voter_balance,
            ) <= i128::MAX
            &&& self.proposals[id].total_votes < u32::MAX
        }
    }

    pub open spec fn cast_vote(
        self,
        voter: String,
        id: u32,
        vote_type: VoteType,
        now: u64,
        voter_balance: i128,
    ) -> (GovernanceState, Result<(), Error>) {
        match self.cast_vote_check(voter@, id, now, voter_balance) {
            Err(e) => (self, Err(e)),
            Ok(_) => {
                let power = spec_voting_power(self.config.unwrap(), voter_balance);
                (
                    GovernanceState {
                        proposals: self.proposals.insert(
                            id,
                            spec_tallied(self.proposals[id], vote_type, power),
                        ),
                        votes: self.votes.push(
                            Vote {
                                voter,
                                proposal_id: id,
                                vote_type,
                                voting_power: power,
                                timestamp: now,
                            },
                        ),
                        ..self
                    },
                    Ok(()),
                )
            },
        }
    }

    // ---------------------------------------------------------------- finalize

    pub open spec fn finalize_check(self, id: u32, now: u64) -> Result<ProposalStatus, Error> {
        if !self.proposals_stored {
            Err(Error::ProposalsNotFound)
        } else if !self.proposals.contains_key(id) {
            Err(Error::ProposalNotFound)
        } else if self.config is None {
            Err(Error::NotInitialized)
        } else if now <= self.proposals[id].voting_end {
            Err(Error::VotingStillActive)
        } else if spec_total_voting_power(self.config.unwrap()) <= 0 {
            Err(Error::InvalidTotalVotingPower)
        } else {
            Ok(spec_tally_outcome(self.proposals[id], self.config.unwrap()))
        }
    }

    /// No arithmetic overflow while the tally is weighed.
    pub open spec fn finalize_fits(self, id: u32, now: u64) -> bool {
        self.finalize_check(id, now) is Ok ==> (self.proposals[id].votes_for
            + self.proposals[id].votes_against + self.proposals[id].votes_abstain) * 10000
            <= i128::MAX
    }

    pub open spec fn finalize_proposal(self, id: u32, now: u64) -> (
        GovernanceState,
        Result<ProposalStatus, Error>,
    ) {
        match self.finalize_check(id, now) {
            Err(e) => (self, Err(e)),
            Ok(s) => (
                GovernanceState {
                    proposals: self.proposals.insert(id, Proposal { status: s, ..self.proposals[id] }),
                    ..self
                },
                Ok(s),
            ),
        }
    }

    // ---------------------------------------------------------------- execute

    pub open spec fn execute_check(self, id: u32, now: u64) -> Result<(), Error> {
        if !self.proposals_stored {
            Err(Error::ProposalsNotFound)
        } else if !self.proposals.contains_key(id) {
            Err(Error::ProposalNotFound)
        } else if self.proposals[id].status != ProposalStatus::Approved {
            Err(Error::ProposalNotApproved)
        } else if now < sat_add_u64(
            self.proposals[id].voting_end,
            self.proposals[id].execution_delay,
        ) {
            Err(Error::ExecutionDelayNotMet)
        } else {
            Ok(())
        }
    }

    pub open spec fn execute_proposal(self, id: u32, now: u64) -> (
        GovernanceState,
        Result<(), Error>,
    ) {
        match self.execute_check(id, now) {
            Err(e) => (self, Err(e)),
            Ok(_) => (
                GovernanceState {
                    proposals: self.proposals.insert(
                        id,
                        Proposal { status: ProposalStatus::Executed, ..self.proposals[id] },
                    ),
                    ..self
                },
                Ok(()),
            ),
        }
    }

    // ---------------------------------------------------------------- sweep

    pub open spec fn sweep_check(self, id: u32, current_time: u64) -> Result<(), Error> {
        if !self.proposals_stored {
            Err(Error::ProposalsNotFound)
        } else if !self.proposals.contains_key(id) {
            Err(Error::ProposalNotFound)
        } else if self.proposals[id].status != ProposalStatus::Active {
            Err(Error::ProposalNotActive)
        } else if current_time <= self.proposals[id].voting_end {
            Err(Error::VotingStillActive)
        } else {
            Ok(())
        }
    }

    pub open spec fn sweep_expired_proposal(self, id: u32, current_time: u64) -> (
        GovernanceState,
        Result<(), Error>,
    ) {
        match self.sweep_check(id, current_time) {
            Err(e) => (self, Err(e)),
            Ok(_) => (
                GovernanceState {
                    proposals: self.proposals.insert(
                        id,
                        Proposal { status: ProposalStatus::Expired, ..self.proposals[id] },
                    ),
                    ..self
                },
                Ok(()),
            ),
        }
    }

    // ---------------------------------------------------------------- queries

    /// Whether some proposal among the first `proposal_count` ids approves `wasm_hash`.
    pub open spec fn upgrade_approved(self, wasm_hash: Seq<u8>, now: u64) -> bool {
        &&& self.proposals_stored
        &&& exists|id: u32|
            id < self.proposal_count && #[trigger] self.proposals.contains_key(id) && spec_approves(
                self.proposals[id],
                wasm_hash,
                now,
            )
    }

    pub open spec fn proposal_status(self, id: u32) -> Result<ProposalStatus, Error> {
        if !self.proposals_stored {
            Err(Error::ProposalsNotFound)
        } else if !self.proposals.contains_key(id) {
            Err(Error::ProposalNotFound)
        } else {
            Ok(self.proposals[id].status)
        }
    }
}

/// Returns the voting power of a voter whose governance-token balance is
/// `voter_balance`: one under one-person-one-vote, the balance otherwise.
pub fn derive_voting_power(config: &GovernanceConfig, voter_balance: i128) -> (r: i128)
    ensures
        r == spec_voting_power(*config, voter_balance),
{
    match config.voting_scheme {
        VotingScheme::OnePersonOneVote => 1,
        VotingScheme::TokenWeighted => voter_balance,
    }
}

/// Checks a proposer's governance-token balance against the minimum stake.
/// A zero minimum needs no balance at all.
pub fn enforce_min_proposal_stake(config: &GovernanceConfig, proposer_balance: i128) -> (r: Result<
    (),
    Error,
>)
    ensures
        r == spec_stake_check(*config, proposer_balance),
{
    if config.min_proposal_stake == 0 {
        return Ok(());
    }
    if proposer_balance < config.min_proposal_stake {
        return Err(Error::InsufficientStake);
    }
    Ok(())
}

/// Governance storage: configuration, proposal table, ballots.
pub struct GovernanceContract {
    config: Option<GovernanceConfig>,
    proposal_count: u32,
    proposals_stored: bool,
    proposals: HashMap<u32, Proposal>,
    votes: Vec<Vote>,
}

impl View for GovernanceContract {
    type V = GovernanceState;

    closed spec fn view(&self) -> GovernanceState {
        GovernanceState {
            config: self.config,
            proposal_count: self.proposal_count,
            proposals_stored: self.proposals_stored,
            proposals: self.proposals@,
            votes: self.votes@,
        }
    }
}

impl GovernanceContract {
    /// Empty governance storage.
    pub fn new() -> (s: GovernanceContract)
        ensures
            s@ == GovernanceState::empty(),
            s@.wf(),
    {
        GovernanceContract {
            config: None,
            proposal_count: 0,
            proposals_stored: false,
            proposals: HashMap::new(),
            votes: Vec::new(),
        }
    }

    /// Validates and stores the governance configuration and resets the
    /// proposal counter.
    pub fn init_governance(&mut self, config: GovernanceConfig) -> (r: Result<(), Error>)
        requires
            old(self)@.wf(),
        ensures
            final(self)@.wf(),
            final(self)@ == old(self)@.init_governance(config).0,
            r == old(self)@.init_governance(config).1,
    {
        if config.quorum_percentage > 10000 || config.approval_threshold > 10000 {
            return Err(Error::InvalidThreshold);
        }
        if config.approval_threshold < 5000 {
            return Err(Error::ThresholdTooLow);
        }
        if config.min_proposal_stake < 0 {
            return Err(Error::InsufficientStake);
        }
        if total_voting_power(&config) <= 0 {
            return Err(Error::InvalidTotalVotingPower);
        }
        self.config = Some(config);
        self.proposal_count = 0;
        Ok(())
    }

    /// The governance token whose balance of the proposer `create_proposal`
    /// needs, if any; or the error that `create_proposal` returns before it
    /// would read one.
    pub fn create_proposal_precheck(&self) -> (r: Result<Option<String>, Error>)
        ensures
            match r {
                Err(e) => self@.config is None && e == Error::NotInitialized,
                Ok(t) => self@.config matches Some(c) && (t is Some <==> c.min_proposal_stake != 0)
                    && (t matches Some(token) ==> token@ == c.governance_token@),
            },
    {
        match &self.config {
            None => Err(Error::NotInitialized),
            Some(c) => if c.min_proposal_stake == 0 {
                Ok(None)
            } else {
                Ok(Some(c.governance_token.clone()))
            },
        }
    }

    /// Creates an active proposal whose voting window opens at `now`.
    /// `proposer_balance` is the proposer's governance-token balance; it is
    /// consulted only when a minimum stake is configured.
    pub fn create_proposal(
        &mut self,
        proposer: String,
        new_wasm_hash: [u8; 32],
        description: String,
        now: u64,
        proposer_balance: i128,
    ) -> (r: Result<u32, Error>)
        requires
            old(self)@.wf(),
            old(self)@.create_proposal_fits(now, proposer_balance),
        ensures
            final(self)@.wf(),
            final(self)@ == old(self)@.create_proposal(
                proposer,
                new_wasm_hash,
                description,
                now,
                proposer_balance,
            ).0,
            r == old(self)@.create_proposal(
                proposer,
                new_wasm_hash,
                description,
                now,
                proposer_balance,
            ).1,
    {
        broadcast use vstd::std_specs::hash::group_hash_axioms;

        let (voting_period, execution_delay) = match &self.config {
            None => {
                return Err(Error::NotInitialized);
            },
            Some(config) => {
                match enforce_min_proposal_stake(config, proposer_balance) {
                    Err(e) => {
                        return Err(e);
                    },
                    Ok(()) => {},
                }
                (config.voting_period, config.execution_delay)
            },
        };
        let proposal_id = self.proposal_count;
        let proposal = Proposal {
            id: proposal_id,
            proposer,
            new_wasm_hash,
            description,
            created_at: now,
            voting_start: now,
            voting_end: now + voting_period,
            execution_delay,
            status: ProposalStatus::Active,
            votes_for: 0,
            votes_against: 0,
            votes_abstain: 0,
            total_votes: 0,
        };
        self.proposals.insert(proposal_id, proposal);
        self.proposals_stored = true;
        self.proposal_count = proposal_id + 1;
        Ok(proposal_id)
    }

    /// Whether `voter` already holds a ballot on proposal `proposal_id`.
    fn has_voted(&self, voter: &String, proposal_id: u32) -> (r: bool)
        ensures
            r == self@.has_voted(proposal_id, voter@),
    {
        let n = self.votes.len();
        for i in 0..n
            invariant
                n == self.votes@.len(),
                forall|k: int|
                    0 <= k < i ==> !(#[trigger] self.votes@[k].proposal_id == proposal_id
                        && self.votes@[k].voter@ == voter@),
        {
            if self.votes[i].proposal_id == proposal_id && self.votes[i].voter == *voter {
                return true;
            }
        }
        false
    }

    /// The checks of `cast_vote` that precede the voting power.
    fn check_vote(&self, voter: &String, proposal_id: u32, now: u64) -> (r: Result<(), Error>)
        ensures
            r == self@.vote_check(voter@, proposal_id, now),
    {
        broadcast use vstd::std_specs::hash::group_hash_axioms;

        if !self.proposals_stored {
            return Err(Error::ProposalsNotFound);
        }
        match self.proposals.get(&proposal_id) {
            None => Err(Error::ProposalNotFound),
            Some(proposal) => {
                if proposal.status != ProposalStatus::Active {
                    return Err(Error::ProposalNotActive);
                }
                if now > proposal.voting_end {
                    return Err(Error::VotingEnded);
                }
                if self.has_voted(voter, proposal_id) {
                    return Err(Error::AlreadyVoted);
                }
                if self.config.is_none() {
                    return Err(Error::NotInitialized);
                }
                Ok(())
            },
        }
    }

    /// The governance token whose balance of `voter` `cast_vote` needs, if
    /// any; or the error that `cast_vote` returns before it would read one.
    pub fn cast_vote_precheck(&self, voter: &String, proposal_id: u32, now: u64) -> (r: Result<
        Option<String>,
        Error,
    >)
        ensures
            match r {
                Err(e) => self@.vote_check(voter@, proposal_id, now) == Err::<(), Error>(e),
                Ok(t) => self@.vote_check(voter@, proposal_id, now) is Ok && (t is Some
                    <==> self@.config.unwrap().voting_scheme == VotingScheme::TokenWeighted) && (
                t matches Some(token) ==> token@ == self@.config.unwrap().governance_token@),
            },
    {
        match self.check_vote(voter, proposal_id, now) {
            Err(e) => Err(e),
            Ok(()) => match &self.config {
                Some(c) => match c.voting_scheme {
                    VotingScheme::TokenWeighted => Ok(Some(c.governance_token.clone())),
                    VotingScheme::OnePersonOneVote => Ok(None),
                },
                None => Err(Error::NotInitialized),
            },
        }
    }

    /// Records a ballot of `voter` on proposal `proposal_id` at time `now`.
    /// `voter_balance` is the voter's governance-token balance; it is the
    /// voting power under token weighting and ignored otherwise.
    pub fn cast_vote(
        &mut self,
        voter: String,
        proposal_id: u32,
        vote_type: VoteType,
        now: u64,
        voter_balance: i128,
    ) -> (r: Result<(), Error>)
        requires
            old(self)@.wf(),
            old(self)@.cast_vote_fits(voter@, proposal_id, vote_type, now, voter_balance),
        ensures
            final(self)@.wf(),
            final(self)@ == old(self)@.cast_vote(voter, proposal_id, vote_type, now, voter_balance).0,
            r == old(self)@.cast_vote(voter, proposal_id, vote_type, now, voter_balance).1,
    {
        broadcast use vstd::std_specs::hash::group_hash_axioms;

        match self.check_vote(&voter, proposal_id, now) {
            Err(e) => {
                return Err(e);
            },
            Ok(()) => {},
        }
        let voting_power = match &self.config {
            Some(config) => derive_voting_power(config, voter_balance),
            None => {
                return Err(Error::NotInitialized);
            },
        };
        if voting_power <= 0 {
            return Err(Error::ZeroVotingPower);
        }
        let ghost old_state = self@;
        let mut proposal = match self.proposals.remove(&proposal_id) {
            Some(p) => p,
            None => {
                return Err(Error::ProposalNotFound);
            },
        };
        match vote_type {
            VoteType::For => proposal.votes_for = proposal.votes_for + voting_power,
            VoteType::Against => proposal.votes_against = proposal.votes_against + voting_power,
            VoteType::Abstain => proposal.votes_abstain = proposal.votes_abstain + voting_power,
        }
        proposal.total_votes = proposal.total_votes + 1;
        self.votes.push(
            Vote { voter, proposal_id, vote_type, voting_power, timestamp: now },
        );
        self.proposals.insert(proposal_id, proposal);
        proof {
            assert(self@.proposals =~= old_state.proposals.insert(
                proposal_id,
                spec_tallied(old_state.proposals[proposal_id], vote_type, voting_power),
            ));
        }
        Ok(())
    }

    /// Closes voting on proposal `proposal_id` at time `now` and records
    /// whether it was approved or rejected.
    pub fn finalize_proposal(&mut self, proposal_id: u32, now: u64) -> (r: Result<
        ProposalStatus,
        Error,
    >)
        requires
            old(self)@.wf(),
            old(self)@.finalize_fits(proposal_id, now),
        ensures
            final(self)@.wf(),
            final(self)@ == old(self)@.finalize_proposal(proposal_id, now).0,
            r == old(self)@.finalize_proposal(proposal_id, now).1,
    {
        broadcast use vstd::std_specs::hash::group_hash_axioms;

        if !self.proposals_stored {
            return Err(Error::ProposalsNotFound);
        }
        let (votes_for, votes_against, votes_abstain, voting_end) = match self.proposals.get(
            &proposal_id,
        ) {
            None => {
                return Err(Error::ProposalNotFound);
            },
            Some(p) => (p.votes_for, p.votes_against, p.votes_abstain, p.voting_end),
        };
        let (quorum_percentage, approval_threshold, total_power) = match &self.config {
            None => {
                return Err(Error::NotInitialized);
            },
            Some(c) => (c.quorum_percentage, c.approval_threshold, total_voting_power(c)),
        };
        if now <= voting_end {
            return Err(Error::VotingStillActive);
        }
        let total_cast = votes_for + votes_against + votes_abstain;
        if total_power <= 0 {
            return Err(Error::InvalidTotalVotingPower);
        }
        let quorum_bps = (total_cast * 10000) / total_power;
        let status = if quorum_bps < quorum_percentage as i128 {
            ProposalStatus::Rejected
        } else {
            let approval_votes = votes_for + votes_against;
            if approval_votes == 0 {
                ProposalStatus::Rejected
            } else {
                let approval_bps = (votes_for * 10000) / approval_votes;
                if approval_bps >= approval_threshold as i128 {
                    ProposalStatus::Approved
                } else {
                    ProposalStatus::Rejected
                }
            }
        };
        let ghost old_state = self@;
        let mut proposal = match self.proposals.remove(&proposal_id) {
            Some(p) => p,
            None => {
                return Err(Error::ProposalNotFound);
            },
        };
        proposal.status = status;
        self.proposals.insert(proposal_id, proposal);
        proof {
            assert(self@.proposals =~= old_state.proposals.insert(
                proposal_id,
                Proposal { status, ..old_state.proposals[proposal_id] },
            ));
        }
        Ok(status)
    }

    /// Marks an approved proposal as executed once its execution delay has
    /// elapsed after the end of voting.
    pub fn execute_proposal(&mut self, proposal_id: u32, now: u64) -> (r: Result<(), Error>)
        requires
            old(self)@.wf(),
        ensures
            final(self)@.wf(),
            final(self)@ == old(self)@.execute_proposal(proposal_id, now).0,
            r == old(self)@.execute_proposal(proposal_id, now).1,
    {
        broadcast use vstd::std_specs::hash::group_hash_axioms;

        if !self.proposals_stored {
            return Err(Error::ProposalsNotFound);
        }
        let ghost old_state = self@;
        let mut proposal = match self.proposals.remove(&proposal_id) {
            Some(p) => p,
            None => {
                return Err(Error::ProposalNotFound);
            },
        };
        if proposal.status != ProposalStatus::Approved {
            self.proposals.insert(proposal_id, proposal);
            proof {
                assert(self@.proposals =~= old_state.proposals);
            }
            return Err(Error::ProposalNotApproved);
        }
        let executable_at = proposal.voting_end.saturating_add(proposal.execution_delay);
        if now < executable_at {
            self.proposals.insert(proposal_id, proposal);
            proof {
                assert(self@.proposals =~= old_state.proposals);
            }
            return Err(Error::ExecutionDelayNotMet);
        }
        proposal.status = ProposalStatus::Executed;
        self.proposals.insert(proposal_id, proposal);
        proof {
            assert(self@.proposals =~= old_state.proposals.insert(
                proposal_id,
                Proposal { status: ProposalStatus::Executed, ..old_state.proposals[proposal_id] },
            ));
        }
        Ok(())
    }

    /// Whether an executed proposal among ids `0..proposal_count` approved
    /// `wasm_hash` and its execution delay has elapsed at `now`.
    pub fn is_upgrade_approved(&self, wasm_hash: [u8; 32], now: u64) -> (r: bool)
        requires
            self@.wf(),
        ensures
            r == self@.upgrade_approved(wasm_hash@, now),
    {
        broadcast use vstd::std_specs::hash::group_hash_axioms;

        if !self.proposals_stored {
            return false;
        }
        let proposal_count = self.proposal_count;
        let mut proposal_id: u32 = 0;
        while proposal_id < proposal_count
            invariant
                proposal_count == self@.proposal_count,
                self@.proposals_stored,
                proposal_id <= proposal_count,
                forall|id: u32|
                    id < proposal_id && #[trigger] self@.proposals.contains_key(id) ==> !spec_approves(
                        self@.proposals[id],
                        wasm_hash@,
                        now,
                    ),
            decreases proposal_count - proposal_id,
        {
            match self.proposals.get(&proposal_id) {
                Some(proposal) => {
                    let executable_at = proposal.voting_end.saturating_add(
                        proposal.execution_delay,
                    );
                    if hash_eq(&proposal.new_wasm_hash, &wasm_hash) && proposal.status
                        == ProposalStatus::Executed && now >= executable_at {
                        proof {
                            assert(self@.proposals.contains_key(proposal_id));
                            assert(spec_approves(self@.proposals[proposal_id], wasm_hash@, now));
                        }
                        return true;
                    }
                },
                None => {},
            }
            proposal_id = proposal_id + 1;
        }
        false
    }

    /// The status of proposal `proposal_id`.
    pub fn get_proposal_status(&self, proposal_id: u32) -> (r: Result<ProposalStatus, Error>)
        ensures
            r == self@.proposal_status(proposal_id),
    {
        broadcast use vstd::std_specs::hash::group_hash_axioms;

        if !self.proposals_stored {
            return Err(Error::ProposalsNotFound);
        }
        match self.proposals.get(&proposal_id) {
            None => Err(Error::ProposalNotFound),
            Some(p) => Ok(p.status),
        }
    }

    /// Marks an active proposal whose voting window closed before
    /// `current_time` as expired.
    pub fn sweep_expired_proposal(&mut self, proposal_id: u32, current_time: u64) -> (r: Result<
        (),
        Error,
    >)
        requires
            old(self)@.wf(),
        ensures
            final(self)@.wf(),
            final(self)@ == old(self)@.sweep_expired_proposal(proposal_id, current_time).0,
            r == old(self)@.sweep_expired_proposal(proposal_id, current_time).1,
    {
        broadcast use vstd::std_specs::hash::group_hash_axioms;

        if !self.proposals_stored {
            return Err(Error::ProposalsNotFound);
        }
        let ghost old_state = self@;
        let mut proposal = match self.proposals.remove(&proposal_id) {
            Some(p) => p,
            None => {
                return Err(Error::ProposalNotFound);
            },
        };
        if proposal.status != ProposalStatus::Active {
            self.proposals.insert(proposal_id, proposal);
            proof {
                assert(self@.proposals =~= old_state.proposals);
            }
            return Err(Error::ProposalNotActive);
        }
        if current_time <= proposal.voting_end {
            self.proposals.insert(proposal_id, proposal);
            proof {
                assert(self@.proposals =~= old_state.proposals);
            }
            return Err(Error::VotingStillActive);
        }
        proposal.status = ProposalStatus::Expired;
        self.proposals.insert(proposal_id, proposal);
        proof {
            assert(self@.proposals =~= old_state.proposals.insert(
                proposal_id,
                Proposal { status: ProposalStatus::Expired, ..old_state.proposals[proposal_id] },
            ));
        }
        Ok(())
    }

    /// Whether `create_proposal(.., now, proposer_balance)` would overflow
    /// (the proposal counter or the end of the voting window).
    pub fn create_proposal_overflows(&self, now: u64, proposer_balance: i128) -> (r: bool)
        ensures
            r == !self@.create_proposal_fits(now, proposer_balance),
    {
        match &self.config {
            None => false,
            Some(c) => match enforce_min_proposal_stake(c, proposer_balance) {
                Err(_) => false,
                Ok(()) => self.proposal_count == u32::MAX || now > u64::MAX - c.voting_period,
            },
        }
    }

    /// Whether `cast_vote` with these arguments would overflow a tally or
    /// the ballot count.
    pub fn cast_vote_overflows(
        &self,
        voter: &String,
        proposal_id: u32,
        vote_type: VoteType,
        now: u64,
        voter_balance: i128,
    ) -> (r: bool)
        ensures
            r == !self@.cast_vote_fits(voter@, proposal_id, vote_type, now, voter_balance),
    {
        broadcast use vstd::std_specs::hash::group_hash_axioms;

        if self.check_vote(voter, proposal_id, now).is_err() {
            return false;
        }
        let power = match &self.config {
            Some(c) => derive_voting_power(c, voter_balance),
            None => {
                return false;
            },
        };
        if power <= 0 {
            return false;
        }
        match self.proposals.get(&proposal_id) {
            None => false,
            Some(p) => {
                let tally = match vote_type {
                    VoteType::For => p.votes_for,
                    VoteType::Against => p.votes_against,
                    VoteType::Abstain => p.votes_abstain,
                };
                tally > i128::MAX - power || p.total_votes == u32::MAX
            },
        }
    }

    /// Whether `finalize_proposal(proposal_id, now)` would overflow while
    /// weighing the tally.
    pub fn finalize_overflows(&self, proposal_id: u32, now: u64) -> (r: bool)
        requires
            self@.wf(),
        ensures
            r == !self@.finalize_fits(proposal_id, now),
    {
        broadcast use vstd::std_specs::hash::group_hash_axioms;

        if !self.proposals_stored {
            return false;
        }
        let p = match self.proposals.get(&proposal_id) {
            None => {
                return false;
            },
            Some(p) => p,
        };
        let total_power = match &self.config {
            None => {
                return false;
            },
            Some(c) => total_voting_power(c),
        };
        if now <= p.voting_end || total_power <= 0 {
            return false;
        }
        let max_cast = i128::MAX / 10000;
        p.votes_for > max_cast || p.votes_against > max_cast - p.votes_for || p.votes_abstain
            > max_cast - p.votes_for - p.votes_against
    }

    /// Rebuilds governance storage from its stored parts, or `None` when the
    /// parts break the invariant (two proposals under one id, a negative
    /// tally, an invalid configuration, two ballots of one voter on one
    /// proposal, proposals without a stored table).
    pub fn restore(
        config: Option<GovernanceConfig>,
        proposal_count: u32,
        proposals: Option<Vec<Proposal>>,
        votes: Vec<Vote>,
    ) -> (r: Option<GovernanceContract>)
        ensures
            r is Some <==> spec_restorable(
                config,
                proposal_count,
                spec_listed(proposals),
                votes@,
            ),
            r matches Some(g) ==> g@ == spec_restored_state(
                config,
                proposal_count,
                spec_listed(proposals),
                votes@,
            ),
    {
        broadcast use vstd::std_specs::hash::group_hash_axioms;

        let ghost stored = spec_listed(proposals);
        let ghost target = spec_restored_state(config, proposal_count, stored, votes@);
        match &config {
            Some(c) => {
                if c.quorum_percentage > 10000 || c.approval_threshold > 10000
                    || c.approval_threshold < 5000 || c.min_proposal_stake < 0 || total_voting_power(
                    c,
                ) <= 0 {
                    return None;
                }
            },
            None => {},
        }
        if !ballots_distinct(&votes) {
            return None;
        }
        let proposals_stored = proposals.is_some();
        let mut table: HashMap<u32, Proposal> = HashMap::new();
        match proposals {
            None => {},
            Some(list) => {
                let ghost all = list@;
                let mut list = list;
                let n_exec = list.len();
                let ghost n = all.len();
                let mut k: usize = 0;
                while list.len() > 0
                    invariant
                        stored == Some(all),
                        stored == spec_listed(proposals),
                        n == all.len(),
                        n == n_exec,
                        forall|i: int|
                            0 <= i < k ==> {
                                &&& #[trigger] all[i].votes_for >= 0
                                &&& all[i].votes_against >= 0
                                &&& all[i].votes_abstain >= 0
                            },
                        k + list@.len() == n,
                        all == all.take(k as int) + list@,
                        table@ == spec_proposal_table(all.take(k as int)),
                        spec_ids_distinct(all.take(k as int)),
                    decreases list.len(),
                {
                    let p = list.remove(0);
                    proof {
                        assert(all[k as int] == p);
                        assert(all.take(k as int + 1).drop_last() =~= all.take(k as int));
                        assert(all.take(k as int + 1).last() == p);
                        lemma_proposal_table_keys(all.take(k as int));
                    }
                    if p.votes_for < 0 || p.votes_against < 0 || p.votes_abstain < 0 {
                        proof {
                            if spec_ids_distinct(all) {
                                lemma_proposal_table_values(all, k as int);
                                let st = spec_restored_state(config, proposal_count, stored, votes@);
                                assert(st.proposals.contains_key(p.id));
                                assert(!st.wf());
                            }
                        }
                        return None;
                    }
                    let id = p.id;
                    match table.insert(id, p) {
                        Some(_) => {
                            proof {
                                let j = choose|j: int|
                                    0 <= j < k && #[trigger] all.take(k as int)[j].id == id;
                                assert(all[j].id == all[k as int].id);
                            }
                            return None;
                        },
                        None => {},
                    }
                    k = k + 1;
                    proof {
                        assert(all =~= all.take(k as int) + list@);
                        assert forall|i: int, j: int|
                            0 <= i < j < k as int implies #[trigger] all.take(k as int)[i].id
                            != #[trigger] all.take(k as int)[j].id by {
                            if j == k - 1 {
                                assert(all.take(k - 1)[i].id == all[i].id);
                            } else {
                                assert(all.take(k - 1)[i].id == all[i].id);
                                assert(all.take(k - 1)[j].id == all[j].id);
                            }
                        }
                    }
                }
                assert(all.take(n as int) =~= all);
                proof {
                    lemma_proposal_table_keys(all);
                }
            },
        }
        let g = GovernanceContract {
            config,
            proposal_count,
            proposals_stored,
            proposals: table,
            votes,
        };
        proof {
            assert(g@ =~= target);
            if stored is Some {
                let all = stored.unwrap();
                assert forall|id: u32| #[trigger] g@.proposals.contains_key(id) implies {
                    &&& g@.proposals[id].votes_for >= 0
                    &&& g@.proposals[id].votes_against >= 0
                    &&& g@.proposals[id].votes_abstain >= 0
                } by {
                    let i = choose|i: int| 0 <= i < all.len() && #[trigger] all[i].id == id;
                    lemma_proposal_table_values(all, i);
                }
            }
        }
        Some(g)
    }

    /// The stored configuration.
    pub fn config(&self) -> (r: &Option<GovernanceConfig>)
        ensures
            *r == self@.config,
    {
        &self.config
    }

    /// The number of proposals created since the last configuration.
    pub fn proposal_count(&self) -> (r: u32)
        ensures
            r == self@.proposal_count,
    {
        self.proposal_count
    }

    /// The proposal filed under `proposal_id`.
    pub fn proposal(&self, proposal_id: u32) -> (r: Option<&Proposal>)
        ensures
            match r {
                Some(p) => self@.proposals.contains_key(proposal_id) && *p
                    == self@.proposals[proposal_id],
                None => !self@.proposals.contains_key(proposal_id),
            },
    {
        broadcast use vstd::std_specs::hash::group_hash_axioms;

        self.proposals.get(&proposal_id)
    }

    /// The recorded ballots, oldest first.
    pub fn votes(&self) -> (r: &Vec<Vote>)
        ensures
            r@ == self@.votes,
    {
        &self.votes
    }

}

/// Byte-wise equality of two 32-byte hashes.
pub fn hash_eq(a: &[u8; 32], b: &[u8; 32]) -> (r: bool)
    ensures
        r == (a@ == b@),
{
    let mut i: usize = 0;
    while i < 32
        invariant
            i <= 32,
            a@.len() == 32,
            b@.len() == 32,
            forall|k: int| 0 <= k < i ==> a@[k] == b@[k],
        decreases 32 - i,
    {
        if a[i] != b[i] {
            return false;
        }
        i = i + 1;
    }
    assert(a@ =~= b@);
    true
}

} // verus!

verus! {

/// No two ballots of `votes` are by one voter on one proposal.
pub open spec fn spec_ballots_distinct(votes: Seq<Vote>) -> bool {
    forall|i: int, j: int|
        0 <= i < j < votes.len() ==> !(#[trigger] votes[i].proposal_id
            == #[trigger] votes[j].proposal_id && votes[i].voter@ == votes[j].voter@)
}

/// Whether no voter holds two ballots on one proposal.
fn ballots_distinct(votes: &Vec<Vote>) -> (r: bool)
    ensures
        r == spec_ballots_distinct(votes@),
{
    let n = votes.len();
    for j in 0..n
        invariant
            n == votes@.len(),
            forall|a: int, b: int|
                0 <= a < b < j ==> !(#[trigger] votes@[a].proposal_id
                    == #[trigger] votes@[b].proposal_id && votes@[a].voter@ == votes@[b].voter@),
    {
        for i in 0..j
            invariant
                n == votes@.len(),
                j < n,
                forall|a: int, b: int|
                    0 <= a < b < j ==> !(#[trigger] votes@[a].proposal_id
                        == #[trigger] votes@[b].proposal_id && votes@[a].voter@ == votes@[b].voter@),
                forall|a: int|
                    0 <= a < i ==> !(#[trigger] votes@[a].proposal_id == votes@[j as int].proposal_id
                        && votes@[a].voter@ == votes@[j as int].voter@),
        {
            if votes[i].proposal_id == votes[j].proposal_id && votes[i].voter == votes[j].voter {
                return false;
            }
        }
    }
    true
}

} // verus!
