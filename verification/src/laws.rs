//! Properties of the contract that span several operations, proved over the
//! abstract transitions that the operations' own contracts use.

use crate::governance::{
    sat_add_u64, spec_tally_outcome, spec_total_voting_power, Error, GovernanceState,
    ProposalStatus, VoteType, VotingScheme,
};
use crate::monitoring::{GovernanceCounter, MetricsState};
use crate::{ContractState, Refusal, MIN_UPGRADE_DELAY_SECONDS};
use vstd::prelude::*;

verus! {

/// A voter who has voted on a proposal is refused a second ballot on it
/// while voting is still open.
pub proof fn law_one_ballot_per_voter(
    s: GovernanceState,
    voter: String,
    id: u32,
    vote_type: VoteType,
    now: u64,
    balance: i128,
    again: String,
    vote_type2: VoteType,
    now2: u64,
    balance2: i128,
)
    requires
        s.wf(),
        s.cast_vote(voter, id, vote_type, now, balance).1 is Ok,
        again@ == voter@,
        now2 <= s.proposals[id].voting_end,
    ensures
        s.cast_vote(voter, id, vote_type, now, balance).0.cast_vote(
            again,
            id,
            vote_type2,
            now2,
            balance2,
        ).1 == Err::<(), Error>(Error::AlreadyVoted),
{
    let s1 = s.cast_vote(voter, id, vote_type, now, balance).0;
    let last = (s1.votes.len() - 1) as int;
    assert(s1.votes[last].proposal_id == id && s1.votes[last].voter@ == again@);
    assert(s1.has_voted(id, again@));
}

/// Once a proposal is finalised it accepts no further ballots.
pub proof fn law_finalized_proposal_takes_no_votes(
    s: GovernanceState,
    id: u32,
    now: u64,
    voter: String,
    vote_type: VoteType,
    now2: u64,
    balance: i128,
)
    requires
        s.wf(),
        s.finalize_proposal(id, now).1 is Ok,
    ensures
        s.finalize_proposal(id, now).0.cast_vote(voter, id, vote_type, now2, balance).1
            == Err::<(), Error>(Error::ProposalNotActive),
{
    let s1 = s.finalize_proposal(id, now).0;
    let outcome = spec_tally_outcome(s.proposals[id], s.config.unwrap());
    assert(s1.proposals[id].status == outcome);
}

/// An approved proposal met the quorum, and since the approval threshold is
/// at least half, it had at least as many `For` as `Against` votes.
pub proof fn law_approval_means_majority(s: GovernanceState, id: u32, now: u64)
    requires
        s.wf(),
        s.finalize_proposal(id, now).1 == Ok::<ProposalStatus, Error>(ProposalStatus::Approved),
    ensures
        ({
            let p = s.proposals[id];
            let c = s.config.unwrap();
            &&& (p.votes_for + p.votes_against + p.votes_abstain) * 10000 / spec_total_voting_power(c)
                >= c.quorum_percentage
            &&& p.votes_for >= p.votes_against
            &&& p.votes_for > 0
        }),
{
    let p = s.proposals[id];
    let c = s.config.unwrap();
    let f = p.votes_for as int;
    let a = p.votes_against as int;
    let t = c.approval_threshold as int;
    assert(f + a != 0);
    assert((f * 10000) / (f + a) >= t);
    assert(t >= 5000);
    assert(f >= a && f > 0) by (nonlinear_arith)
        requires
            f >= 0,
            a >= 0,
            f + a > 0,
            (f * 10000) / (f + a) >= t,
            t >= 5000,
    {
        let d = f + a;
        let q = (f * 10000) / d;
        assert(q * d <= f * 10000);
        assert(5000 * d <= q * d);
    }
}

/// A proposal is executed only if it was approved and its execution delay
/// after the end of voting has elapsed.
pub proof fn law_execution_needs_approval_and_delay(s: GovernanceState, id: u32, now: u64)
    requires
        s.execute_proposal(id, now).1 is Ok,
    ensures
        s.proposals.contains_key(id),
        s.proposals[id].status == ProposalStatus::Approved,
        now >= sat_add_u64(s.proposals[id].voting_end, s.proposals[id].execution_delay),
        s.execute_proposal(id, now).0.proposals[id].status == ProposalStatus::Executed,
{
}

/// Executing a proposal among the counted ones approves its upgrade.
pub proof fn law_execution_approves_upgrade(s: GovernanceState, id: u32, now: u64)
    requires
        s.execute_proposal(id, now).1 is Ok,
        id < s.proposal_count,
    ensures
        s.execute_proposal(id, now).0.upgrade_approved(s.proposals[id].new_wasm_hash@, now),
{
    let s1 = s.execute_proposal(id, now).0;
    assert(s1.proposals.contains_key(id));
}

/// An upgrade runs only for the hash that was scheduled, and never earlier
/// than the minimum delay after it was scheduled.
pub proof fn law_upgrade_timelock(s: ContractState, wasm_hash: Seq<u8>, now: u64)
    requires
        s.wf(),
        s.upgrade_refusal(wasm_hash, now) is None,
    ensures
        s.scheduled_upgrade is Some,
        s.scheduled_upgrade.unwrap().wasm_hash@ == wasm_hash,
        now >= s.scheduled_upgrade.unwrap().executable_at,
        now >= sat_add_u64(s.scheduled_upgrade.unwrap().scheduled_at, MIN_UPGRADE_DELAY_SECONDS),
{
}

/// A schedule made at `now` becomes ready exactly when the configured delay
/// has passed (saturating), and only for its own hash.
pub proof fn law_schedule_then_ready(
    s: ContractState,
    wasm_hash: [u8; 32],
    now: u64,
    other: Seq<u8>,
    later: u64,
)
    requires
        s.schedule_upgrade_refusal() is None,
    ensures
        s.schedule_upgrade(wasm_hash, now).0.upgrade_ready(other, later) <==> (other == wasm_hash@
            && later >= sat_add_u64(now, s.upgrade_delay_or_default())),
{
}

/// An upgrade consumes its schedule, so the same upgrade cannot run twice,
/// and it keeps the rest of the stored state (admin, version, migration
/// record, delay, governance).
pub proof fn law_upgrade_consumes_schedule(
    s: ContractState,
    wasm_hash: Seq<u8>,
    now: u64,
    now2: u64,
)
    requires
        s.upgrade_refusal(wasm_hash, now) is None,
    ensures
        s.upgrade(now).0.scheduled_upgrade is None,
        s.upgrade(now).0.previous_version == Some(s.version_or(1)),
        s.upgrade(now).0.upgrade_refusal(wasm_hash, now2) == Some(Refusal::NoScheduledUpgrade),
        s.upgrade(now).0.admin == s.admin,
        s.upgrade(now).0.version == s.version,
        s.upgrade(now).0.migration_state == s.migration_state,
        s.upgrade(now).0.upgrade_delay == s.upgrade_delay,
        s.upgrade(now).0.governance == s.governance,
{
}

/// Once set, the admin never changes: initialising again is refused and no
/// other operation touches it.
pub proof fn law_admin_is_immutable(
    s: ContractState,
    delay: u64,
    wasm_hash: [u8; 32],
    version: u32,
    target: u32,
    migration_hash: [u8; 32],
    now: u64,
)
    requires
        s.admin is Some,
    ensures
        s.init_admin_refusal() is Some,
        s.set_upgrade_delay(delay, now).0.admin == s.admin,
        s.schedule_upgrade(wasm_hash, now).0.admin == s.admin,
        s.upgrade(now).0.admin == s.admin,
        s.set_version(version, now).0.admin == s.admin,
        s.migrate(target, migration_hash, now).0.admin == s.admin,
{
}

/// The version read back is the one last written.
pub proof fn law_version_read_after_write(s: ContractState, version: u32, now: u64)
    ensures
        s.set_version(version, now).0.version_or(0) == version,
{
}

/// A migration to a version already reached is a no-op: no state change and
/// no event.
pub proof fn law_migration_is_idempotent(
    s: ContractState,
    target: u32,
    hash: [u8; 32],
    now: u64,
    hash2: [u8; 32],
    now2: u64,
)
    requires
        s.migrate_refusal(target) is None,
    ensures
        s.migrate(target, hash, now).0.migrate_refusal(target) is None,
        s.migrate(target, hash, now).0.migrate(target, hash2, now2).0 == s.migrate(
            target,
            hash,
            now,
        ).0,
        s.migrate(target, hash, now).0.migrate(target, hash2, now2).1 == Seq::<
            crate::ContractEvent,
        >::empty(),
{
}

/// A completed migration records where it came from and sets the version to
/// its target.
pub proof fn law_migration_records_itself(s: ContractState, target: u32, hash: [u8; 32], now: u64)
    requires
        s.migrate_refusal(target) is None,
        !s.migration_done(target),
    ensures
        s.migrate(target, hash, now).0.version == Some(target),
        s.migrate(target, hash, now).0.migration_state.unwrap().from_version == s.version_or(1),
        s.migrate(target, hash, now).0.migration_state.unwrap().to_version == target,
        s.migrate(target, hash, now).0.migration_state.unwrap().migration_hash == hash,
        s.migrate(target, hash, now).0.metrics.migrations_run >= s.metrics.migrations_run,
{
}

/// Each governance counter moves alone: bumping one leaves the others as
/// they were, and the bumped one never goes down.
pub proof fn law_counters_are_independent(
    m: MetricsState,
    c: GovernanceCounter,
    other: GovernanceCounter,
)
    requires
        other != c,
    ensures
        m.bump(c).counter(other) == m.counter(other),
        m.bump(c).counter(c) >= m.counter(c),
        m.bump(c).operation_count == m.operation_count,
        m.bump(c).error_count == m.error_count,
{
}

/// A refused governance call leaves every counter and the event log as
/// they were.
pub proof fn law_failed_governance_call_records_nothing(
    s: ContractState,
    proposer: String,
    new_wasm_hash: [u8; 32],
    description: String,
    voter: String,
    id: u32,
    vote_type: VoteType,
    now: u64,
    balance: i128,
)
    ensures
        s.create_proposal(proposer, new_wasm_hash, description, now, balance).2 is Err ==> s.create_proposal(
            proposer,
            new_wasm_hash,
            description,
            now,
            balance,
        ).0 == s && s.create_proposal(proposer, new_wasm_hash, description, now, balance).1
            == Seq::<crate::ContractEvent>::empty(),
        s.cast_vote(voter, id, vote_type, now, balance).2 is Err ==> s.cast_vote(
            voter,
            id,
            vote_type,
            now,
            balance,
        ).0 == s && s.cast_vote(voter, id, vote_type, now, balance).1 == Seq::<
            crate::ContractEvent,
        >::empty(),
{
}

/// The counters are observational: two storages that differ only in their
/// counters answer every governance call alike, and, as long as no counter
/// is about to overflow, every admin call alike too.
pub proof fn law_counters_do_not_gate(
    s: ContractState,
    t: ContractState,
    proposer: String,
    new_wasm_hash: [u8; 32],
    description: String,
    voter: String,
    id: u32,
    vote_type: VoteType,
    now: u64,
    balance: i128,
    target: u32,
    delay: u64,
)
    requires
        t == (ContractState { metrics: t.metrics, ..s }),
    ensures
        s.create_proposal(proposer, new_wasm_hash, description, now, balance).2 == t.create_proposal(
            proposer,
            new_wasm_hash,
            description,
            now,
            balance,
        ).2,
        s.create_proposal(proposer, new_wasm_hash, description, now, balance).0.governance
            == t.create_proposal(proposer, new_wasm_hash, description, now, balance).0.governance,
        s.cast_vote(voter, id, vote_type, now, balance).2 == t.cast_vote(
            voter,
            id,
            vote_type,
            now,
            balance,
        ).2,
        s.cast_vote(voter, id, vote_type, now, balance).0.governance == t.cast_vote(
            voter,
            id,
            vote_type,
            now,
            balance,
        ).0.governance,
        s.can_record(crate::Operation::Migrate) && t.can_record(crate::Operation::Migrate)
            ==> s.migrate_refusal(target) == t.migrate_refusal(target),
        s.can_record(crate::Operation::Upgrade) && t.can_record(crate::Operation::Upgrade)
            ==> s.upgrade_refusal(new_wasm_hash@, now) == t.upgrade_refusal(new_wasm_hash@, now),
        s.can_record(crate::Operation::SetDelay) && t.can_record(crate::Operation::SetDelay)
            ==> s.set_upgrade_delay_refusal(delay) == t.set_upgrade_delay_refusal(delay),
        s.can_record(crate::Operation::SetVersion) && t.can_record(crate::Operation::SetVersion)
            ==> s.set_version_refusal() == t.set_version_refusal(),
{
}

/// The total voting power of a configuration, read off its fields.
pub open spec fn power_of(c: crate::GovernanceConfig) -> int {
    match c.voting_scheme {
        VotingScheme::OnePersonOneVote => c.one_person_total_voters as int,
        VotingScheme::TokenWeighted => c.token_total_voting_power as int,
    }
}

/// Finalising after the voting window decides by two ratios: every cast
/// vote, abstentions included, in basis points of the total voting power
/// must reach the quorum, and `For` among `For + Against` in basis points
/// must reach the approval threshold. The proposal is approved exactly when
/// both hold, and the decision is recorded on it.
pub proof fn law_finalize_decides_by_quorum_and_threshold(s: GovernanceState, id: u32, now: u64)
    requires
        s.wf(),
        s.proposals_stored,
        s.proposals.contains_key(id),
        s.config is Some,
        now > s.proposals[id].voting_end,
    ensures
        ({
            let p = s.proposals[id];
            let c = s.config.unwrap();
            let cast = p.votes_for + p.votes_against + p.votes_abstain;
            let decided = p.votes_for + p.votes_against;
            let approved = cast * 10000 / power_of(c) >= c.quorum_percentage && decided > 0
                && p.votes_for * 10000 / decided >= c.approval_threshold;
            &&& s.finalize_proposal(id, now).1 == Ok::<ProposalStatus, Error>(
                if approved {
                    ProposalStatus::Approved
                } else {
                    ProposalStatus::Rejected
                },
            )
            &&& s.finalize_proposal(id, now).0.proposals[id].status == (if approved {
                ProposalStatus::Approved
            } else {
                ProposalStatus::Rejected
            })
        }),
{
    let c = s.config.unwrap();
    assert(spec_total_voting_power(c) == power_of(c));
    assert(power_of(c) > 0);
}

/// A ballot is refused as a repeat only for a voter who already holds a
/// ballot on that same proposal: on an active proposal whose window is open,
/// a voter with positive power and no ballot on it (whatever ballots they
/// hold elsewhere) is recorded, with their power added to the chosen tally.
pub proof fn law_ballot_accepted_without_prior_ballot_on_that_proposal(
    s: GovernanceState,
    voter: String,
    id: u32,
    vote_type: VoteType,
    now: u64,
    balance: i128,
)
    requires
        s.wf(),
        s.proposals_stored,
        s.proposals.contains_key(id),
        s.proposals[id].status == ProposalStatus::Active,
        now <= s.proposals[id].voting_end,
        s.config is Some,
        s.config.unwrap().voting_scheme == VotingScheme::OnePersonOneVote || balance > 0,
        forall|i: int|
            0 <= i < s.votes.len() ==> !(#[trigger] s.votes[i].proposal_id == id
                && s.votes[i].voter@ == voter@),
        s.proposals[id].total_votes < u32::MAX,
        s.proposals[id].votes_for + balance <= i128::MAX,
        s.proposals[id].votes_against + balance <= i128::MAX,
        s.proposals[id].votes_abstain + balance <= i128::MAX,
        s.proposals[id].votes_for + 1 <= i128::MAX,
        s.proposals[id].votes_against + 1 <= i128::MAX,
        s.proposals[id].votes_abstain + 1 <= i128::MAX,
    ensures
        s.cast_vote(voter, id, vote_type, now, balance).1 == Ok::<(), Error>(()),
        s.cast_vote(voter, id, vote_type, now, balance).0.votes.len() == s.votes.len() + 1,
        s.cast_vote(voter, id, vote_type, now, balance).0.proposals[id].total_votes
            == s.proposals[id].total_votes + 1,
        ({
            let power: int = if s.config.unwrap().voting_scheme == VotingScheme::OnePersonOneVote {
                1
            } else {
                balance as int
            };
            let q = s.cast_vote(voter, id, vote_type, now, balance).0.proposals[id];
            let p = s.proposals[id];
            match vote_type {
                VoteType::For => q.votes_for == p.votes_for + power && q.votes_against
                    == p.votes_against && q.votes_abstain == p.votes_abstain,
                VoteType::Against => q.votes_against == p.votes_against + power && q.votes_for
                    == p.votes_for && q.votes_abstain == p.votes_abstain,
                VoteType::Abstain => q.votes_abstain == p.votes_abstain + power && q.votes_for
                    == p.votes_for && q.votes_against == p.votes_against,
            }
        }),
{
}

/// The minimum proposal stake binds under every voting scheme: with a
/// configuration stored, a proposal is created exactly when no stake is
/// required or the proposer's balance reaches it, and it gets the next id.
pub proof fn law_proposal_needs_the_minimum_stake(
    s: GovernanceState,
    proposer: String,
    new_wasm_hash: [u8; 32],
    description: String,
    now: u64,
    balance: i128,
)
    requires
        s.config is Some,
    ensures
        ({
            let c = s.config.unwrap();
            let r = s.create_proposal(proposer, new_wasm_hash, description, now, balance).1;
            &&& (r is Ok <==> (c.min_proposal_stake == 0 || balance >= c.min_proposal_stake))
            &&& (r is Err ==> r == Err::<u32, Error>(Error::InsufficientStake))
            &&& (r is Ok ==> r == Ok::<u32, Error>(s.proposal_count))
        }),
{
}

/// Sweeping expires only active proposals whose window has closed: any
/// other status is refused with `ProposalNotActive` and left as it was, and
/// an active proposal past its window becomes `Expired`.
pub proof fn law_sweep_touches_only_active_proposals(s: GovernanceState, id: u32, current_time: u64)
    requires
        s.proposals_stored,
        s.proposals.contains_key(id),
    ensures
        s.proposals[id].status != ProposalStatus::Active ==> {
            &&& s.sweep_expired_proposal(id, current_time).1 == Err::<(), Error>(
                Error::ProposalNotActive,
            )
            &&& s.sweep_expired_proposal(id, current_time).0 == s
        },
        s.sweep_expired_proposal(id, current_time).1 is Ok <==> (s.proposals[id].status
            == ProposalStatus::Active && current_time > s.proposals[id].voting_end),
        s.sweep_expired_proposal(id, current_time).1 is Ok ==> s.sweep_expired_proposal(
            id,
            current_time,
        ).0.proposals[id].status == ProposalStatus::Expired,
{
}

/// The upgrade delay reads back as written: after `set_upgrade_delay(d)` is
/// accepted, the delay is `d`, and an upgrade scheduled at `now` becomes
/// executable at `now + d` (saturating at `u64::MAX`). A stored delay is
/// always the one reported; the default applies only when none is stored.
pub proof fn law_upgrade_delay_read_after_write(
    s: ContractState,
    d: u64,
    set_at: u64,
    wasm_hash: [u8; 32],
    now: u64,
)
    ensures
        s.upgrade_delay matches Some(stored) ==> s.upgrade_delay_or_default() == stored,
        s.upgrade_delay is None ==> s.upgrade_delay_or_default() == 86400,
        s.set_upgrade_delay_refusal(d) is None ==> {
            let s1 = s.set_upgrade_delay(d, set_at).0;
            &&& s1.upgrade_delay_or_default() == d
            &&& s1.schedule_for(wasm_hash, now).executable_at == (if now + d > u64::MAX {
                u64::MAX as int
            } else {
                now + d
            })
            &&& s1.schedule_for(wasm_hash, now).scheduled_at == now
        },
{
}

} // verus!
