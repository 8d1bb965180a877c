use grainlify_core::governance::{
    GovernanceConfig, GovernanceContract, Error, ProposalStatus, VoteType, VotingScheme,
};
use grainlify_core::monitoring::{self, MetricsStore, Operation};
use grainlify_core::{ContractEvent, GrainlifyContract, Refusal, DEFAULT_UPGRADE_DELAY_SECONDS};

fn config(scheme: VotingScheme, voters: u32) -> GovernanceConfig {
    GovernanceConfig {
        voting_period: 100,
        execution_delay: 10,
        quorum_percentage: 1000,
        approval_threshold: 5000,
        min_proposal_stake: 0,
        voting_scheme: scheme,
        governance_token: String::from("CTOKEN"),
        one_person_total_voters: voters,
        token_total_voting_power: 100,
        snapshot_ledger: None,
    }
}

fn governance_with_proposal(voters: u32) -> GovernanceContract {
    let mut gov = GovernanceContract::new();
    gov.init_governance(config(VotingScheme::OnePersonOneVote, voters)).unwrap();
    gov.create_proposal(String::from("GP"), [1u8; 32], String::from("up"), 0, 0).unwrap();
    gov
}

fn vote(gov: &mut GovernanceContract, voter: &str, vote_type: VoteType, now: u64) -> Result<(), Error> {
    gov.cast_vote(voter.to_string(), 0, vote_type, now, 0)
}

fn admin_contract(now: u64) -> (GrainlifyContract, Vec<ContractEvent>) {
    let mut ev = Vec::new();
    let mut c = GrainlifyContract::new();
    c.init_admin(String::from("GADMIN"), now, &mut ev).unwrap();
    (c, ev)
}

// ----------------------------------------------------------------- governance laws

#[test]
fn second_ballot_with_another_choice_is_refused() {
    let mut gov = governance_with_proposal(10);
    vote(&mut gov, "GA", VoteType::For, 0).unwrap();
    assert_eq!(vote(&mut gov, "GA", VoteType::Against, 50), Err(Error::AlreadyVoted));
    assert_eq!(vote(&mut gov, "GA", VoteType::Abstain, 100), Err(Error::AlreadyVoted));
}

#[test]
fn finalized_proposal_takes_no_votes() {
    let mut gov = governance_with_proposal(2);
    vote(&mut gov, "GA", VoteType::For, 0).unwrap();
    assert_eq!(gov.finalize_proposal(0, 101), Ok(ProposalStatus::Approved));
    assert_eq!(vote(&mut gov, "GB", VoteType::For, 50), Err(Error::ProposalNotActive));
}

#[test]
fn tie_is_approved_at_half_threshold_and_minority_rejected() {
    let mut gov = governance_with_proposal(6);
    for (who, vt) in [("G1", VoteType::For), ("G2", VoteType::For), ("G3", VoteType::Against), ("G4", VoteType::Against)] {
        vote(&mut gov, who, vt, 0).unwrap();
    }
    assert_eq!(gov.finalize_proposal(0, 101), Ok(ProposalStatus::Approved));

    let mut gov = governance_with_proposal(6);
    for (who, vt) in [("G1", VoteType::For), ("G2", VoteType::Against), ("G3", VoteType::Against)] {
        vote(&mut gov, who, vt, 0).unwrap();
    }
    assert_eq!(gov.finalize_proposal(0, 101), Ok(ProposalStatus::Rejected));
}

#[test]
fn only_abstentions_are_rejected() {
    let mut gov = governance_with_proposal(2);
    vote(&mut gov, "G1", VoteType::Abstain, 0).unwrap();
    vote(&mut gov, "G2", VoteType::Abstain, 0).unwrap();
    assert_eq!(gov.finalize_proposal(0, 101), Ok(ProposalStatus::Rejected));
}

#[test]
fn quorum_in_basis_points_is_exact() {
    // 1 of 10 voters is exactly the 10% quorum; with 11 voters it is missed.
    let mut gov = governance_with_proposal(10);
    vote(&mut gov, "G1", VoteType::For, 0).unwrap();
    assert_eq!(gov.finalize_proposal(0, 101), Ok(ProposalStatus::Approved));

    let mut gov = governance_with_proposal(11);
    vote(&mut gov, "G1", VoteType::For, 0).unwrap();
    assert_eq!(gov.finalize_proposal(0, 101), Ok(ProposalStatus::Rejected));
}

#[test]
fn execution_needs_approval_and_delay() {
    let mut gov = governance_with_proposal(1);
    assert_eq!(gov.execute_proposal(0, 500), Err(Error::ProposalNotApproved));
    vote(&mut gov, "G1", VoteType::For, 0).unwrap();
    assert_eq!(gov.finalize_proposal(0, 101), Ok(ProposalStatus::Approved));
    assert_eq!(gov.execute_proposal(0, 109), Err(Error::ExecutionDelayNotMet));
    assert!(!gov.is_upgrade_approved([1u8; 32], 110));
    assert_eq!(gov.execute_proposal(0, 110), Ok(()));
    assert_eq!(gov.get_proposal_status(0), Ok(ProposalStatus::Executed));
    assert!(gov.is_upgrade_approved([1u8; 32], 110));
    assert!(!gov.is_upgrade_approved([1u8; 32], 109));
    assert_eq!(gov.execute_proposal(0, 200), Err(Error::ProposalNotApproved));
}

#[test]
fn rejected_proposal_cannot_execute() {
    let mut gov = governance_with_proposal(1);
    assert_eq!(gov.finalize_proposal(0, 101), Ok(ProposalStatus::Rejected));
    assert_eq!(gov.execute_proposal(0, 500), Err(Error::ProposalNotApproved));
}

#[test]
fn sweep_expires_only_stale_active_proposals() {
    let mut gov = governance_with_proposal(1);
    assert_eq!(gov.sweep_expired_proposal(0, 100), Err(Error::VotingStillActive));
    assert_eq!(gov.sweep_expired_proposal(0, 101), Ok(()));
    assert_eq!(gov.get_proposal_status(0), Ok(ProposalStatus::Expired));
    assert_eq!(gov.sweep_expired_proposal(0, 102), Err(Error::ProposalNotActive));
    assert_eq!(gov.sweep_expired_proposal(3, 102), Err(Error::ProposalNotFound));
}

#[test]
fn proposal_ids_count_up_from_zero() {
    let mut gov = GovernanceContract::new();
    gov.init_governance(config(VotingScheme::OnePersonOneVote, 1)).unwrap();
    for expected in 0..3u32 {
        let id = gov.create_proposal(String::from("GP"), [0u8; 32], String::from("x"), 5, 0).unwrap();
        assert_eq!(id, expected);
        assert_eq!(gov.get_proposal_status(id), Ok(ProposalStatus::Active));
    }
}

#[test]
fn token_weighted_precheck_names_the_token() {
    let mut gov = GovernanceContract::new();
    let mut cfg = config(VotingScheme::TokenWeighted, 0);
    cfg.min_proposal_stake = 5;
    gov.init_governance(cfg).unwrap();
    assert_eq!(gov.create_proposal_precheck(), Ok(Some(String::from("CTOKEN"))));
    gov.create_proposal(String::from("GP"), [0u8; 32], String::from("x"), 0, 5).unwrap();
    assert_eq!(gov.cast_vote_precheck(&String::from("GV"), 0, 0), Ok(Some(String::from("CTOKEN"))));
    gov.cast_vote(String::from("GV"), 0, VoteType::For, 0, 30).unwrap();
    // 30 of 100 power is quorum; the lone For vote approves.
    assert_eq!(gov.finalize_proposal(0, 101), Ok(ProposalStatus::Approved));
}

#[test]
fn one_person_precheck_needs_no_balance() {
    let gov = governance_with_proposal(3);
    assert_eq!(gov.create_proposal_precheck(), Ok(None));
    assert_eq!(gov.cast_vote_precheck(&String::from("GV"), 0, 0), Ok(None));
}

// ----------------------------------------------------------------- governance errors

#[test]
fn each_governance_error_has_its_input() {
    let mut gov = GovernanceContract::new();
    assert_eq!(gov.create_proposal_precheck(), Err(Error::NotInitialized));
    assert_eq!(
        gov.create_proposal(String::from("GP"), [0u8; 32], String::from("x"), 0, 0),
        Err(Error::NotInitialized)
    );
    assert_eq!(vote(&mut gov, "GA", VoteType::For, 0), Err(Error::ProposalsNotFound));
    assert_eq!(gov.finalize_proposal(0, 1), Err(Error::ProposalsNotFound));
    assert_eq!(gov.get_proposal_status(0), Err(Error::ProposalsNotFound));

    let mut c = config(VotingScheme::OnePersonOneVote, 1);
    c.quorum_percentage = 10001;
    assert_eq!(gov.init_governance(c), Err(Error::InvalidThreshold));
    let mut c = config(VotingScheme::OnePersonOneVote, 1);
    c.approval_threshold = 10001;
    assert_eq!(gov.init_governance(c), Err(Error::InvalidThreshold));
    let mut c = config(VotingScheme::OnePersonOneVote, 1);
    c.approval_threshold = 4999;
    assert_eq!(gov.init_governance(c), Err(Error::ThresholdTooLow));
    let mut c = config(VotingScheme::OnePersonOneVote, 1);
    c.min_proposal_stake = -1;
    assert_eq!(gov.init_governance(c), Err(Error::InsufficientStake));
    assert_eq!(
        gov.init_governance(config(VotingScheme::OnePersonOneVote, 0)),
        Err(Error::InvalidTotalVotingPower)
    );
    let mut c = config(VotingScheme::TokenWeighted, 5);
    c.token_total_voting_power = 0;
    assert_eq!(gov.init_governance(c), Err(Error::InvalidTotalVotingPower));

    let mut gov = governance_with_proposal(1);
    assert_eq!(gov.cast_vote(String::from("GA"), 7, VoteType::For, 0, 0), Err(Error::ProposalNotFound));
    assert_eq!(gov.get_proposal_status(7), Err(Error::ProposalNotFound));
    assert_eq!(vote(&mut gov, "GA", VoteType::For, 101), Err(Error::VotingEnded));
    assert_eq!(gov.finalize_proposal(0, 100), Err(Error::VotingStillActive));

    let mut tokens = GovernanceContract::new();
    tokens.init_governance(config(VotingScheme::TokenWeighted, 0)).unwrap();
    tokens.create_proposal(String::from("GP"), [0u8; 32], String::from("x"), 0, 0).unwrap();
    assert_eq!(tokens.cast_vote(String::from("GA"), 0, VoteType::For, 0, -3), Err(Error::ZeroVotingPower));
}

// ----------------------------------------------------------------- upgrade laws

#[test]
fn default_delay_is_a_day() {
    let (mut c, mut ev) = admin_contract(10);
    assert_eq!(c.get_upgrade_delay(), DEFAULT_UPGRADE_DELAY_SECONDS);
    let s = c.schedule_upgrade([5u8; 32], 10, &mut ev).unwrap();
    assert_eq!(s.executable_at, 86_410);
    assert!(!c.is_upgrade_ready([5u8; 32], 86_409));
    assert!(c.is_upgrade_ready([5u8; 32], 86_410));
    assert!(!c.is_upgrade_ready([6u8; 32], 86_410));
}

#[test]
fn delay_below_minimum_is_refused() {
    let (mut c, mut ev) = admin_contract(0);
    let before = ev.len();
    let r = c.set_upgrade_delay(299, 0, &mut ev);
    assert_eq!(r, Err(Refusal::UpgradeDelayBelowMinimum));
    assert_eq!(Refusal::UpgradeDelayBelowMinimum.message(), "Upgrade delay below minimum");
    assert_eq!(ev.len(), before);
    assert_eq!(c.set_upgrade_delay(300, 0, &mut ev), Ok(()));
    assert_eq!(c.get_upgrade_delay(), 300);
}

#[test]
fn schedule_saturates_at_the_end_of_time() {
    let (mut c, mut ev) = admin_contract(0);
    let s = c.schedule_upgrade([1u8; 32], u64::MAX - 5, &mut ev).unwrap();
    assert_eq!(s.executable_at, u64::MAX);
}

#[test]
fn upgrade_consumes_its_schedule() {
    let (mut c, mut ev) = admin_contract(0);
    c.set_upgrade_delay(300, 0, &mut ev).unwrap();
    c.schedule_upgrade([2u8; 32], 0, &mut ev).unwrap();
    assert_eq!(c.require_scheduled_upgrade(&[2u8; 32], 299), Err(Refusal::UpgradeTimelockNotElapsed));
    c.upgrade([2u8; 32], 300, &mut ev).unwrap();
    assert_eq!(c.get_previous_version(), Some(2));
    assert_eq!(c.get_scheduled_upgrade(), None);
    assert_eq!(c.upgrade([2u8; 32], 400, &mut ev), Err(Refusal::NoScheduledUpgrade));
    assert_eq!(c.get_analytics().upgrades_executed, 1);
}

#[test]
fn admin_operations_need_an_admin() {
    let mut c = GrainlifyContract::new();
    let mut ev = Vec::new();
    assert_eq!(c.set_version(3, 0, &mut ev), Err(Refusal::AdminNotSet));
    assert_eq!(c.set_upgrade_delay(600, 0, &mut ev), Err(Refusal::AdminNotSet));
    assert_eq!(c.schedule_upgrade([0u8; 32], 0, &mut ev), Err(Refusal::AdminNotSet));
    assert_eq!(c.upgrade([0u8; 32], 0, &mut ev), Err(Refusal::AdminNotSet));
    assert_eq!(c.migrate(3, [0u8; 32], 0, &mut ev), Err(Refusal::AdminNotSet));
    assert!(ev.is_empty());
    assert_eq!(c.get_version(), 0);
}

#[test]
fn admin_stays_after_refused_reinit() {
    let (mut c, mut ev) = admin_contract(0);
    assert_eq!(c.init_admin(String::from("GOTHER"), 0, &mut ev), Err(Refusal::AlreadyInitialized));
    c.set_version(5, 0, &mut ev).unwrap();
    match ev.iter().rev().find(|e| matches!(e, ContractEvent::VersionChanged(_))) {
        Some(ContractEvent::VersionChanged(v)) => {
            assert_eq!(v.admin, "GADMIN");
            assert_eq!(v.old_version, 2);
        },
        _ => panic!("no version event"),
    }
}

// ----------------------------------------------------------------- versions

#[test]
fn version_reads_back_what_was_written() {
    let (mut c, mut ev) = admin_contract(0);
    c.set_version(7, 0, &mut ev).unwrap();
    assert_eq!(c.get_version(), 7);
    assert_eq!(c.get_ver(), 7);
}

#[test]
fn version_encodings() {
    let mut c = GrainlifyContract::new();
    let mut ev = Vec::new();
    assert_eq!(c.get_version_semver_string(), "0.0.0");
    assert_eq!(c.get_version_numeric_encoded(), 0);
    c.init_admin(String::from("GADMIN"), 0, &mut ev).unwrap();
    assert_eq!(c.get_version_semver_string(), "2.0.0");
    assert_eq!(c.get_version_numeric_encoded(), 20_000);
    assert_eq!(c.require_min_version(20_000), Ok(()));
    assert_eq!(c.require_min_version(20_001), Err(Refusal::IncompatibleVersion));
    for (raw, text, encoded) in [
        (1u32, "1.0.0", 10_000u32),
        (10_000, "1.0.0", 10_000),
        (20_000, "2.0.0", 20_000),
        (10_100, "1.1.0", 10_100),
        (10_001, "1.0.1", 10_001),
        (3, "unknown", 30_000),
        (9_999, "unknown", 99_990_000),
    ] {
        c.set_version(raw, 0, &mut ev).unwrap();
        assert_eq!(c.get_version_semver_string(), text);
        assert_eq!(c.get_version_numeric_encoded(), encoded);
    }
}

// ----------------------------------------------------------------- migration

#[test]
fn repeated_migration_changes_nothing() {
    let (mut c, mut ev) = admin_contract(0);
    c.migrate(3, [1u8; 32], 4, &mut ev).unwrap();
    let len = ev.len();
    let ops = c.get_analytics().operation_count;
    c.migrate(3, [2u8; 32], 9, &mut ev).unwrap();
    c.migrate(2, [2u8; 32], 9, &mut ev).unwrap();
    assert_eq!(ev.len(), len);
    assert_eq!(c.get_analytics().operation_count, ops);
    assert_eq!(c.get_migration_state().unwrap().migration_hash, [1u8; 32]);
    assert_eq!(c.get_migration_state().unwrap().migrated_at, 4);
}

#[test]
fn migration_without_a_path_is_refused() {
    let (mut c, mut ev) = admin_contract(0);
    assert_eq!(c.migrate(4, [0u8; 32], 0, &mut ev), Err(Refusal::NoMigrationPath));
    assert_eq!(Refusal::NoMigrationPath.message(), "No migration path available");
    c.set_version(0, 0, &mut ev).unwrap();
    assert_eq!(c.migrate(1, [0u8; 32], 0, &mut ev), Err(Refusal::NoMigrationPath));
    c.set_version(1, 0, &mut ev).unwrap();
    assert_eq!(c.migrate(3, [0u8; 32], 0, &mut ev), Ok(()));
    let state = c.get_migration_state().unwrap();
    assert_eq!((state.from_version, state.to_version), (1, 3));
}

#[test]
fn migration_events_come_in_order() {
    let (mut c, mut ev) = admin_contract(0);
    let start = ev.len();
    c.migrate(3, [3u8; 32], 12, &mut ev).unwrap();
    let new = &ev[start..];
    assert_eq!(new.len(), 5);
    assert!(matches!(&new[0], ContractEvent::Migration(m) if m.success && m.error_message.is_none() && m.timestamp == 12));
    assert!(matches!(&new[1], ContractEvent::MigrationCompleted(m) if m.from_version == 2 && m.to_version == 3));
    assert!(matches!(&new[2], ContractEvent::Operation(o) if o.operation == Operation::Migrate && o.caller == "GADMIN"));
    assert!(matches!(&new[3], ContractEvent::Governance(g) if g.total == 1));
    assert!(matches!(&new[4], ContractEvent::Performance(p) if p.function == Operation::Migrate && p.duration == 0));
}

// ----------------------------------------------------------------- monitoring

#[test]
fn error_rate_in_basis_points() {
    let mut store = MetricsStore::new();
    let mut ev = Vec::new();
    monitoring::track_operation(&mut store, &mut ev, Operation::Init, String::from("G"), false, 0);
    for _ in 0..3 {
        monitoring::track_operation(&mut store, &mut ev, Operation::Init, String::from("G"), true, 0);
    }
    let a = monitoring::get_analytics(&store);
    assert_eq!(a.operation_count, 4);
    assert_eq!(a.error_count, 1);
    assert_eq!(a.error_rate, 2500);
    assert_eq!(monitoring::get_analytics(&MetricsStore::new()).error_rate, 0);
}

#[test]
fn performance_stats_by_name() {
    let (c, _) = admin_contract(0);
    let s = c.get_performance_stats(String::from("init"));
    assert_eq!((s.call_count, s.total_time, s.avg_time, s.last_called), (1, 0, 0, 0));
    let s = c.get_performance_stats(String::from("nothing"));
    assert_eq!((s.call_count, s.total_time, s.avg_time), (0, 0, 0));
    assert_eq!(s.function_name, "nothing");
}

#[test]
fn health_reports_operations() {
    let (c, _) = admin_contract(0);
    let h = c.health_check(42);
    assert!(h.is_healthy);
    assert_eq!(h.last_operation, 42);
    assert_eq!(h.total_operations, 1);
    assert_eq!(h.contract_version, "1.0.0");
    let snap = c.get_state_snapshot(42);
    assert_eq!((snap.timestamp, snap.total_operations, snap.total_errors), (42, 1, 0));
}

#[test]
fn failed_governance_call_records_nothing() {
    let mut c = GrainlifyContract::new();
    let mut ev = Vec::new();
    assert!(c.create_proposal(String::from("GP"), [0u8; 32], String::from("x"), 0, 0, &mut ev).is_err());
    assert!(ev.is_empty());
    assert_eq!(c.get_analytics().proposals_created, 0);
}

// ----------------------------------------------------------------- storage records

fn proposal(id: u32, votes_for: i128) -> grainlify_core::Proposal {
    grainlify_core::Proposal {
        id,
        proposer: String::from("GP"),
        new_wasm_hash: [0u8; 32],
        description: String::from("x"),
        created_at: 0,
        voting_start: 0,
        voting_end: 100,
        execution_delay: 0,
        status: ProposalStatus::Active,
        votes_for,
        votes_against: 0,
        votes_abstain: 0,
        total_votes: 0,
    }
}

#[test]
fn restore_checks_the_stored_governance() {
    let cfg = || Some(config(VotingScheme::OnePersonOneVote, 4));
    let g = GovernanceContract::restore(cfg(), 2, Some(vec![proposal(0, 1), proposal(1, 0)]), Vec::new())
        .unwrap();
    assert_eq!(g.proposal_count(), 2);
    assert_eq!(g.proposal(1).map(|p| p.id), Some(1));
    assert!(g.proposal(2).is_none());
    assert!(GovernanceContract::restore(cfg(), 2, Some(vec![proposal(0, 1), proposal(0, 0)]), Vec::new()).is_none());
    assert!(GovernanceContract::restore(cfg(), 1, Some(vec![proposal(0, -1)]), Vec::new()).is_none());
    let mut bad = config(VotingScheme::OnePersonOneVote, 4);
    bad.approval_threshold = 10;
    assert!(GovernanceContract::restore(Some(bad), 0, None, Vec::new()).is_none());
    let ballot = |who: &str| grainlify_core::Vote {
        voter: who.to_string(),
        proposal_id: 0,
        vote_type: VoteType::For,
        voting_power: 1,
        timestamp: 0,
    };
    assert!(GovernanceContract::restore(cfg(), 1, Some(vec![proposal(0, 2)]), vec![ballot("GA"), ballot("GA")]).is_none());
    let mut g = GovernanceContract::restore(cfg(), 1, Some(vec![proposal(0, 1)]), vec![ballot("GA")]).unwrap();
    assert_eq!(g.cast_vote(String::from("GA"), 0, VoteType::For, 0, 0), Err(Error::AlreadyVoted));
}

#[test]
fn contract_record_round_trip() {
    let (mut c, mut ev) = admin_contract(0);
    c.set_upgrade_delay(400, 0, &mut ev).unwrap();
    let record = grainlify_core::ContractRecord {
        admin: c.admin().clone(),
        version: c.stored_version(),
        migration_state: c.get_migration_state(),
        previous_version: c.get_previous_version(),
        upgrade_delay: c.stored_upgrade_delay(),
        scheduled_upgrade: c.get_scheduled_upgrade(),
        governance_config: None,
        proposal_count: 0,
        proposals: None,
        votes: Vec::new(),
        counters: c.metrics().to_record(),
    };
    let back = GrainlifyContract::restore(record.clone()).unwrap();
    assert_eq!(back.get_upgrade_delay(), 400);
    assert_eq!(back.get_version(), 2);
    assert_eq!(back.get_analytics().operation_count, 2);
    let mut short = record.clone();
    short.upgrade_delay = Some(299);
    assert!(GrainlifyContract::restore(short).is_none());
    let mut early = record.clone();
    early.scheduled_upgrade = Some(grainlify_core::ScheduledUpgrade { wasm_hash: [0u8; 32], scheduled_at: 10, executable_at: 309 });
    assert!(GrainlifyContract::restore(early).is_none());
    let mut counters = record;
    counters.counters.error_count = 3;
    assert!(GrainlifyContract::restore(counters).is_none());
}

#[test]
fn counters_do_not_gate_governance() {
    let mut quiet = GrainlifyContract::new();
    let (mut busy, mut ev) = admin_contract(0);
    busy.set_version(9, 0, &mut ev).unwrap();
    for c in [&mut quiet, &mut busy] {
        c.init_governance(config(VotingScheme::OnePersonOneVote, 1)).unwrap();
        let mut log = Vec::new();
        assert_eq!(c.create_proposal(String::from("GP"), [0u8; 32], String::from("x"), 0, 0, &mut log), Ok(0));
        assert_eq!(c.cast_vote(String::from("GV"), 0, VoteType::Against, 0, 0, &mut log), Ok(()));
        assert_eq!(c.finalize_proposal(0, 101), Ok(ProposalStatus::Rejected));
    }
}
