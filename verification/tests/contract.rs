use grainlify_core::monitoring::{self, MetricsStore};
use grainlify_core::{
    ContractEvent, GovernanceConfig, GrainlifyContract, Refusal, VoteType, VotingScheme,
    EVENT_VERSION,
};

/// Fresh storage with `admin` initialised at ledger time `now`.
fn with_admin(admin: &str, now: u64, events: &mut Vec<ContractEvent>) -> GrainlifyContract {
    let mut c = GrainlifyContract::new();
    c.init_admin(admin.to_string(), now, events).unwrap();
    c
}

/// Runs an entry point and aborts as the contract does when it refuses.
fn or_abort<T>(r: Result<T, Refusal>) -> T {
    match r {
        Ok(v) => v,
        Err(refusal) => panic!("{}", refusal.message()),
    }
}

fn one_person_governance_config() -> GovernanceConfig {
    GovernanceConfig {
        voting_period: 100,
        execution_delay: 0,
        quorum_percentage: 1000,
        approval_threshold: 5000,
        min_proposal_stake: 0,
        voting_scheme: VotingScheme::OnePersonOneVote,
        governance_token: String::from("CTOKEN"),
        one_person_total_voters: 10,
        token_total_voting_power: 100,
        snapshot_ledger: None,
    }
}

#[test]
fn test_set_version() {
    let mut ev = Vec::new();
    let mut c = with_admin("GADMIN", 0, &mut ev);
    or_abort(c.set_version(2, 0, &mut ev));
    assert_eq!(c.get_version(), 2);
}

#[test]
fn test_schedule_upgrade_records_timelock() {
    let mut ev = Vec::new();
    let mut c = with_admin("GADMIN", 1_000, &mut ev);
    let wasm_hash = [9u8; 32];
    or_abort(c.set_upgrade_delay(600, 1_000, &mut ev));
    let scheduled = or_abort(c.schedule_upgrade(wasm_hash, 1_000, &mut ev));

    assert_eq!(scheduled.wasm_hash, wasm_hash);
    assert_eq!(scheduled.scheduled_at, 1_000);
    assert_eq!(scheduled.executable_at, 1_600);
    assert_eq!(c.get_scheduled_upgrade().unwrap(), scheduled);
}

#[test]
#[should_panic(expected = "No scheduled upgrade")]
fn test_upgrade_requires_prior_schedule() {
    let mut ev = Vec::new();
    let mut c = with_admin("GADMIN", 0, &mut ev);
    or_abort(c.upgrade([8u8; 32], 0, &mut ev));
}

#[test]
#[should_panic(expected = "Upgrade timelock not elapsed")]
fn test_upgrade_rejects_early_execution() {
    let mut ev = Vec::new();
    let mut c = with_admin("GADMIN", 2_000, &mut ev);
    let wasm_hash = [7u8; 32];
    or_abort(c.set_upgrade_delay(600, 2_000, &mut ev));
    or_abort(c.schedule_upgrade(wasm_hash, 2_000, &mut ev));
    or_abort(c.upgrade(wasm_hash, 2_599, &mut ev));
}

#[test]
#[should_panic(expected = "Scheduled upgrade hash mismatch")]
fn test_upgrade_rejects_hash_mismatch() {
    let mut ev = Vec::new();
    let mut c = with_admin("GADMIN", 3_000, &mut ev);
    or_abort(c.set_upgrade_delay(600, 3_000, &mut ev));
    or_abort(c.schedule_upgrade([1u8; 32], 3_000, &mut ev));
    or_abort(c.upgrade([2u8; 32], 3_600, &mut ev));
}

#[test]
fn test_upgrade_ready_at_exact_boundary() {
    let mut ev = Vec::new();
    let mut c = with_admin("GADMIN", 4_000, &mut ev);
    let wasm_hash = [3u8; 32];
    or_abort(c.set_upgrade_delay(600, 4_000, &mut ev));
    or_abort(c.schedule_upgrade(wasm_hash, 4_000, &mut ev));

    assert!(!c.is_upgrade_ready(wasm_hash, 4_599));
    assert!(c.is_upgrade_ready(wasm_hash, 4_600));
}

#[test]
fn test_upgrade_executes_after_timelock() {
    let mut ev = Vec::new();
    let mut c = with_admin("GADMIN", 5_000, &mut ev);
    let wasm_hash = [4u8; 32];
    or_abort(c.set_upgrade_delay(600, 5_000, &mut ev));
    or_abort(c.schedule_upgrade(wasm_hash, 5_000, &mut ev));

    let events_before_upgrade = ev.len();
    or_abort(c.upgrade(wasm_hash, 5_600, &mut ev));
    assert!(ev.len() > events_before_upgrade);
}

#[test]
fn test_migration_v1_to_v2() {
    let mut ev = Vec::new();
    let mut c = with_admin("GADMIN", 0, &mut ev);
    assert_eq!(c.get_version(), 2);

    or_abort(c.migrate(3, [0u8; 32], 0, &mut ev));
    assert_eq!(c.get_version(), 3);

    let migration_state = c.get_migration_state();
    assert!(migration_state.is_some());
    let state = migration_state.unwrap();
    assert_eq!(state.from_version, 2);
    assert_eq!(state.to_version, 3);
}

#[test]
#[should_panic(expected = "Target version must be greater than current version")]
fn test_migration_invalid_target_version() {
    let mut ev = Vec::new();
    let mut c = with_admin("GADMIN", 0, &mut ev);
    or_abort(c.migrate(1, [0u8; 32], 0, &mut ev));
}

#[test]
fn test_migration_idempotency() {
    let mut ev = Vec::new();
    let mut c = with_admin("GADMIN", 0, &mut ev);
    let migration_hash = [0u8; 32];

    or_abort(c.migrate(3, migration_hash, 0, &mut ev));
    assert_eq!(c.get_version(), 3);

    or_abort(c.migrate(3, migration_hash, 0, &mut ev));
    assert_eq!(c.get_version(), 3);

    let migration_state = c.get_migration_state();
    assert!(migration_state.is_some());
    assert_eq!(migration_state.unwrap().to_version, 3);
}

#[test]
fn test_get_previous_version() {
    let mut ev = Vec::new();
    let mut c = with_admin("GADMIN", 0, &mut ev);
    assert!(c.get_previous_version().is_none());
    or_abort(c.set_version(2, 0, &mut ev));
}

#[test]
fn test_complete_upgrade_and_migration_workflow() {
    let mut ev = Vec::new();
    let mut c = with_admin("GADMIN", 0, &mut ev);
    assert_eq!(c.get_version(), 2);

    or_abort(c.migrate(3, [1u8; 32], 0, &mut ev));
    assert_eq!(c.get_version(), 3);

    let migration_state = c.get_migration_state();
    assert!(migration_state.is_some());
    let state = migration_state.unwrap();
    assert_eq!(state.from_version, 2);
    assert_eq!(state.to_version, 3);
    assert!(state.migrated_at >= 0);

    assert!(ev.len() > 0);
}

#[test]
fn test_migration_sequential_versions() {
    let mut ev = Vec::new();
    let mut c = with_admin("GADMIN", 0, &mut ev);
    or_abort(c.migrate(3, [1u8; 32], 0, &mut ev));
    assert_eq!(c.get_version(), 3);
    let state = c.get_migration_state().unwrap();
    assert_eq!(state.from_version, 2);
    assert_eq!(state.to_version, 3);
}

#[test]
fn test_migration_event_emission() {
    let mut ev = Vec::new();
    let mut c = with_admin("GADMIN", 0, &mut ev);
    let initial_event_count = ev.len();
    or_abort(c.migrate(3, [2u8; 32], 0, &mut ev));
    assert!(ev.len() > initial_event_count);
}

#[test]
fn test_admin_initialization() {
    let mut ev = Vec::new();
    let c = with_admin("GADMIN", 0, &mut ev);
    assert_eq!(c.get_version(), 2);
}

#[test]
#[should_panic(expected = "Already initialized")]
fn test_cannot_reinitialize_admin() {
    let mut ev = Vec::new();
    let mut c = with_admin("GADMIN1", 0, &mut ev);
    or_abort(c.init_admin(String::from("GADMIN2"), 0, &mut ev));
}

#[test]
fn test_admin_persists_across_version_updates() {
    let mut ev = Vec::new();
    let mut c = with_admin("GADMIN", 0, &mut ev);
    or_abort(c.set_version(3, 0, &mut ev));
    assert_eq!(c.get_version(), 3);
    or_abort(c.set_version(4, 0, &mut ev));
    assert_eq!(c.get_version(), 4);
}

#[test]
fn test_migration_only_runs_once_per_version() {
    let mut ev = Vec::new();
    let mut c = with_admin("GADMIN", 0, &mut ev);
    assert_eq!(c.get_version(), 2);

    let hash = [1u8; 32];
    or_abort(c.migrate(3, hash, 0, &mut ev));
    let state1 = c.get_migration_state().unwrap();
    let timestamp1 = state1.migrated_at;

    or_abort(c.migrate(3, hash, 77, &mut ev));
    let state2 = c.get_migration_state().unwrap();
    assert_eq!(state2.migrated_at, timestamp1);
    assert_eq!(state2.to_version, 3);
}

#[test]
fn test_migration_transforms_state_correctly() {
    let mut ev = Vec::new();
    let mut c = with_admin("GADMIN", 0, &mut ev);
    let initial_version = c.get_version();
    assert_eq!(initial_version, 2);

    let hash = [2u8; 32];
    or_abort(c.migrate(3, hash, 0, &mut ev));
    assert_eq!(c.get_version(), 3);

    let state = c.get_migration_state().unwrap();
    assert_eq!(state.from_version, initial_version);
    assert_eq!(state.to_version, 3);
    assert_eq!(state.migration_hash, hash);
    assert!(state.migrated_at >= 0);
}

#[test]
fn test_migration_requires_admin_authorization() {
    let mut ev = Vec::new();
    let mut c = with_admin("GADMIN", 0, &mut ev);
    or_abort(c.migrate(3, [3u8; 32], 0, &mut ev));
    assert_eq!(c.get_version(), 3);
}

#[test]
#[should_panic(expected = "Target version must be greater than current version")]
fn test_migration_rejects_downgrade() {
    let mut ev = Vec::new();
    let mut c = with_admin("GADMIN", 0, &mut ev);
    or_abort(c.set_version(4, 0, &mut ev));
    or_abort(c.migrate(3, [4u8; 32], 0, &mut ev));
}

#[test]
fn test_migration_state_persists() {
    let mut ev = Vec::new();
    let mut c = with_admin("GADMIN", 0, &mut ev);
    or_abort(c.migrate(3, [5u8; 32], 0, &mut ev));

    let state1 = c.get_migration_state().unwrap();
    let state2 = c.get_migration_state().unwrap();
    assert_eq!(state1.from_version, state2.from_version);
    assert_eq!(state1.to_version, state2.to_version);
    assert_eq!(state1.migrated_at, state2.migrated_at);
    assert_eq!(state1.migration_hash, state2.migration_hash);
}

#[test]
fn test_migration_emits_success_event() {
    let mut ev = Vec::new();
    let mut c = with_admin("GADMIN", 0, &mut ev);
    let initial_events = ev.len();
    or_abort(c.migrate(3, [6u8; 32], 0, &mut ev));
    assert!(ev.len() > initial_events);
}

#[test]
fn test_migration_tracks_previous_version() {
    let mut ev = Vec::new();
    let mut c = with_admin("GADMIN", 0, &mut ev);
    let v_before = c.get_version();
    assert_eq!(v_before, 2);

    or_abort(c.migrate(3, [7u8; 32], 0, &mut ev));
    let state = c.get_migration_state().unwrap();
    assert_eq!(state.from_version, v_before);
    assert_eq!(state.to_version, 3);
}

#[test]
fn test_counters_start_at_zero() {
    let mut ev = Vec::new();
    let c = with_admin("GADMIN", 0, &mut ev);
    let analytics = c.get_analytics();
    assert_eq!(analytics.proposals_created, 0);
    assert_eq!(analytics.votes_cast, 0);
    assert_eq!(analytics.upgrades_executed, 0);
    assert_eq!(analytics.migrations_run, 0);
}

#[test]
fn test_create_proposal_increments_counter() {
    let mut ev = Vec::new();
    let mut c = GrainlifyContract::new();
    c.init_governance(one_person_governance_config()).unwrap();

    let hash = [1u8; 32];
    c.create_proposal(String::from("GPROPOSER"), hash, String::from("p1"), 0, 0, &mut ev).unwrap();
    assert_eq!(c.get_analytics().proposals_created, 1);

    c.create_proposal(String::from("GPROPOSER"), hash, String::from("p2"), 0, 0, &mut ev).unwrap();
    let analytics = c.get_analytics();
    assert_eq!(analytics.proposals_created, 2);
    assert_eq!(analytics.votes_cast, 0);
    assert_eq!(c.get_state_snapshot(0).proposals_created, 2);
}

#[test]
fn test_create_proposal_emits_metric_event() {
    let mut ev = Vec::new();
    let mut c = GrainlifyContract::new();
    c.init_governance(one_person_governance_config()).unwrap();

    let before = ev.len();
    c.create_proposal(String::from("GPROPOSER"), [2u8; 32], String::from("p1"), 0, 0, &mut ev)
        .unwrap();
    assert!(ev.len() > before);
}

#[test]
fn test_cast_vote_increments_counter() {
    let mut ev = Vec::new();
    let mut c = GrainlifyContract::new();
    c.init_governance(one_person_governance_config()).unwrap();

    let proposal_id = c
        .create_proposal(String::from("GPROPOSER"), [3u8; 32], String::from("p1"), 0, 0, &mut ev)
        .unwrap();
    c.cast_vote(String::from("GPROPOSER"), proposal_id, VoteType::For, 0, 0, &mut ev).unwrap();
    c.cast_vote(String::from("GVOTER"), proposal_id, VoteType::Against, 0, 0, &mut ev).unwrap();

    let analytics = c.get_analytics();
    assert_eq!(analytics.votes_cast, 2);
    assert_eq!(analytics.proposals_created, 1);
    assert_eq!(c.get_state_snapshot(0).votes_cast, 2);
}

#[test]
fn test_failed_vote_does_not_increment_counter() {
    let mut ev = Vec::new();
    let mut c = GrainlifyContract::new();
    c.init_governance(one_person_governance_config()).unwrap();

    let proposal_id = c
        .create_proposal(String::from("GPROPOSER"), [4u8; 32], String::from("p1"), 0, 0, &mut ev)
        .unwrap();
    c.cast_vote(String::from("GPROPOSER"), proposal_id, VoteType::For, 0, 0, &mut ev).unwrap();
    let result = c.cast_vote(String::from("GPROPOSER"), proposal_id, VoteType::For, 0, 0, &mut ev);
    assert!(result.is_err());

    assert_eq!(c.get_analytics().votes_cast, 1);
}

#[test]
fn test_migration_increments_counter_once() {
    let mut ev = Vec::new();
    let mut c = with_admin("GADMIN", 0, &mut ev);
    let hash = [5u8; 32];
    or_abort(c.migrate(3, hash, 0, &mut ev));
    assert_eq!(c.get_analytics().migrations_run, 1);

    or_abort(c.migrate(3, hash, 0, &mut ev));
    assert_eq!(c.get_analytics().migrations_run, 1);
    assert_eq!(c.get_state_snapshot(0).migrations_run, 1);
}

#[test]
fn test_upgrade_counter_increments_and_persists() {
    let mut store = MetricsStore::new();
    let mut ev = Vec::new();
    assert_eq!(monitoring::get_analytics(&store).upgrades_executed, 0);

    assert_eq!(monitoring::track_upgrade_executed(&mut store, &mut ev, 0), 1);
    assert_eq!(monitoring::track_upgrade_executed(&mut store, &mut ev, 0), 2);

    assert_eq!(monitoring::get_analytics(&store).upgrades_executed, 2);
    assert_eq!(monitoring::get_state_snapshot(&store, 0).upgrades_executed, 2);
}

#[test]
fn test_counters_are_independent() {
    let mut store = MetricsStore::new();
    let mut ev = Vec::new();
    monitoring::track_proposal_created(&mut store, &mut ev, 0);
    monitoring::track_vote_cast(&mut store, &mut ev, 0);
    monitoring::track_vote_cast(&mut store, &mut ev, 0);
    monitoring::track_upgrade_executed(&mut store, &mut ev, 0);
    monitoring::track_migration_run(&mut store, &mut ev, 0);

    let analytics = monitoring::get_analytics(&store);
    assert_eq!(analytics.proposals_created, 1);
    assert_eq!(analytics.votes_cast, 2);
    assert_eq!(analytics.upgrades_executed, 1);
    assert_eq!(analytics.migrations_run, 1);
}

#[test]
fn test_governance_versioned_events() {
    let mut ev = Vec::new();
    let mut c = with_admin("GADMIN", 0, &mut ev);

    // migrate emits a migration-completed event
    let events_len_before = ev.len();
    let migration_hash = [9u8; 32];
    or_abort(c.migrate(3, migration_hash, 0, &mut ev));
    assert!(ev.len() > events_len_before);
    let mut found_mig_comp = false;
    for event in ev.iter() {
        if let ContractEvent::MigrationCompleted(val) = event {
            assert_eq!(val.version, EVENT_VERSION);
            assert_eq!(val.from_version, 2);
            assert_eq!(val.to_version, 3);
            assert_eq!(val.migration_hash, migration_hash);
            assert!(val.success);
            found_mig_comp = true;
        }
    }
    assert!(found_mig_comp);

    // set_version emits a version-changed event
    let events_len_before = ev.len();
    or_abort(c.set_version(4, 0, &mut ev));
    assert!(ev.len() > events_len_before);
    let mut found_ver_chg = false;
    for event in ev.iter() {
        if let ContractEvent::VersionChanged(val) = event {
            assert_eq!(val.version, EVENT_VERSION);
            assert_eq!(val.old_version, 3);
            assert_eq!(val.new_version, 4);
            assert_eq!(val.admin, "GADMIN");
            found_ver_chg = true;
        }
    }
    assert!(found_ver_chg);

    // a single-admin upgrade emits an upgrade-executed event
    let wasm_hash = [11u8; 32];
    or_abort(c.set_upgrade_delay(600, 0, &mut ev));
    or_abort(c.schedule_upgrade(wasm_hash, 0, &mut ev));
    let events_len_before = ev.len();
    or_abort(c.upgrade(wasm_hash, 600, &mut ev));
    assert!(ev.len() > events_len_before);
    let mut found_upg_exec = false;
    for event in ev.iter() {
        if let ContractEvent::UpgradeExecuted(val) = event {
            assert_eq!(val.version, EVENT_VERSION);
            assert!(val.proposal_id.is_none());
            assert_eq!(val.wasm_hash, wasm_hash);
            found_upg_exec = true;
        }
    }
    assert!(found_upg_exec);
}
