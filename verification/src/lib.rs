//! Upgrade, migration, governance and monitoring logic of the Grainlify core
//! contract, kept as plain state machines whose contracts Verus checks.
//!
//! The contract's storage is a `GrainlifyContract` value; every entry point is
//! a method that takes the ledger time `now` and appends the events it emits
//! to an event log. Addresses are held as their strkey text and WASM or
//! migration hashes as 32-byte arrays.

pub mod governance;
pub mod laws;
pub mod monitoring;

pub use governance::{
    Error as GovError, GovernanceConfig, GovernanceContract, GovernanceState, Proposal,
    ProposalStatus, Vote, VoteType, VotingScheme,
};
pub use monitoring::{
    Analytics, CounterRecord, GovernanceCounter, GovernanceMetric, HealthStatus, MetricsState, MetricsStore,
    Operation, OperationMetric, PerformanceMetric, PerformanceStats, StateSnapshot,
};

use governance::sat_add_u64;
use monitoring::sat_inc;
use vstd::prelude::*;

verus! {

/// Current contract version, recorded at initialisation.
pub const VERSION: u32 = 2;

/// Minimum single-admin upgrade delay: 5 minutes.
pub const MIN_UPGRADE_DELAY_SECONDS: u64 = 5 * 60;

/// Default single-admin upgrade delay: 24 hours.
pub const DEFAULT_UPGRADE_DELAY_SECONDS: u64 = 24 * 60 * 60;

/// Version of the governance/upgrade event layout.
pub const EVENT_VERSION: u32 = 1;

/// Record of the last completed migration.
#[derive(Clone, Copy, Debug, PartialEq, Eq)]
pub struct MigrationState {
    pub from_version: u32,
    pub to_version: u32,
    pub migrated_at: u64,
    pub migration_hash: [u8; 32],
}

/// Migration event data.
#[derive(Clone, Debug)]
pub struct MigrationEvent {
    pub from_version: u32,
    pub to_version: u32,
    pub timestamp: u64,
    pub migration_hash: [u8; 32],
    pub success: bool,
    pub error_message: Option<String>,
}

/// Event of a proposed multisig upgrade.
#[derive(Clone, Debug)]
pub struct UpgradeProposed {
    pub version: u32,
    pub proposal_id: u64,
    pub proposer: String,
    pub wasm_hash: [u8; 32],
}

/// Event of an approval of a multisig upgrade proposal.
#[derive(Clone, Debug)]
pub struct UpgradeApproved {
    pub version: u32,
    pub proposal_id: u64,
    pub signer: String,
    pub approval_count: u32,
}

/// Event of an executed upgrade (`proposal_id` is `None` for the single-admin path).
#[derive(Clone, Copy, Debug, PartialEq, Eq)]
pub struct UpgradeExecuted {
    pub version: u32,
    pub proposal_id: Option<u64>,
    pub wasm_hash: [u8; 32],
}

/// Event of a version change.
#[derive(Clone, Debug)]
pub struct VersionChanged {
    pub version: u32,
    pub old_version: u32,
    pub new_version: u32,
    pub admin: String,
}

/// Event of a completed migration.
#[derive(Clone, Debug)]
pub struct MigrationCompleted {
    pub version: u32,
    pub from_version: u32,
    pub to_version: u32,
    pub timestamp: u64,
    pub migration_hash: [u8; 32],
    pub success: bool,
    pub error_message: Option<String>,
}

/// A pending single-admin upgrade.
#[derive(Clone, Copy, Debug, PartialEq, Eq)]
pub struct ScheduledUpgrade {
    pub wasm_hash: [u8; 32],
    pub scheduled_at: u64,
    pub executable_at: u64,
}

/// Event of a scheduled single-admin upgrade.
#[derive(Clone, Copy, Debug, PartialEq, Eq)]
pub struct UpgradeScheduledEvent {
    pub wasm_hash: [u8; 32],
    pub scheduled_at: u64,
    pub executable_at: u64,
    pub delay_seconds: u64,
}

/// Event of an executed single-admin upgrade.
#[derive(Clone, Copy, Debug, PartialEq, Eq)]
pub struct UpgradeExecutedEvent {
    pub wasm_hash: [u8; 32],
    pub executed_at: u64,
    pub previous_version: u32,
}

/// Everything the contract reports as an event, in the order it happens.
#[derive(Clone, Debug)]
pub enum ContractEvent {
    Operation(OperationMetric),
    Governance(GovernanceMetric),
    Performance(PerformanceMetric),
    UpgradeScheduled(UpgradeScheduledEvent),
    UpgradeExecutedAt(UpgradeExecutedEvent),
    UpgradeExecuted(UpgradeExecuted),
    VersionChanged(VersionChanged),
    Migration(MigrationEvent),
    MigrationCompleted(MigrationCompleted),
}

/// Why an entry point refuses to run. The contract aborts the whole call in
/// each case, so nothing it did before is kept.
#[derive(Clone, Copy, Debug, PartialEq, Eq, Structural)]
pub enum Refusal {
    AlreadyInitialized,
    AdminNotSet,
    UpgradeDelayBelowMinimum,
    NoScheduledUpgrade,
    ScheduledUpgradeHashMismatch,
    UpgradeTimelockNotElapsed,
    TargetVersionNotGreater,
    NoMigrationPath,
    IncompatibleVersion,
    ArithmeticOverflow,
}

impl Refusal {
    pub open spec fn spec_message(self) -> Seq<char> {
        match self {
            Refusal::AlreadyInitialized => "Already initialized"@,
            Refusal::AdminNotSet => "called `Option::unwrap()` on a `None` value"@,
            Refusal::UpgradeDelayBelowMinimum => "Upgrade delay below minimum"@,
            Refusal::NoScheduledUpgrade => "No scheduled upgrade"@,
            Refusal::ScheduledUpgradeHashMismatch => "Scheduled upgrade hash mismatch"@,
            Refusal::UpgradeTimelockNotElapsed => "Upgrade timelock not elapsed"@,
            Refusal::TargetVersionNotGreater => "Target version must be greater than current version"@,
            Refusal::NoMigrationPath => "No migration path available"@,
            Refusal::IncompatibleVersion => "Incompatible contract version"@,
            Refusal::ArithmeticOverflow => "attempt to add with overflow"@,
        }
    }

    /// The message with which the contract aborts.
    pub fn message(&self) -> (r: &'static str)
        ensures
            r@ == self.spec_message(),
    {
        match self {
            Refusal::AlreadyInitialized => "Already initialized",
            Refusal::AdminNotSet => "called `Option::unwrap()` on a `None` value",
            Refusal::UpgradeDelayBelowMinimum => "Upgrade delay below minimum",
            Refusal::NoScheduledUpgrade => "No scheduled upgrade",
            Refusal::ScheduledUpgradeHashMismatch => "Scheduled upgrade hash mismatch",
            Refusal::UpgradeTimelockNotElapsed => "Upgrade timelock not elapsed",
            Refusal::TargetVersionNotGreater => "Target version must be greater than current version",
            Refusal::NoMigrationPath => "No migration path available",
            Refusal::IncompatibleVersion => "Incompatible contract version",
            Refusal::ArithmeticOverflow => "attempt to add with overflow",
        }
    }
}

/// The operation and performance events recorded by a successful entry point.
pub open spec fn spec_record_events(op: Operation, caller: String, now: u64) -> Seq<ContractEvent> {
    seq![
        ContractEvent::Operation(OperationMetric { operation: op, caller, timestamp: now, success: true }),
        ContractEvent::Performance(PerformanceMetric { function: op, duration: 0, timestamp: now }),
    ]
}

/// Like `spec_record_events`, with a counter event between the two.
pub open spec fn spec_record_counter_events(
    op: Operation,
    caller: String,
    counter: GovernanceCounter,
    total: u64,
    now: u64,
) -> Seq<ContractEvent> {
    seq![
        ContractEvent::Operation(OperationMetric { operation: op, caller, timestamp: now, success: true }),
        ContractEvent::Governance(GovernanceMetric { metric: counter, total, timestamp: now }),
        ContractEvent::Performance(PerformanceMetric { function: op, duration: 0, timestamp: now }),
    ]
}

/// Abstract state of the whole contract storage.
#[verifier::ext_equal]
pub struct ContractState {
    pub admin: Option<String>,
    pub version: Option<u32>,
    pub migration_state: Option<MigrationState>,
    pub previous_version: Option<u32>,
    pub upgrade_delay: Option<u64>,
    pub scheduled_upgrade: Option<ScheduledUpgrade>,
    pub governance: GovernanceState,
    pub metrics: MetricsState,
}

impl ContractState {
    pub open spec fn empty() -> ContractState {
        ContractState {
            admin: None,
            version: None,
            migration_state: None,
            previous_version: None,
            upgrade_delay: None,
            scheduled_upgrade: None,
            governance: GovernanceState::empty(),
            metrics: MetricsState::empty(),
        }
    }

    /// The invariant every entry point keeps. Among it: the upgrade delay is
    /// never below the minimum, and a scheduled upgrade never becomes
    /// executable earlier than the minimum delay after it was scheduled.
    pub open spec fn wf(self) -> bool {
        &&& self.governance.wf()
        &&& self.metrics.wf()
        &&& (self.upgrade_delay matches Some(d) ==> d >= MIN_UPGRADE_DELAY_SECONDS)
        &&& (self.scheduled_upgrade matches Some(s) ==> s.executable_at >= sat_add_u64(
            s.scheduled_at,
            MIN_UPGRADE_DELAY_SECONDS,
        ))
    }

    pub open spec fn upgrade_delay_or_default(self) -> u64 {
        match self.upgrade_delay {
            Some(d) => d,
            None => DEFAULT_UPGRADE_DELAY_SECONDS,
        }
    }

    pub open spec fn version_or(self, default: u32) -> u32 {
        match self.version {
            Some(v) => v,
            None => default,
        }
    }

    /// Whether an operation and its performance record overflow no counter.
    pub open spec fn can_record(self, op: Operation) -> bool {
        self.metrics.can_track(true) && self.metrics.can_perform(op, 0)
    }

    pub open spec fn recorded(self, op: Operation) -> MetricsState {
        self.metrics.after_operation(true).performed(op, 0)
    }

    pub open spec fn recorded_with(self, op: Operation, counter: GovernanceCounter) -> MetricsState {
        self.metrics.after_operation(true).bump(counter).performed(op, 0)
    }

    // ------------------------------------------------------------ init_admin

    pub open spec fn init_admin_refusal(self) -> Option<Refusal> {
        if self.admin is Some {
            if !self.metrics.can_track(false) {
                Some(Refusal::ArithmeticOverflow)
            } else {
                Some(Refusal::AlreadyInitialized)
            }
        } else if !self.can_record(Operation::Init) {
            Some(Refusal::ArithmeticOverflow)
        } else {
            None
        }
    }

    pub open spec fn init_admin(self, admin: String, now: u64) -> (ContractState, Seq<ContractEvent>) {
        (
            ContractState {
                admin: Some(admin),
                version: Some(VERSION),
                metrics: self.recorded(Operation::Init),
                ..self
            },
            spec_record_events(Operation::Init, admin, now),
        )
    }

    // ------------------------------------------------------------ upgrade delay

    pub open spec fn set_upgrade_delay_refusal(self, delay_seconds: u64) -> Option<Refusal> {
        if self.admin is None {
            Some(Refusal::AdminNotSet)
        } else if delay_seconds < MIN_UPGRADE_DELAY_SECONDS {
            Some(Refusal::UpgradeDelayBelowMinimum)
        } else if !self.can_record(Operation::SetDelay) {
            Some(Refusal::ArithmeticOverflow)
        } else {
            None
        }
    }

    pub open spec fn set_upgrade_delay(self, delay_seconds: u64, now: u64) -> (
        ContractState,
        Seq<ContractEvent>,
    ) {
        (
            ContractState {
                upgrade_delay: Some(delay_seconds),
                metrics: self.recorded(Operation::SetDelay),
                ..self
            },
            spec_record_events(Operation::SetDelay, self.admin.unwrap(), now),
        )
    }

    // ------------------------------------------------------------ schedule

    pub open spec fn schedule_upgrade_refusal(self) -> Option<Refusal> {
        if self.admin is None {
            Some(Refusal::AdminNotSet)
        } else if !self.can_record(Operation::ScheduleUpgrade) {
            Some(Refusal::ArithmeticOverflow)
        } else {
            None
        }
    }

    /// The schedule that `schedule_upgrade` records at `now`.
    pub open spec fn schedule_for(self, wasm_hash: [u8; 32], now: u64) -> ScheduledUpgrade {
        ScheduledUpgrade {
            wasm_hash,
            scheduled_at: now,
            executable_at: sat_add_u64(now, self.upgrade_delay_or_default()),
        }
    }

    pub open spec fn schedule_upgrade(self, wasm_hash: [u8; 32], now: u64) -> (
        ContractState,
        Seq<ContractEvent>,
    ) {
        let s = self.schedule_for(wasm_hash, now);
        (
            ContractState {
                scheduled_upgrade: Some(s),
                metrics: self.recorded(Operation::ScheduleUpgrade),
                ..self
            },
            seq![
                ContractEvent::UpgradeScheduled(
                    UpgradeScheduledEvent {
                        wasm_hash,
                        scheduled_at: now,
                        executable_at: s.executable_at,
                        delay_seconds: self.upgrade_delay_or_default(),
                    },
                ),
            ] + spec_record_events(Operation::ScheduleUpgrade, self.admin.unwrap(), now),
        )
    }

    /// Whether the scheduled upgrade is for `wasm_hash` and executable at `now`.
    pub open spec fn upgrade_ready(self, wasm_hash: Seq<u8>, now: u64) -> bool {
        self.scheduled_upgrade matches Some(s) && s.wasm_hash@ == wasm_hash && now
            >= s.executable_at
    }

    // ------------------------------------------------------------ upgrade

    /// The schedule an upgrade to `wasm_hash` at `now` relies on, or why there is none.
    pub open spec fn scheduled_check(self, wasm_hash: Seq<u8>, now: u64) -> Result<
        ScheduledUpgrade,
        Refusal,
    > {
        match self.scheduled_upgrade {
            None => Err(Refusal::NoScheduledUpgrade),
            Some(s) => if s.wasm_hash@ != wasm_hash {
                Err(Refusal::ScheduledUpgradeHashMismatch)
            } else if now < s.executable_at {
                Err(Refusal::UpgradeTimelockNotElapsed)
            } else {
                Ok(s)
            },
        }
    }

    pub open spec fn upgrade_refusal(self, wasm_hash: Seq<u8>, now: u64) -> Option<Refusal> {
        if self.admin is None {
            Some(Refusal::AdminNotSet)
        } else if self.scheduled_check(wasm_hash, now) is Err {
            Some(self.scheduled_check(wasm_hash, now)->Err_0)
        } else if !self.can_record(Operation::Upgrade) {
            Some(Refusal::ArithmeticOverflow)
        } else {
            None
        }
    }

    pub open spec fn upgrade(self, now: u64) -> (ContractState, Seq<ContractEvent>) {
        let s = self.scheduled_upgrade.unwrap();
        let previous = self.version_or(1);
        (
            ContractState {
                previous_version: Some(previous),
                scheduled_upgrade: None,
                metrics: self.recorded_with(Operation::Upgrade, GovernanceCounter::UpgradesExecuted),
                ..self
            },
            seq![
                ContractEvent::UpgradeExecutedAt(
                    UpgradeExecutedEvent {
                        wasm_hash: s.wasm_hash,
                        executed_at: now,
                        previous_version: previous,
                    },
                ),
                ContractEvent::UpgradeExecuted(
                    UpgradeExecuted { version: EVENT_VERSION, proposal_id: None, wasm_hash: s.wasm_hash },
                ),
            ] + spec_record_counter_events(
                Operation::Upgrade,
                self.admin.unwrap(),
                GovernanceCounter::UpgradesExecuted,
                sat_inc(self.metrics.upgrades_executed),
                now,
            ),
        )
    }

    // ------------------------------------------------------------ versions

    pub open spec fn set_version_refusal(self) -> Option<Refusal> {
        if self.admin is None {
            Some(Refusal::AdminNotSet)
        } else if !self.can_record(Operation::SetVersion) {
            Some(Refusal::ArithmeticOverflow)
        } else {
            None
        }
    }

    pub open spec fn set_version(self, new_version: u32, now: u64) -> (
        ContractState,
        Seq<ContractEvent>,
    ) {
        (
            ContractState {
                version: Some(new_version),
                metrics: self.recorded(Operation::SetVersion),
                ..self
            },
            seq![
                ContractEvent::VersionChanged(
                    VersionChanged {
                        version: EVENT_VERSION,
                        old_version: self.version_or(1),
                        new_version,
                        admin: self.admin.unwrap(),
                    },
                ),
            ] + spec_record_events(Operation::SetVersion, self.admin.unwrap(), now),
        )
    }

    /// The stored version in the `major * 10_000 + minor * 100 + patch`
    /// encoding; a plain major number is scaled (saturating).
    pub open spec fn version_numeric_encoded(self) -> u32 {
        let raw = self.version_or(0);
        if raw >= 10_000 {
            raw
        } else if raw * 10_000 > u32::MAX {
            u32::MAX
        } else {
            (raw * 10_000) as u32
        }
    }

    // ------------------------------------------------------------ migrate

    /// Whether a migration to `target_version` (or beyond) already completed.
    pub open spec fn migration_done(self, target_version: u32) -> bool {
        self.migration_state matches Some(ms) && ms.to_version >= target_version
    }

    pub open spec fn migrate_refusal(self, target_version: u32) -> Option<Refusal> {
        let current = self.version_or(1);
        if self.admin is None {
            Some(Refusal::AdminNotSet)
        } else if self.migration_done(target_version) {
            None
        } else if target_version <= current {
            Some(Refusal::TargetVersionNotGreater)
        } else if current < 1 || target_version > 3 {
            Some(Refusal::NoMigrationPath)
        } else if !self.can_record(Operation::Migrate) {
            Some(Refusal::ArithmeticOverflow)
        } else {
            None
        }
    }

    pub open spec fn migrate(self, target_version: u32, migration_hash: [u8; 32], now: u64) -> (
        ContractState,
        Seq<ContractEvent>,
    ) {
        let current = self.version_or(1);
        if self.migration_done(target_version) {
            (self, Seq::empty())
        } else {
            (
                ContractState {
                    version: Some(target_version),
                    migration_state: Some(
                        MigrationState {
                            from_version: current,
                            to_version: target_version,
                            migrated_at: now,
                            migration_hash,
                        },
                    ),
                    metrics: self.recorded_with(Operation::Migrate, GovernanceCounter::MigrationsRun),
                    ..self
                },
                seq![
                    ContractEvent::Migration(
                        MigrationEvent {
                            from_version: current,
                            to_version: target_version,
                            timestamp: now,
                            migration_hash,
                            success: true,
                            error_message: None,
                        },
                    ),
                    ContractEvent::MigrationCompleted(
                        MigrationCompleted {
                            version: EVENT_VERSION,
                            from_version: current,
                            to_version: target_version,
                            timestamp: now,
                            migration_hash,
                            success: true,
                            error_message: None,
                        },
                    ),
                ] + spec_record_counter_events(
                    Operation::Migrate,
                    self.admin.unwrap(),
                    GovernanceCounter::MigrationsRun,
                    sat_inc(self.metrics.migrations_run),
                    now,
                ),
            )
        }
    }

    // ------------------------------------------------------------ governance

    pub open spec fn with_governance(self, g: GovernanceState) -> ContractState {
        ContractState { governance: g, ..self }
    }

    pub open spec fn create_proposal(
        self,
        proposer: String,
        new_wasm_hash: [u8; 32],
        description: String,
        now: u64,
        proposer_balance: i128,
    ) -> (ContractState, Seq<ContractEvent>, Result<u32, GovError>) {
        let (g, r) = self.governance.create_proposal(
            proposer,
            new_wasm_hash,
            description,
            now,
            proposer_balance,
        );
        match r {
            Ok(_) => (
                ContractState {
                    governance: g,
                    metrics: self.metrics.bump(GovernanceCounter::ProposalsCreated),
                    ..self
                },
                seq![
                    ContractEvent::Governance(
                        GovernanceMetric {
                            metric: GovernanceCounter::ProposalsCreated,
                            total: sat_inc(self.metrics.proposals_created),
                            timestamp: now,
                        },
                    ),
                ],
                r,
            ),
            Err(_) => (self, Seq::empty(), r),
        }
    }

    pub open spec fn cast_vote(
        self,
        voter: String,
        proposal_id: u32,
        vote_type: VoteType,
        now: u64,
        voter_balance: i128,
    ) -> (ContractState, Seq<ContractEvent>, Result<(), GovError>) {
        let (g, r) = self.governance.cast_vote(voter, proposal_id, vote_type, now, voter_balance);
        match r {
            Ok(_) => (
                ContractState {
                    governance: g,
                    metrics: self.metrics.bump(GovernanceCounter::VotesCast),
                    ..self
                },
                seq![
                    ContractEvent::Governance(
                        GovernanceMetric {
                            metric: GovernanceCounter::VotesCast,
                            total: sat_inc(self.metrics.votes_cast),
                            timestamp: now,
                        },
                    ),
                ],
                r,
            ),
            Err(_) => (self, Seq::empty(), r),
        }
    }
}

/// The semantic version text of a stored version number.
pub open spec fn spec_semver(raw: u32) -> Seq<char> {
    if raw == 0 {
        "0.0.0"@
    } else if raw == 1 || raw == 10000 {
        "1.0.0"@
    } else if raw == 2 || raw == 20000 {
        "2.0.0"@
    } else if raw == 10100 {
        "1.1.0"@
    } else if raw == 10001 {
        "1.0.1"@
    } else {
        "unknown"@
    }
}

/// The contract storage as stored, one field per storage entry.
#[derive(Clone, Debug)]
pub struct ContractRecord {
    pub admin: Option<String>,
    pub version: Option<u32>,
    pub migration_state: Option<MigrationState>,
    pub previous_version: Option<u32>,
    pub upgrade_delay: Option<u64>,
    pub scheduled_upgrade: Option<ScheduledUpgrade>,
    pub governance_config: Option<GovernanceConfig>,
    pub proposal_count: u32,
    pub proposals: Option<Vec<Proposal>>,
    pub votes: Vec<Vote>,
    pub counters: CounterRecord,
}

impl ContractRecord {
    /// The state the record describes.
    pub open spec fn state(self) -> ContractState {
        ContractState {
            admin: self.admin,
            version: self.version,
            migration_state: self.migration_state,
            previous_version: self.previous_version,
            upgrade_delay: self.upgrade_delay,
            scheduled_upgrade: self.scheduled_upgrade,
            governance: governance::spec_restored_state(
                self.governance_config,
                self.proposal_count,
                governance::spec_listed(self.proposals),
                self.votes@,
            ),
            metrics: self.counters.state(),
        }
    }

    /// Whether the record describes a state the operations keep the
    /// invariant of.
    pub open spec fn restorable(self) -> bool {
        &&& governance::spec_restorable(
            self.governance_config,
            self.proposal_count,
            governance::spec_listed(self.proposals),
            self.votes@,
        )
        &&& self.state().wf()
    }
}

/// The contract storage: admin, version bookkeeping, upgrade timelock,
/// governance and the persistent counters.
pub struct GrainlifyContract {
    admin: Option<String>,
    version: Option<u32>,
    migration_state: Option<MigrationState>,
    previous_version: Option<u32>,
    upgrade_delay: Option<u64>,
    scheduled_upgrade: Option<ScheduledUpgrade>,
    governance: GovernanceContract,
    metrics: MetricsStore,
}

impl View for GrainlifyContract {
    type V = ContractState;

    closed spec fn view(&self) -> ContractState {
        ContractState {
            admin: self.admin,
            version: self.version,
            migration_state: self.migration_state,
            previous_version: self.previous_version,
            upgrade_delay: self.upgrade_delay,
            scheduled_upgrade: self.scheduled_upgrade,
            governance: self.governance@,
            metrics: self.metrics@,
        }
    }
}

impl GrainlifyContract {
    /// Fresh, empty storage.
    pub fn new() -> (s: GrainlifyContract)
        ensures
            s@ == ContractState::empty(),
            s@.wf(),
    {
        GrainlifyContract {
            admin: None,
            version: None,
            migration_state: None,
            previous_version: None,
            upgrade_delay: None,
            scheduled_upgrade: None,
            governance: GovernanceContract::new(),
            metrics: MetricsStore::new(),
        }
    }

    /// Whether an operation of kind `op` and its performance record overflow
    /// no counter.
    fn can_record(&self, op: Operation) -> (r: bool)
        requires
            self@.wf(),
        ensures
            r == self@.can_record(op),
    {
        monitoring::can_track(&self.metrics, true) && monitoring::can_perform(&self.metrics, op, 0)
    }

    /// A copy of the admin address.
    fn admin_address(&self) -> (r: String)
        requires
            self@.admin is Some,
        ensures
            r == self@.admin.unwrap(),
    {
        match &self.admin {
            Some(a) => a.clone(),
            None => {
                assert(false);
                String::new()
            },
        }
    }

    // ==================================================================
    // Governance
    // ==================================================================

    /// Validates and stores the governance configuration.
    pub fn init_governance(&mut self, config: GovernanceConfig) -> (r: Result<(), GovError>)
        requires
            old(self)@.wf(),
        ensures
            final(self)@.wf(),
            final(self)@ == old(self)@.with_governance(
                old(self)@.governance.init_governance(config).0,
            ),
            r == old(self)@.governance.init_governance(config).1,
    {
        self.governance.init_governance(config)
    }

    /// Creates a governance proposal for a candidate upgrade WASM hash. On
    /// success the `proposals_created` counter moves up and is reported.
    pub fn create_proposal(
        &mut self,
        proposer: String,
        new_wasm_hash: [u8; 32],
        description: String,
        now: u64,
        proposer_balance: i128,
        events: &mut Vec<ContractEvent>,
    ) -> (r: Result<u32, GovError>)
        requires
            old(self)@.wf(),
            old(self)@.governance.create_proposal_fits(now, proposer_balance),
        ensures
            final(self)@.wf(),
            final(self)@ == old(self)@.create_proposal(
                proposer,
                new_wasm_hash,
                description,
                now,
                proposer_balance,
            ).0,
            final(events)@ == old(events)@ + old(self)@.create_proposal(
                proposer,
                new_wasm_hash,
                description,
                now,
                proposer_balance,
            ).1,
            r == old(self)@.create_proposal(
                proposer,
                new_wasm_hash,
                description,
                now,
                proposer_balance,
            ).2,
    {
        let proposal_id = match self.governance.create_proposal(
            proposer,
            new_wasm_hash,
            description,
            now,
            proposer_balance,
        ) {
            Err(e) => {
                assert(old(events)@ + Seq::<ContractEvent>::empty() =~= old(events)@);
                return Err(e);
            },
            Ok(id) => id,
        };
        let ghost before = events@;
        monitoring::track_proposal_created(&mut self.metrics, events, now);
        assert(events@ =~= before + seq![
            ContractEvent::Governance(
                GovernanceMetric {
                    metric: GovernanceCounter::ProposalsCreated,
                    total: sat_inc(old(self)@.metrics.proposals_created),
                    timestamp: now,
                },
            ),
        ]);
        Ok(proposal_id)
    }

    /// Casts a governance vote. On success the `votes_cast` counter moves up
    /// and is reported.
    pub fn cast_vote(
        &mut self,
        voter: String,
        proposal_id: u32,
        vote_type: VoteType,
        now: u64,
        voter_balance: i128,
        events: &mut Vec<ContractEvent>,
    ) -> (r: Result<(), GovError>)
        requires
            old(self)@.wf(),
            old(self)@.governance.cast_vote_fits(voter@, proposal_id, vote_type, now, voter_balance),
        ensures
            final(self)@.wf(),
            final(self)@ == old(self)@.cast_vote(voter, proposal_id, vote_type, now, voter_balance).0,
            final(events)@ == old(events)@ + old(self)@.cast_vote(
                voter,
                proposal_id,
                vote_type,
                now,
                voter_balance,
            ).1,
            r == old(self)@.cast_vote(voter, proposal_id, vote_type, now, voter_balance).2,
    {
        match self.governance.cast_vote(voter, proposal_id, vote_type, now, voter_balance) {
            Err(e) => {
                assert(old(events)@ + Seq::<ContractEvent>::empty() =~= old(events)@);
                return Err(e);
            },
            Ok(()) => {},
        }
        let ghost before = events@;
        monitoring::track_vote_cast(&mut self.metrics, events, now);
        assert(events@ =~= before + seq![
            ContractEvent::Governance(
                GovernanceMetric {
                    metric: GovernanceCounter::VotesCast,
                    total: sat_inc(old(self)@.metrics.votes_cast),
                    timestamp: now,
                },
            ),
        ]);
        Ok(())
    }

    /// Finalises voting on a proposal and records Approved or Rejected.
    pub fn finalize_proposal(&mut self, proposal_id: u32, now: u64) -> (r: Result<
        ProposalStatus,
        GovError,
    >)
        requires
            old(self)@.wf(),
            old(self)@.governance.finalize_fits(proposal_id, now),
        ensures
            final(self)@.wf(),
            final(self)@ == old(self)@.with_governance(
                old(self)@.governance.finalize_proposal(proposal_id, now).0,
            ),
            r == old(self)@.governance.finalize_proposal(proposal_id, now).1,
    {
        self.governance.finalize_proposal(proposal_id, now)
    }

    /// Marks an approved proposal as executed after its delay.
    pub fn execute_proposal(&mut self, proposal_id: u32, now: u64) -> (r: Result<(), GovError>)
        requires
            old(self)@.wf(),
        ensures
            final(self)@.wf(),
            final(self)@ == old(self)@.with_governance(
                old(self)@.governance.execute_proposal(proposal_id, now).0,
            ),
            r == old(self)@.governance.execute_proposal(proposal_id, now).1,
    {
        self.governance.execute_proposal(proposal_id, now)
    }

    /// Whether governance executed an upgrade proposal for `wasm_hash`.
    pub fn is_upg_ok(&self, wasm_hash: [u8; 32], now: u64) -> (r: bool)
        requires
            self@.wf(),
        ensures
            r == self@.governance.upgrade_approved(wasm_hash@, now),
    {
        self.governance.is_upgrade_approved(wasm_hash, now)
    }

    /// Read access to the governance storage.
    pub fn governance(&self) -> (r: &GovernanceContract)
        ensures
            r@ == self@.governance,
    {
        &self.governance
    }

    // ==================================================================
    // Admin and upgrade timelock
    // ==================================================================

    /// Initialises the contract with a single admin address and the current
    /// version. The admin can never be replaced afterwards.
    pub fn init_admin(&mut self, admin: String, now: u64, events: &mut Vec<ContractEvent>) -> (r:
        Result<(), Refusal>)
        requires
            old(self)@.wf(),
        ensures
            final(self)@.wf(),
            match r {
                Err(x) => old(self)@.init_admin_refusal() == Some(x) && final(self)@ == old(self)@
                    && final(events)@ == old(events)@,
                Ok(_) => old(self)@.init_admin_refusal() is None && final(self)@ == old(self)@.init_admin(admin, now).0 && final(events)@ == old(events)@ + old(self)@.init_admin(admin, now).1,
            },
    {
        let start = now;
        if self.admin.is_some() {
            if !monitoring::can_track(&self.metrics, false) {
                return Err(Refusal::ArithmeticOverflow);
            }
            return Err(Refusal::AlreadyInitialized);
        }
        if !self.can_record(Operation::Init) {
            return Err(Refusal::ArithmeticOverflow);
        }
        self.admin = Some(admin.clone());
        self.version = Some(VERSION);
        let ghost before = events@;
        monitoring::track_operation(&mut self.metrics, events, Operation::Init, admin, true, now);
        let duration = now.saturating_sub(start);
        monitoring::emit_performance(&mut self.metrics, events, Operation::Init, duration, now);
        assert(events@ =~= before + spec_record_events(Operation::Init, admin, now));
        Ok(())
    }

    /// The configured single-admin upgrade delay in seconds.
    pub fn get_upgrade_delay(&self) -> (r: u64)
        ensures
            r == self@.upgrade_delay_or_default(),
    {
        match self.upgrade_delay {
            Some(d) => d,
            None => DEFAULT_UPGRADE_DELAY_SECONDS,
        }
    }

    /// Updates the single-admin upgrade delay; it may not go below
    /// `MIN_UPGRADE_DELAY_SECONDS`.
    pub fn set_upgrade_delay(
        &mut self,
        delay_seconds: u64,
        now: u64,
        events: &mut Vec<ContractEvent>,
    ) -> (r: Result<(), Refusal>)
        requires
            old(self)@.wf(),
        ensures
            final(self)@.wf(),
            match r {
                Err(x) => old(self)@.set_upgrade_delay_refusal(delay_seconds) == Some(x)
                    && final(self)@ == old(self)@ && final(events)@ == old(events)@,
                Ok(_) => old(self)@.set_upgrade_delay_refusal(delay_seconds) is None && final(self)@ == old(self)@.set_upgrade_delay(delay_seconds, now).0 && final(events)@ == old(events)@ + old(self)@.set_upgrade_delay(delay_seconds, now).1,
            },
    {
        let start = now;
        if self.admin.is_none() {
            return Err(Refusal::AdminNotSet);
        }
        let admin = self.admin_address();
        if delay_seconds < MIN_UPGRADE_DELAY_SECONDS {
            return Err(Refusal::UpgradeDelayBelowMinimum);
        }
        if !self.can_record(Operation::SetDelay) {
            return Err(Refusal::ArithmeticOverflow);
        }
        self.upgrade_delay = Some(delay_seconds);
        let ghost before = events@;
        monitoring::track_operation(&mut self.metrics, events, Operation::SetDelay, admin, true, now);
        let duration = now.saturating_sub(start);
        monitoring::emit_performance(&mut self.metrics, events, Operation::SetDelay, duration, now);
        assert(events@ =~= before + spec_record_events(Operation::SetDelay, admin, now));
        Ok(())
    }

    /// Schedules a single-admin upgrade to `wasm_hash`, executable once the
    /// configured delay has passed after `now`.
    pub fn schedule_upgrade(
        &mut self,
        wasm_hash: [u8; 32],
        now: u64,
        events: &mut Vec<ContractEvent>,
    ) -> (r: Result<ScheduledUpgrade, Refusal>)
        requires
            old(self)@.wf(),
        ensures
            final(self)@.wf(),
            match r {
                Err(x) => old(self)@.schedule_upgrade_refusal() == Some(x) && final(self)@ == old(self)@ && final(events)@ == old(events)@,
                Ok(s) => old(self)@.schedule_upgrade_refusal() is None && s == old(self)@.schedule_for(wasm_hash, now) && final(self)@ == old(self)@.schedule_upgrade(
                    wasm_hash,
                    now,
                ).0 && final(events)@ == old(events)@ + old(self)@.schedule_upgrade(
                    wasm_hash,
                    now,
                ).1,
            },
    {
        let start = now;
        if self.admin.is_none() {
            return Err(Refusal::AdminNotSet);
        }
        let admin = self.admin_address();
        if !self.can_record(Operation::ScheduleUpgrade) {
            return Err(Refusal::ArithmeticOverflow);
        }
        let delay_seconds = self.get_upgrade_delay();
        let scheduled_at = now;
        let executable_at = scheduled_at.saturating_add(delay_seconds);
        let scheduled = ScheduledUpgrade { wasm_hash, scheduled_at, executable_at };
        self.scheduled_upgrade = Some(scheduled);
        let ghost before = events@;
        events.push(
            ContractEvent::UpgradeScheduled(
                UpgradeScheduledEvent { wasm_hash, scheduled_at, executable_at, delay_seconds },
            ),
        );
        monitoring::track_operation(
            &mut self.metrics,
            events,
            Operation::ScheduleUpgrade,
            admin,
            true,
            now,
        );
        let duration = now.saturating_sub(start);
        monitoring::emit_performance(
            &mut self.metrics,
            events,
            Operation::ScheduleUpgrade,
            duration,
            now,
        );
        assert(events@ =~= before + old(self)@.schedule_upgrade(wasm_hash, now).1);
        Ok(scheduled)
    }

    /// The pending single-admin upgrade, if any.
    pub fn get_scheduled_upgrade(&self) -> (r: Option<ScheduledUpgrade>)
        ensures
            r == self@.scheduled_upgrade,
    {
        self.scheduled_upgrade
    }

    /// Whether `wasm_hash` matches the pending schedule and is executable at `now`.
    pub fn is_upgrade_ready(&self, wasm_hash: [u8; 32], now: u64) -> (r: bool)
        ensures
            r == self@.upgrade_ready(wasm_hash@, now),
    {
        match self.get_scheduled_upgrade() {
            None => false,
            Some(scheduled) => governance::hash_eq(&scheduled.wasm_hash, &wasm_hash) && now
                >= scheduled.executable_at,
        }
    }

    /// The pending schedule for `wasm_hash` if it is executable at `now`, or
    /// why it is not.
    pub fn require_scheduled_upgrade(&self, wasm_hash: &[u8; 32], now: u64) -> (r: Result<
        ScheduledUpgrade,
        Refusal,
    >)
        ensures
            r == self@.scheduled_check(wasm_hash@, now),
    {
        let scheduled = match self.scheduled_upgrade {
            None => {
                return Err(Refusal::NoScheduledUpgrade);
            },
            Some(s) => s,
        };
        if !governance::hash_eq(&scheduled.wasm_hash, wasm_hash) {
            return Err(Refusal::ScheduledUpgradeHashMismatch);
        }
        if now < scheduled.executable_at {
            return Err(Refusal::UpgradeTimelockNotElapsed);
        }
        Ok(scheduled)
    }

    /// Carries out the scheduled single-admin upgrade to `new_wasm_hash`: the
    /// current version is kept as the previous one and the schedule is
    /// consumed. Replacing the code itself is the host's part.
    pub fn upgrade(&mut self, new_wasm_hash: [u8; 32], now: u64, events: &mut Vec<ContractEvent>) -> (r:
        Result<(), Refusal>)
        requires
            old(self)@.wf(),
        ensures
            final(self)@.wf(),
            match r {
                Err(x) => old(self)@.upgrade_refusal(new_wasm_hash@, now) == Some(x) && final(self)@ == old(self)@ && final(events)@ == old(events)@,
                Ok(_) => old(self)@.upgrade_refusal(new_wasm_hash@, now) is None && final(self)@
                    == old(self)@.upgrade(now).0 && final(events)@ == old(events)@ + old(self)@.upgrade(now).1,
            },
    {
        let start = now;
        if self.admin.is_none() {
            return Err(Refusal::AdminNotSet);
        }
        let admin = self.admin_address();
        let scheduled = match self.require_scheduled_upgrade(&new_wasm_hash, now) {
            Err(x) => {
                return Err(x);
            },
            Ok(s) => s,
        };
        if !self.can_record(Operation::Upgrade) {
            return Err(Refusal::ArithmeticOverflow);
        }
        let current_version = self.version.unwrap_or(1);
        self.previous_version = Some(current_version);
        self.scheduled_upgrade = None;
        let ghost before = events@;
        events.push(
            ContractEvent::UpgradeExecutedAt(
                UpgradeExecutedEvent {
                    wasm_hash: scheduled.wasm_hash,
                    executed_at: now,
                    previous_version: current_version,
                },
            ),
        );
        events.push(
            ContractEvent::UpgradeExecuted(
                UpgradeExecuted {
                    version: EVENT_VERSION,
                    proposal_id: None,
                    wasm_hash: scheduled.wasm_hash,
                },
            ),
        );
        monitoring::track_operation(&mut self.metrics, events, Operation::Upgrade, admin, true, now);
        monitoring::track_upgrade_executed(&mut self.metrics, events, now);
        let duration = now.saturating_sub(start);
        monitoring::emit_performance(&mut self.metrics, events, Operation::Upgrade, duration, now);
        assert(events@ =~= before + old(self)@.upgrade(now).1);
        assert(self@.metrics =~= old(self)@.recorded_with(
            Operation::Upgrade,
            GovernanceCounter::UpgradesExecuted,
        ));
        Ok(())
    }


    // ==================================================================
    // Version management
    // ==================================================================

    /// The stored version number, 0 when none is stored.
    pub fn get_version(&self) -> (r: u32)
        ensures
            r == self@.version_or(0),
    {
        self.version.unwrap_or(0)
    }

    /// Short alias of `get_version`.
    pub fn get_ver(&self) -> (r: u32)
        ensures
            r == self@.version_or(0),
    {
        self.get_version()
    }

    /// The semantic version text of the stored version number.
    pub fn get_version_semver_string(&self) -> (r: &'static str)
        ensures
            r@ == spec_semver(self@.version_or(0)),
    {
        let raw = self.version.unwrap_or(0);
        if raw == 0 {
            "0.0.0"
        } else if raw == 1 || raw == 10000 {
            "1.0.0"
        } else if raw == 2 || raw == 20000 {
            "2.0.0"
        } else if raw == 10100 {
            "1.1.0"
        } else if raw == 10001 {
            "1.0.1"
        } else {
            "unknown"
        }
    }

    /// The stored version encoded as `major * 10_000 + minor * 100 + patch`;
    /// a plain major number is scaled by 10_000, saturating.
    pub fn get_version_numeric_encoded(&self) -> (r: u32)
        ensures
            r == self@.version_numeric_encoded(),
    {
        let raw = self.version.unwrap_or(0);
        if raw >= 10_000 {
            raw
        } else {
            raw.checked_mul(10_000).unwrap_or(u32::MAX)
        }
    }

    /// Refuses unless the encoded version is at least `min_numeric`.
    pub fn require_min_version(&self, min_numeric: u32) -> (r: Result<(), Refusal>)
        ensures
            r == if self@.version_numeric_encoded() < min_numeric {
                Err(Refusal::IncompatibleVersion)
            } else {
                Ok(())
            },
    {
        let cur = self.get_version_numeric_encoded();
        if cur < min_numeric {
            return Err(Refusal::IncompatibleVersion);
        }
        Ok(())
    }

    /// Records a new version number (metadata only).
    pub fn set_version(&mut self, new_version: u32, now: u64, events: &mut Vec<ContractEvent>) -> (r:
        Result<(), Refusal>)
        requires
            old(self)@.wf(),
        ensures
            final(self)@.wf(),
            match r {
                Err(x) => old(self)@.set_version_refusal() == Some(x) && final(self)@ == old(self)@
                    && final(events)@ == old(events)@,
                Ok(_) => old(self)@.set_version_refusal() is None && final(self)@ == old(
                    self)@.set_version(new_version, now).0 && final(events)@ == old(events)@ + old(
                    self)@.set_version(new_version, now).1,
            },
    {
        let start = now;
        if self.admin.is_none() {
            return Err(Refusal::AdminNotSet);
        }
        let admin = self.admin_address();
        if !self.can_record(Operation::SetVersion) {
            return Err(Refusal::ArithmeticOverflow);
        }
        let old_version = self.version.unwrap_or(1);
        self.version = Some(new_version);
        let ghost before = events@;
        events.push(
            ContractEvent::VersionChanged(
                VersionChanged {
                    version: EVENT_VERSION,
                    old_version,
                    new_version,
                    admin: admin.clone(),
                },
            ),
        );
        monitoring::track_operation(&mut self.metrics, events, Operation::SetVersion, admin, true, now);
        let duration = now.saturating_sub(start);
        monitoring::emit_performance(&mut self.metrics, events, Operation::SetVersion, duration, now);
        assert(events@ =~= before + old(self)@.set_version(new_version, now).1);
        Ok(())
    }

    // ==================================================================
    // Monitoring
    // ==================================================================

    /// Health report at ledger time `now`.
    pub fn health_check(&self, now: u64) -> (r: HealthStatus)
        ensures
            r.is_healthy,
            r.last_operation == now,
            r.total_operations == self@.metrics.operation_count,
            r.contract_version@ == "1.0.0"@,
    {
        monitoring::health_check(&self.metrics, now)
    }

    /// Usage analytics.
    pub fn get_analytics(&self) -> (r: Analytics)
        requires
            self@.wf(),
        ensures
            r.operation_count == self@.metrics.operation_count,
            r.unique_users == self@.metrics.user_count,
            r.error_count == self@.metrics.error_count,
            r.error_rate == self@.metrics.error_rate(),
            r.error_rate <= 10000,
            r.proposals_created == self@.metrics.proposals_created,
            r.votes_cast == self@.metrics.votes_cast,
            r.upgrades_executed == self@.metrics.upgrades_executed,
            r.migrations_run == self@.metrics.migrations_run,
    {
        monitoring::get_analytics(&self.metrics)
    }

    /// Snapshot of the counters at ledger time `now`.
    pub fn get_state_snapshot(&self, now: u64) -> (r: StateSnapshot)
        ensures
            r.timestamp == now,
            r.total_operations == self@.metrics.operation_count,
            r.total_users == self@.metrics.user_count,
            r.total_errors == self@.metrics.error_count,
            r.proposals_created == self@.metrics.proposals_created,
            r.votes_cast == self@.metrics.votes_cast,
            r.upgrades_executed == self@.metrics.upgrades_executed,
            r.migrations_run == self@.metrics.migrations_run,
    {
        monitoring::get_state_snapshot(&self.metrics, now)
    }

    /// Performance figures of the function named `function_name`.
    pub fn get_performance_stats(&self, function_name: String) -> (r: PerformanceStats)
        requires
            self@.wf(),
        ensures
            r.function_name == function_name,
            match monitoring::operation_spec(function_name@) {
                Some(op) => {
                    &&& r.call_count == self@.metrics.perf_calls[op.spec_index()]
                    &&& r.total_time == self@.metrics.perf_time[op.spec_index()]
                    &&& r.last_called == self@.metrics.perf_last[op.spec_index()]
                },
                None => r.call_count == 0 && r.total_time == 0 && r.last_called == 0,
            },
            r.avg_time == if r.call_count > 0 {
                r.total_time / r.call_count
            } else {
                0
            },
    {
        monitoring::get_performance_stats(&self.metrics, function_name)
    }

    // ==================================================================
    // State migration
    // ==================================================================

    /// Migrates the contract state from the current version to
    /// `target_version`, one version step at a time. A migration that
    /// already reached `target_version` is not repeated.
    pub fn migrate(
        &mut self,
        target_version: u32,
        migration_hash: [u8; 32],
        now: u64,
        events: &mut Vec<ContractEvent>,
    ) -> (r: Result<(), Refusal>)
        requires
            old(self)@.wf(),
        ensures
            final(self)@.wf(),
            match r {
                Err(x) => old(self)@.migrate_refusal(target_version) == Some(x) && final(self)@
                    == old(self)@ && final(events)@ == old(events)@,
                Ok(_) => old(self)@.migrate_refusal(target_version) is None && final(self)@ == old(
                    self)@.migrate(target_version, migration_hash, now).0 && final(events)@ == old(
                    events)@ + old(self)@.migrate(target_version, migration_hash, now).1,
            },
    {
        let start = now;
        if self.admin.is_none() {
            return Err(Refusal::AdminNotSet);
        }
        let admin = self.admin_address();
        let current_version = self.version.unwrap_or(1);
        match self.migration_state {
            Some(ms) => {
                if ms.to_version >= target_version {
                    assert(old(events)@ + Seq::<ContractEvent>::empty() =~= old(events)@);
                    return Ok(());
                }
            },
            None => {},
        }
        if target_version <= current_version {
            return Err(Refusal::TargetVersionNotGreater);
        }
        let mut from_version = current_version;
        while from_version < target_version
            invariant
                self@ == old(self)@,
                old(self)@.wf(),
                old(self)@.admin is Some,
                !old(self)@.migration_done(target_version),
                events@ == old(events)@,
                current_version <= from_version <= target_version,
                current_version == old(self)@.version_or(1),
                target_version > current_version,
                from_version > current_version ==> current_version >= 1 && from_version <= 3,
            decreases target_version - from_version,
        {
            let next_version = from_version + 1;
            if next_version == 2 {
                self.migrate_v1_to_v2();
            } else if next_version == 3 {
                self.migrate_v2_to_v3();
            } else {
                proof {
                    assert(current_version < 1 || target_version > 3);
                }
                return Err(Refusal::NoMigrationPath);
            }
            from_version = next_version;
        }
        if !self.can_record(Operation::Migrate) {
            return Err(Refusal::ArithmeticOverflow);
        }
        self.version = Some(target_version);
        self.migration_state = Some(
            MigrationState {
                from_version: current_version,
                to_version: target_version,
                migrated_at: now,
                migration_hash,
            },
        );
        let ghost before = events@;
        emit_migration_event(
            events,
            MigrationEvent {
                from_version: current_version,
                to_version: target_version,
                timestamp: now,
                migration_hash,
                success: true,
                error_message: None,
            },
        );
        monitoring::track_operation(&mut self.metrics, events, Operation::Migrate, admin, true, now);
        monitoring::track_migration_run(&mut self.metrics, events, now);
        let duration = now.saturating_sub(start);
        monitoring::emit_performance(&mut self.metrics, events, Operation::Migrate, duration, now);
        assert(events@ =~= before + old(self)@.migrate(target_version, migration_hash, now).1);
        assert(self@.metrics =~= old(self)@.recorded_with(
            Operation::Migrate,
            GovernanceCounter::MigrationsRun,
        ));
        Ok(())
    }

    /// The record of the last completed migration, if any.
    pub fn get_migration_state(&self) -> (r: Option<MigrationState>)
        ensures
            r == self@.migration_state,
    {
        self.migration_state
    }

    /// The version before the last upgrade, if any.
    pub fn get_previous_version(&self) -> (r: Option<u32>)
        ensures
            r == self@.previous_version,
    {
        self.previous_version
    }

    /// The data transformation from version 1 to version 2: there is nothing
    /// to transform.
    fn migrate_v1_to_v2(&mut self)
        ensures
            final(self)@ == old(self)@,
    {
    }

    /// The data transformation from version 2 to version 3: there is nothing
    /// to transform.
    fn migrate_v2_to_v3(&mut self)
        ensures
            final(self)@ == old(self)@,
    {
    }


    // ==================================================================
    // Storage
    // ==================================================================

    /// Rebuilds the storage from a record, or `None` when the record breaks
    /// the invariant.
    pub fn restore(record: ContractRecord) -> (r: Option<GrainlifyContract>)
        ensures
            r is Some <==> record.restorable(),
            r matches Some(c) ==> c@ == record.state() && c@.wf(),
    {
        let ghost state = record.state();
        let ghost listed = governance::spec_listed(record.proposals);
        match record.upgrade_delay {
            Some(d) => {
                if d < MIN_UPGRADE_DELAY_SECONDS {
                    return None;
                }
            },
            None => {},
        }
        match record.scheduled_upgrade {
            Some(s) => {
                if s.executable_at < s.scheduled_at.saturating_add(MIN_UPGRADE_DELAY_SECONDS) {
                    return None;
                }
            },
            None => {},
        }
        let metrics = match MetricsStore::restore(record.counters) {
            None => {
                return None;
            },
            Some(m) => m,
        };
        let governance = match GovernanceContract::restore(
            record.governance_config,
            record.proposal_count,
            record.proposals,
            record.votes,
        ) {
            None => {
                return None;
            },
            Some(g) => g,
        };
        let c = GrainlifyContract {
            admin: record.admin,
            version: record.version,
            migration_state: record.migration_state,
            previous_version: record.previous_version,
            upgrade_delay: record.upgrade_delay,
            scheduled_upgrade: record.scheduled_upgrade,
            governance,
            metrics,
        };
        assert(c@ =~= state);
        Some(c)
    }

    /// The stored admin address.
    pub fn admin(&self) -> (r: &Option<String>)
        ensures
            *r == self@.admin,
    {
        &self.admin
    }

    /// The stored version number, if one is stored.
    pub fn stored_version(&self) -> (r: Option<u32>)
        ensures
            r == self@.version,
    {
        self.version
    }

    /// The stored upgrade delay, if one is stored.
    pub fn stored_upgrade_delay(&self) -> (r: Option<u64>)
        ensures
            r == self@.upgrade_delay,
    {
        self.upgrade_delay
    }

    /// Read access to the counters.
    pub fn metrics(&self) -> (r: &MetricsStore)
        ensures
            r@ == self@.metrics,
    {
        &self.metrics
    }

}

/// Reports a migration twice: as a migration event and as a versioned
/// migration-completed event.
fn emit_migration_event(events: &mut Vec<ContractEvent>, event: MigrationEvent)
    ensures
        final(events)@ == old(events)@ + seq![
            ContractEvent::Migration(event),
            ContractEvent::MigrationCompleted(
                MigrationCompleted {
                    version: EVENT_VERSION,
                    from_version: event.from_version,
                    to_version: event.to_version,
                    timestamp: event.timestamp,
                    migration_hash: event.migration_hash,
                    success: event.success,
                    error_message: event.error_message,
                },
            ),
        ],
{
    let error_message = match &event.error_message {
        Some(m) => Some(m.clone()),
        None => None,
    };
    let completed = MigrationCompleted {
        version: EVENT_VERSION,
        from_version: event.from_version,
        to_version: event.to_version,
        timestamp: event.timestamp,
        migration_hash: event.migration_hash,
        success: event.success,
        error_message,
    };
    let ghost before = events@;
    events.push(ContractEvent::Migration(event));
    events.push(ContractEvent::MigrationCompleted(completed));
    assert(events@ =~= before + seq![
        ContractEvent::Migration(event),
        ContractEvent::MigrationCompleted(completed),
    ]);
}

} // verus!
