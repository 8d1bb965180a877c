//! Observational counters and metric events. Nothing here ever gates
//! control flow: the counters are written after the operation they record.

use crate::ContractEvent;
use vstd::prelude::*;

verus! {

/// The contract operations whose calls are recorded; `name` is the metric
/// symbol under which each is reported.
#[derive(Clone, Copy, Debug, PartialEq, Eq, Structural)]
pub enum Operation {
    Init,
    SetDelay,
    ScheduleUpgrade,
    Upgrade,
    SetVersion,
    Migrate,
}

/// Number of recorded operations.
pub const OPERATION_KINDS: usize = 6;

impl Operation {
    pub open spec fn spec_name(self) -> Seq<char> {
        match self {
            Operation::Init => "init"@,
            Operation::SetDelay => "set_delay"@,
            Operation::ScheduleUpgrade => "sched_upg"@,
            Operation::Upgrade => "upgrade"@,
            Operation::SetVersion => "set_ver"@,
            Operation::Migrate => "migrate"@,
        }
    }

    pub open spec fn spec_index(self) -> int {
        match self {
            Operation::Init => 0,
            Operation::SetDelay => 1,
            Operation::ScheduleUpgrade => 2,
            Operation::Upgrade => 3,
            Operation::SetVersion => 4,
            Operation::Migrate => 5,
        }
    }

    /// The metric symbol of the operation.
    pub fn name(&self) -> (r: &'static str)
        ensures
            r@ == self.spec_name(),
    {
        match self {
            Operation::Init => "init",
            Operation::SetDelay => "set_delay",
            Operation::ScheduleUpgrade => "sched_upg",
            Operation::Upgrade => "upgrade",
            Operation::SetVersion => "set_ver",
            Operation::Migrate => "migrate",
        }
    }

    /// Position of the operation in the performance tables.
    pub fn index(&self) -> (r: usize)
        ensures
            r == self.spec_index(),
            r < OPERATION_KINDS,
    {
        match self {
            Operation::Init => 0,
            Operation::SetDelay => 1,
            Operation::ScheduleUpgrade => 2,
            Operation::Upgrade => 3,
            Operation::SetVersion => 4,
            Operation::Migrate => 5,
        }
    }
}

/// The governance and upgrade activity counters.
#[derive(Clone, Copy, Debug, PartialEq, Eq, Structural)]
pub enum GovernanceCounter {
    ProposalsCreated,
    VotesCast,
    UpgradesExecuted,
    MigrationsRun,
}

impl GovernanceCounter {
    /// The metric symbol reported with the counter's events.
    pub open spec fn spec_metric(self) -> Seq<char> {
        match self {
            GovernanceCounter::ProposalsCreated => "proposal"@,
            GovernanceCounter::VotesCast => "vote"@,
            GovernanceCounter::UpgradesExecuted => "upgrade"@,
            GovernanceCounter::MigrationsRun => "migrate"@,
        }
    }

    /// The metric symbol reported with the counter's events.
    pub fn metric(&self) -> (r: &'static str)
        ensures
            r@ == self.spec_metric(),
    {
        match self {
            GovernanceCounter::ProposalsCreated => "proposal",
            GovernanceCounter::VotesCast => "vote",
            GovernanceCounter::UpgradesExecuted => "upgrade",
            GovernanceCounter::MigrationsRun => "migrate",
        }
    }
}

/// Event: an operation was performed.
#[derive(Clone, Debug)]
pub struct OperationMetric {
    pub operation: Operation,
    pub caller: String,
    pub timestamp: u64,
    pub success: bool,
}

/// Event: a governance or upgrade counter moved to `total`.
#[derive(Clone, Copy, Debug)]
pub struct GovernanceMetric {
    pub metric: GovernanceCounter,
    pub total: u64,
    pub timestamp: u64,
}

/// Event: the duration of one call of `function`.
#[derive(Clone, Copy, Debug)]
pub struct PerformanceMetric {
    pub function: Operation,
    pub duration: u64,
    pub timestamp: u64,
}

/// Health report.
#[derive(Clone, Debug)]
pub struct HealthStatus {
    pub is_healthy: bool,
    pub last_operation: u64,
    pub total_operations: u64,
    pub contract_version: String,
}

/// Usage analytics.
#[derive(Clone, Copy, Debug)]
pub struct Analytics {
    pub operation_count: u64,
    pub unique_users: u64,
    pub error_count: u64,
    /// Errors per operation, in basis points.
    pub error_rate: u32,
    pub proposals_created: u64,
    pub votes_cast: u64,
    pub upgrades_executed: u64,
    pub migrations_run: u64,
}

/// Snapshot of the counters.
#[derive(Clone, Copy, Debug)]
pub struct StateSnapshot {
    pub timestamp: u64,
    pub total_operations: u64,
    pub total_users: u64,
    pub total_errors: u64,
    pub proposals_created: u64,
    pub votes_cast: u64,
    pub upgrades_executed: u64,
    pub migrations_run: u64,
}

/// Per-function performance figures.
#[derive(Clone, Debug)]
pub struct PerformanceStats {
    pub function_name: String,
    pub call_count: u64,
    pub total_time: u64,
    pub avg_time: u64,
    pub last_called: u64,
}

/// `a + 1`, saturating at `u64::MAX`.
pub open spec fn sat_inc(a: u64) -> u64 {
    if a == u64::MAX {
        a
    } else {
        (a + 1) as u64
    }
}

/// Abstract state of the counters.
#[verifier::ext_equal]
pub struct MetricsState {
    pub operation_count: u64,
    pub user_count: u64,
    pub error_count: u64,
    pub proposals_created: u64,
    pub votes_cast: u64,
    pub upgrades_executed: u64,
    pub migrations_run: u64,
    /// Calls per operation, by `Operation::spec_index`.
    pub perf_calls: Seq<u64>,
    /// Accumulated duration per operation.
    pub perf_time: Seq<u64>,
    /// Last-call time per operation (nothing writes it).
    pub perf_last: Seq<u64>,
}

impl MetricsState {
    pub open spec fn empty() -> MetricsState {
        MetricsState {
            operation_count: 0,
            user_count: 0,
            error_count: 0,
            proposals_created: 0,
            votes_cast: 0,
            upgrades_executed: 0,
            migrations_run: 0,
            perf_calls: Seq::new(OPERATION_KINDS as nat, |i: int| 0u64),
            perf_time: Seq::new(OPERATION_KINDS as nat, |i: int| 0u64),
            perf_last: Seq::new(OPERATION_KINDS as nat, |i: int| 0u64),
        }
    }

    pub open spec fn wf(self) -> bool {
        &&& self.perf_calls.len() == OPERATION_KINDS
        &&& self.perf_time.len() == OPERATION_KINDS
        &&& self.perf_last.len() == OPERATION_KINDS
        &&& self.error_count <= self.operation_count
    }

    pub open spec fn counter(self, c: GovernanceCounter) -> u64 {
        match c {
            GovernanceCounter::ProposalsCreated => self.proposals_created,
            GovernanceCounter::VotesCast => self.votes_cast,
            GovernanceCounter::UpgradesExecuted => self.upgrades_executed,
            GovernanceCounter::MigrationsRun => self.migrations_run,
        }
    }

    /// The counter `c` moved up by one (saturating); the others untouched.
    pub open spec fn bump(self, c: GovernanceCounter) -> MetricsState {
        match c {
            GovernanceCounter::ProposalsCreated => MetricsState {
                proposals_created: sat_inc(self.proposals_created),
                ..self
            },
            GovernanceCounter::VotesCast => MetricsState { votes_cast: sat_inc(self.votes_cast), ..self },
            GovernanceCounter::UpgradesExecuted => MetricsState {
                upgrades_executed: sat_inc(self.upgrades_executed),
                ..self
            },
            GovernanceCounter::MigrationsRun => MetricsState {
                migrations_run: sat_inc(self.migrations_run),
                ..self
            },
        }
    }

    /// Whether recording one more operation overflows no counter.
    pub open spec fn can_track(self, success: bool) -> bool {
        &&& self.operation_count < u64::MAX
        &&& (!success ==> self.error_count < u64::MAX)
    }

    pub open spec fn after_operation(self, success: bool) -> MetricsState {
        MetricsState {
            operation_count: (self.operation_count + 1) as u64,
            error_count: if success {
                self.error_count
            } else {
                (self.error_count + 1) as u64
            },
            ..self
        }
    }

    /// Whether recording one more call of `op` lasting `duration` overflows nothing.
    pub open spec fn can_perform(self, op: Operation, duration: u64) -> bool {
        &&& self.perf_calls[op.spec_index()] < u64::MAX
        &&& self.perf_time[op.spec_index()] + duration <= u64::MAX
    }

    pub open spec fn performed(self, op: Operation, duration: u64) -> MetricsState {
        MetricsState {
            perf_calls: self.perf_calls.update(
                op.spec_index(),
                (self.perf_calls[op.spec_index()] + 1) as u64,
            ),
            perf_time: self.perf_time.update(
                op.spec_index(),
                (self.perf_time[op.spec_index()] + duration) as u64,
            ),
            ..self
        }
    }

    /// Errors per operation in basis points.
    pub open spec fn error_rate(self) -> u32 {
        if self.operation_count > 0 {
            ((self.error_count * 10000) / (self.operation_count as int)) as u32
        } else {
            0
        }
    }
}

/// The persistent counters.
pub struct MetricsStore {
    operation_count: u64,
    user_count: u64,
    error_count: u64,
    proposals_created: u64,
    votes_cast: u64,
    upgrades_executed: u64,
    migrations_run: u64,
    perf_calls: Vec<u64>,
    perf_time: Vec<u64>,
    perf_last: Vec<u64>,
}

impl View for MetricsStore {
    type V = MetricsState;

    closed spec fn view(&self) -> MetricsState {
        MetricsState {
            operation_count: self.operation_count,
            user_count: self.user_count,
            error_count: self.error_count,
            proposals_created: self.proposals_created,
            votes_cast: self.votes_cast,
            upgrades_executed: self.upgrades_executed,
            migrations_run: self.migrations_run,
            perf_calls: self.perf_calls@,
            perf_time: self.perf_time@,
            perf_last: self.perf_last@,
        }
    }
}

impl MetricsStore {
    /// All counters at zero.
    pub fn new() -> (s: MetricsStore)
        ensures
            s@ == MetricsState::empty(),
            s@.wf(),
    {
        let mut perf_calls: Vec<u64> = Vec::new();
        let mut perf_time: Vec<u64> = Vec::new();
        let mut perf_last: Vec<u64> = Vec::new();
        for i in 0..OPERATION_KINDS
            invariant
                perf_calls@.len() == i,
                perf_time@.len() == i,
                perf_last@.len() == i,
                forall|k: int| 0 <= k < i ==> perf_calls@[k] == 0,
                forall|k: int| 0 <= k < i ==> perf_time@[k] == 0,
                forall|k: int| 0 <= k < i ==> perf_last@[k] == 0,
        {
            perf_calls.push(0);
            perf_time.push(0);
            perf_last.push(0);
        }
        let s = MetricsStore {
            operation_count: 0,
            user_count: 0,
            error_count: 0,
            proposals_created: 0,
            votes_cast: 0,
            upgrades_executed: 0,
            migrations_run: 0,
            perf_calls,
            perf_time,
            perf_last,
        };
        assert(s@ =~= MetricsState::empty());
        s
    }
}


/// The counters as stored, one field per storage entry.
#[derive(Clone, Debug)]
pub struct CounterRecord {
    pub operation_count: u64,
    pub user_count: u64,
    pub error_count: u64,
    pub proposals_created: u64,
    pub votes_cast: u64,
    pub upgrades_executed: u64,
    pub migrations_run: u64,
    /// Calls per operation, by `Operation::index`.
    pub perf_calls: Vec<u64>,
    pub perf_time: Vec<u64>,
    pub perf_last: Vec<u64>,
}

impl CounterRecord {
    pub open spec fn state(self) -> MetricsState {
        MetricsState {
            operation_count: self.operation_count,
            user_count: self.user_count,
            error_count: self.error_count,
            proposals_created: self.proposals_created,
            votes_cast: self.votes_cast,
            upgrades_executed: self.upgrades_executed,
            migrations_run: self.migrations_run,
            perf_calls: self.perf_calls@,
            perf_time: self.perf_time@,
            perf_last: self.perf_last@,
        }
    }
}

impl MetricsStore {
    /// Rebuilds the counters from their stored values, or `None` when they
    /// break the invariant (a performance table of the wrong size, more
    /// errors than operations).
    pub fn restore(record: CounterRecord) -> (r: Option<MetricsStore>)
        ensures
            r is Some <==> record.state().wf(),
            r matches Some(m) ==> m@ == record.state(),
    {
        if record.perf_calls.len() != OPERATION_KINDS || record.perf_time.len() != OPERATION_KINDS
            || record.perf_last.len() != OPERATION_KINDS || record.error_count
            > record.operation_count {
            return None;
        }
        Some(
            MetricsStore {
                operation_count: record.operation_count,
                user_count: record.user_count,
                error_count: record.error_count,
                proposals_created: record.proposals_created,
                votes_cast: record.votes_cast,
                upgrades_executed: record.upgrades_executed,
                migrations_run: record.migrations_run,
                perf_calls: record.perf_calls,
                perf_time: record.perf_time,
                perf_last: record.perf_last,
            },
        )
    }

    /// The counters as stored.
    pub fn to_record(&self) -> (r: CounterRecord)
        ensures
            r.state() == self@,
    {
        CounterRecord {
            operation_count: self.operation_count,
            user_count: self.user_count,
            error_count: self.error_count,
            proposals_created: self.proposals_created,
            votes_cast: self.votes_cast,
            upgrades_executed: self.upgrades_executed,
            migrations_run: self.migrations_run,
            perf_calls: self.perf_calls.clone(),
            perf_time: self.perf_time.clone(),
            perf_last: self.perf_last.clone(),
        }
    }
}

/// Records one operation: the operation counter (and, on failure, the error
/// counter) move up by one and an operation event is appended.
pub fn track_operation(
    store: &mut MetricsStore,
    events: &mut Vec<ContractEvent>,
    operation: Operation,
    caller: String,
    success: bool,
    now: u64,
)
    requires
        old(store)@.wf(),
        old(store)@.can_track(success),
    ensures
        final(store)@.wf(),
        final(store)@ == old(store)@.after_operation(success),
        final(events)@ == old(events)@.push(
            ContractEvent::Operation(OperationMetric { operation, caller, timestamp: now, success }),
        ),
{
    store.operation_count = store.operation_count + 1;
    if !success {
        store.error_count = store.error_count + 1;
    }
    events.push(
        ContractEvent::Operation(OperationMetric { operation, caller, timestamp: now, success }),
    );
}

/// Whether recording one more operation overflows no counter.
pub fn can_track(store: &MetricsStore, success: bool) -> (r: bool)
    ensures
        r == store@.can_track(success),
{
    store.operation_count < u64::MAX && (success || store.error_count < u64::MAX)
}

/// Whether recording one more call of `function` lasting `duration`
/// overflows nothing.
pub fn can_perform(store: &MetricsStore, function: Operation, duration: u64) -> (r: bool)
    requires
        store@.wf(),
    ensures
        r == store@.can_perform(function, duration),
{
    let i = function.index();
    store.perf_calls[i] < u64::MAX && store.perf_time[i] <= u64::MAX - duration
}

/// Moves counter `counter` up by one, saturating, and returns the new total.
fn increment_counter(store: &mut MetricsStore, counter: GovernanceCounter) -> (r: u64)
    requires
        old(store)@.wf(),
    ensures
        final(store)@.wf(),
        final(store)@ == old(store)@.bump(counter),
        r == final(store)@.counter(counter),
{
    match counter {
        GovernanceCounter::ProposalsCreated => {
            store.proposals_created = store.proposals_created.saturating_add(1);
            store.proposals_created
        },
        GovernanceCounter::VotesCast => {
            store.votes_cast = store.votes_cast.saturating_add(1);
            store.votes_cast
        },
        GovernanceCounter::UpgradesExecuted => {
            store.upgrades_executed = store.upgrades_executed.saturating_add(1);
            store.upgrades_executed
        },
        GovernanceCounter::MigrationsRun => {
            store.migrations_run = store.migrations_run.saturating_add(1);
            store.migrations_run
        },
    }
}

/// Reads counter `counter`.
fn read_counter(store: &MetricsStore, counter: GovernanceCounter) -> (r: u64)
    ensures
        r == store@.counter(counter),
{
    match counter {
        GovernanceCounter::ProposalsCreated => store.proposals_created,
        GovernanceCounter::VotesCast => store.votes_cast,
        GovernanceCounter::UpgradesExecuted => store.upgrades_executed,
        GovernanceCounter::MigrationsRun => store.migrations_run,
    }
}

/// Appends a governance metric event.
fn emit_governance_metric(
    events: &mut Vec<ContractEvent>,
    metric: GovernanceCounter,
    total: u64,
    now: u64,
)
    ensures
        final(events)@ == old(events)@.push(
            ContractEvent::Governance(GovernanceMetric { metric, total, timestamp: now }),
        ),
{
    events.push(ContractEvent::Governance(GovernanceMetric { metric, total, timestamp: now }));
}

/// Moves counter `counter` up by one, reports it, and returns the new total.
fn track_counter(
    store: &mut MetricsStore,
    events: &mut Vec<ContractEvent>,
    counter: GovernanceCounter,
    now: u64,
) -> (r: u64)
    requires
        old(store)@.wf(),
    ensures
        final(store)@.wf(),
        final(store)@ == old(store)@.bump(counter),
        r == sat_inc(old(store)@.counter(counter)),
        final(events)@ == old(events)@.push(
            ContractEvent::Governance(GovernanceMetric { metric: counter, total: r, timestamp: now }),
        ),
{
    let total = increment_counter(store, counter);
    emit_governance_metric(events, counter, total, now);
    total
}

/// Records that a governance proposal was created; returns the running total.
pub fn track_proposal_created(store: &mut MetricsStore, events: &mut Vec<ContractEvent>, now: u64) -> (r: u64)
    requires
        old(store)@.wf(),
    ensures
        final(store)@.wf(),
        final(store)@ == old(store)@.bump(GovernanceCounter::ProposalsCreated),
        r == sat_inc(old(store)@.proposals_created),
        final(events)@ == old(events)@.push(
            ContractEvent::Governance(
                GovernanceMetric {
                    metric: GovernanceCounter::ProposalsCreated,
                    total: r,
                    timestamp: now,
                },
            ),
        ),
{
    track_counter(store, events, GovernanceCounter::ProposalsCreated, now)
}

/// Records that a governance vote was cast; returns the running total.
pub fn track_vote_cast(store: &mut MetricsStore, events: &mut Vec<ContractEvent>, now: u64) -> (r: u64)
    requires
        old(store)@.wf(),
    ensures
        final(store)@.wf(),
        final(store)@ == old(store)@.bump(GovernanceCounter::VotesCast),
        r == sat_inc(old(store)@.votes_cast),
        final(events)@ == old(events)@.push(
            ContractEvent::Governance(
                GovernanceMetric { metric: GovernanceCounter::VotesCast, total: r, timestamp: now },
            ),
        ),
{
    track_counter(store, events, GovernanceCounter::VotesCast, now)
}

/// Records that a contract upgrade was executed; returns the running total.
pub fn track_upgrade_executed(store: &mut MetricsStore, events: &mut Vec<ContractEvent>, now: u64) -> (r: u64)
    requires
        old(store)@.wf(),
    ensures
        final(store)@.wf(),
        final(store)@ == old(store)@.bump(GovernanceCounter::UpgradesExecuted),
        r == sat_inc(old(store)@.upgrades_executed),
        final(events)@ == old(events)@.push(
            ContractEvent::Governance(
                GovernanceMetric {
                    metric: GovernanceCounter::UpgradesExecuted,
                    total: r,
                    timestamp: now,
                },
            ),
        ),
{
    track_counter(store, events, GovernanceCounter::UpgradesExecuted, now)
}

/// Records that a state migration ran; returns the running total.
pub fn track_migration_run(store: &mut MetricsStore, events: &mut Vec<ContractEvent>, now: u64) -> (r: u64)
    requires
        old(store)@.wf(),
    ensures
        final(store)@.wf(),
        final(store)@ == old(store)@.bump(GovernanceCounter::MigrationsRun),
        r == sat_inc(old(store)@.migrations_run),
        final(events)@ == old(events)@.push(
            ContractEvent::Governance(
                GovernanceMetric {
                    metric: GovernanceCounter::MigrationsRun,
                    total: r,
                    timestamp: now,
                },
            ),
        ),
{
    track_counter(store, events, GovernanceCounter::MigrationsRun, now)
}

/// Records one call of `function` lasting `duration` and appends a
/// performance event.
pub fn emit_performance(
    store: &mut MetricsStore,
    events: &mut Vec<ContractEvent>,
    function: Operation,
    duration: u64,
    now: u64,
)
    requires
        old(store)@.wf(),
        old(store)@.can_perform(function, duration),
    ensures
        final(store)@.wf(),
        final(store)@ == old(store)@.performed(function, duration),
        final(events)@ == old(events)@.push(
            ContractEvent::Performance(PerformanceMetric { function, duration, timestamp: now }),
        ),
{
    let i = function.index();
    let count = store.perf_calls[i];
    let total = store.perf_time[i];
    store.perf_calls.set(i, count + 1);
    store.perf_time.set(i, total + duration);
    events.push(
        ContractEvent::Performance(PerformanceMetric { function, duration, timestamp: now }),
    );
}

/// Health report at ledger time `now`.
pub fn health_check(store: &MetricsStore, now: u64) -> (r: HealthStatus)
    ensures
        r.is_healthy,
        r.last_operation == now,
        r.total_operations == store@.operation_count,
        r.contract_version@ == "1.0.0"@,
{
    HealthStatus {
        is_healthy: true,
        last_operation: now,
        total_operations: store.operation_count,
        contract_version: "1.0.0".to_owned(),
    }
}

/// Usage analytics, with the error rate in basis points.
pub fn get_analytics(store: &MetricsStore) -> (r: Analytics)
    requires
        store@.wf(),
    ensures
        r.operation_count == store@.operation_count,
        r.unique_users == store@.user_count,
        r.error_count == store@.error_count,
        r.error_rate == store@.error_rate(),
        r.error_rate <= 10000,
        r.proposals_created == store@.proposals_created,
        r.votes_cast == store@.votes_cast,
        r.upgrades_executed == store@.upgrades_executed,
        r.migrations_run == store@.migrations_run,
{
    let ops = store.operation_count;
    let users = store.user_count;
    let errors = store.error_count;
    let error_rate: u32 = if ops > 0 {
        let rate = (errors as u128 * 10000) / ops as u128;
        proof {
            let e = errors as int;
            let o = ops as int;
            assert(rate == (e * 10000) / o);
            assert((e * 10000) / o <= 10000) by (nonlinear_arith)
                requires
                    0 <= e <= o,
                    o > 0,
            ;
        }
        rate as u32
    } else {
        0
    };
    Analytics {
        operation_count: ops,
        unique_users: users,
        error_count: errors,
        error_rate,
        proposals_created: read_counter(store, GovernanceCounter::ProposalsCreated),
        votes_cast: read_counter(store, GovernanceCounter::VotesCast),
        upgrades_executed: read_counter(store, GovernanceCounter::UpgradesExecuted),
        migrations_run: read_counter(store, GovernanceCounter::MigrationsRun),
    }
}

/// Snapshot of all counters at ledger time `now`.
pub fn get_state_snapshot(store: &MetricsStore, now: u64) -> (r: StateSnapshot)
    ensures
        r.timestamp == now,
        r.total_operations == store@.operation_count,
        r.total_users == store@.user_count,
        r.total_errors == store@.error_count,
        r.proposals_created == store@.proposals_created,
        r.votes_cast == store@.votes_cast,
        r.upgrades_executed == store@.upgrades_executed,
        r.migrations_run == store@.migrations_run,
{
    StateSnapshot {
        timestamp: now,
        total_operations: store.operation_count,
        total_users: store.user_count,
        total_errors: store.error_count,
        proposals_created: read_counter(store, GovernanceCounter::ProposalsCreated),
        votes_cast: read_counter(store, GovernanceCounter::VotesCast),
        upgrades_executed: read_counter(store, GovernanceCounter::UpgradesExecuted),
        migrations_run: read_counter(store, GovernanceCounter::MigrationsRun),
    }
}

/// The recorded operation whose metric symbol is `name`, if any.
pub fn operation_named(name: &String) -> (r: Option<Operation>)
    ensures
        r matches Some(op) ==> op.spec_name() == name@,
        r is None ==> forall|op: Operation| #[trigger] op.spec_name() != name@,
{
    let ops = [
        Operation::Init,
        Operation::SetDelay,
        Operation::ScheduleUpgrade,
        Operation::Upgrade,
        Operation::SetVersion,
        Operation::Migrate,
    ];
    let mut i: usize = 0;
    while i < OPERATION_KINDS
        invariant
            i <= OPERATION_KINDS,
            ops@ == seq![
                Operation::Init,
                Operation::SetDelay,
                Operation::ScheduleUpgrade,
                Operation::Upgrade,
                Operation::SetVersion,
                Operation::Migrate,
            ],
            forall|k: int| 0 <= k < i ==> #[trigger] ops@[k].spec_name() != name@,
        decreases OPERATION_KINDS - i,
    {
        let candidate = ops[i].name().to_owned();
        if candidate == *name {
            return Some(ops[i]);
        }
        i = i + 1;
    }
    assert forall|op: Operation| #[trigger] op.spec_name() != name@ by {
        assert(ops@[op.spec_index()] == op);
    }
    None
}

/// Performance figures of the function named `function_name`; all zero for a
/// name under which nothing was recorded.
pub fn get_performance_stats(store: &MetricsStore, function_name: String) -> (r: PerformanceStats)
    requires
        store@.wf(),
    ensures
        r.function_name == function_name,
        match operation_spec(function_name@) {
            Some(op) => {
                &&& r.call_count == store@.perf_calls[op.spec_index()]
                &&& r.total_time == store@.perf_time[op.spec_index()]
                &&& r.last_called == store@.perf_last[op.spec_index()]
            },
            None => r.call_count == 0 && r.total_time == 0 && r.last_called == 0,
        },
        r.avg_time == if r.call_count > 0 {
            r.total_time / r.call_count
        } else {
            0
        },
{
    let (count, total, last) = match operation_named(&function_name) {
        Some(op) => {
            let i = op.index();
            proof {
                lemma_operation_spec(op);
            }
            (store.perf_calls[i], store.perf_time[i], store.perf_last[i])
        },
        None => {
            proof {
                if operation_spec(function_name@) is Some {
                    let op = operation_spec(function_name@).unwrap();
                    assert(op.spec_name() != function_name@);
                }
            }
            (0, 0, 0)
        },
    };
    let avg = if count > 0 {
        total / count
    } else {
        0
    };
    PerformanceStats {
        function_name,
        call_count: count,
        total_time: total,
        avg_time: avg,
        last_called: last,
    }
}

/// The recorded operation whose metric symbol is `name`, if any.
pub open spec fn operation_spec(name: Seq<char>) -> Option<Operation> {
    if exists|op: Operation| #[trigger] op.spec_name() == name {
        Some(choose|op: Operation| #[trigger] op.spec_name() == name)
    } else {
        None
    }
}

/// Distinct operations have distinct metric symbols, so `operation_spec`
/// recovers an operation from its symbol.
pub proof fn lemma_operation_spec(op: Operation)
    ensures
        operation_spec(op.spec_name()) == Some(op),
{
    reveal_strlit("init");
    reveal_strlit("set_delay");
    reveal_strlit("sched_upg");
    reveal_strlit("upgrade");
    reveal_strlit("set_ver");
    reveal_strlit("migrate");
    let other = choose|o: Operation| #[trigger] o.spec_name() == op.spec_name();
    assert(other.spec_name() == op.spec_name());
    assert(other.spec_name().len() == op.spec_name().len());
    assert(other.spec_name()[0] == op.spec_name()[0]);
    assert(other.spec_name()[1] == op.spec_name()[1]);
    assert(other == op);
}

} // verus!
