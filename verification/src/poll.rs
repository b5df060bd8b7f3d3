//! The poll loop as a state machine: it decides, and its caller performs.
//!
//! The caller starts with [`PollLoop::new`], loads the configuration and
//! hands the outcome to [`PollLoop::step`]. From then on it performs each
//! [`Action`] that a step returns and answers with the [`Event`] that tells
//! how the action ended.

use crate::config::{lemma_normalized, Config, ConfigModel, ServiceModel};
use crate::report::{entry_models, entry_of, EntryModel, ReportEntry};
use crate::stamp::{stamp_at, RoundStamp, StampModel};
use crate::status::{check_result, check_service_status, Invocation, StatusResult};
use vstd::prelude::*;

verus! {

/// What the caller reports back to the loop.
#[derive(Debug, PartialEq, Eq)]
pub enum Event {
    /// The configuration was loaded.
    Loaded(Config),
    /// The configuration could not be read or describes none.
    LoadFailed,
    /// The clock was read: seconds since the Unix epoch.
    Clock(u64),
    /// The service-control command was invoked for the service asked for.
    Invoked(Invocation),
    /// The failure was appended to the error log.
    Logged,
    /// The error log could not be opened or written.
    LogFailed,
    /// The report was emitted.
    Reported,
    /// The pause is over.
    Woke,
}

/// Why the loop ends. Nothing else ends it: a check that fails is
/// reported and logged, and the round goes on.
#[derive(Clone, Copy, Debug, PartialEq, Eq, Structural)]
pub enum Fatal {
    /// No configuration could be loaded.
    ConfigLoad,
    /// A failure could not be recorded in the error log.
    LogWrite,
}

/// What the loop asks its caller to do next.
#[derive(Debug, PartialEq, Eq)]
pub enum Action {
    /// Read the clock and answer with `Event::Clock`.
    ReadClock,
    /// Ask the service-control command for the status of `service` and
    /// answer with `Event::Invoked`; with `trace`, show the invocation and
    /// what it gave on the diagnostic output.
    Invoke { service: String, trace: bool },
    /// Relay `diagnostics` to the diagnostic output, with `trace` show
    /// `message` there too, then append a record of `message` and `datetime`
    /// to the error log at `path` and answer with `Event::Logged`, or with
    /// `Event::LogFailed` where the log cannot be written.
    AppendLog { path: String, datetime: String, message: String, diagnostics: Vec<u8>, trace: bool },
    /// Emit the report of the round and answer with `Event::Reported`.
    Emit { entries: Vec<ReportEntry> },
    /// Pause for `seconds` and answer with `Event::Woke`.
    Sleep { seconds: u64 },
    /// Report why the loop ends, and end the process.
    Halt { reason: Fatal },
}

/// An `Action` as a mathematical value.
pub enum ActionModel {
    ReadClock,
    Invoke { service: Seq<char>, trace: bool },
    AppendLog {
        path: Seq<char>,
        datetime: Seq<char>,
        message: Seq<char>,
        diagnostics: Seq<u8>,
        trace: bool,
    },
    Emit { entries: Seq<EntryModel> },
    Sleep { seconds: u64 },
    Halt { reason: Fatal },
}

impl View for Action {
    type V = ActionModel;

    open spec fn view(&self) -> ActionModel {
        match self {
            Action::ReadClock => ActionModel::ReadClock,
            Action::Invoke { service, trace } => ActionModel::Invoke {
                service: service@,
                trace: *trace,
            },
            Action::AppendLog { path, datetime, message, diagnostics, trace } => {
                ActionModel::AppendLog {
                    path: path@,
                    datetime: datetime@,
                    message: message@,
                    diagnostics: diagnostics@,
                    trace: *trace,
                }
            },
            Action::Emit { entries } => ActionModel::Emit { entries: entry_models(entries@) },
            Action::Sleep { seconds } => ActionModel::Sleep { seconds: *seconds },
            Action::Halt { reason } => ActionModel::Halt { reason: *reason },
        }
    }
}

/// The action of a step, where it has one, as a mathematical value.
pub open spec fn action_view(action: Option<Action>) -> Option<ActionModel> {
    match action {
        Some(a) => Some(a@),
        None => None,
    }
}

/// Where the poll loop stands.
#[derive(Clone, Copy, Debug, PartialEq, Eq, Structural)]
pub enum Phase {
    /// The configuration is being loaded.
    Bootstrapping,
    /// A round is about to start: the clock is being read.
    Polling,
    /// A service is being checked.
    Checking,
    /// A failure is being logged.
    Logging,
    /// The round's report is being emitted.
    Reporting,
    /// The loop pauses between two rounds.
    Sleeping,
    /// The loop has ended.
    Halted,
}

/// The state of the poll loop as a mathematical value.
pub enum LoopModel {
    /// The configuration is being loaded.
    Bootstrapping,
    /// A round is about to start: the clock is being read.
    Polling { config: ConfigModel },
    /// The service that follows the ones in `entries` is being checked.
    Checking { config: ConfigModel, stamp: StampModel, entries: Seq<EntryModel> },
    /// The failure of the last service in `entries` is being logged.
    Logging { config: ConfigModel, stamp: StampModel, entries: Seq<EntryModel> },
    /// The round's report is being emitted.
    Reporting { config: ConfigModel },
    /// The loop pauses between two rounds.
    Sleeping { config: ConfigModel },
    /// The loop has ended.
    Halted,
}

/// The entries are those of the first services of the configuration, in
/// order, and all carry the round's stamp.
pub open spec fn round_prefix(config: ConfigModel, stamp: StampModel, entries: Seq<EntryModel>)
    -> bool {
    &&& entries.len() <= config.services.len()
    &&& forall|k: int|
        0 <= k < entries.len() ==> {
            &&& (#[trigger] entries[k]).service == config.services[k].name
            &&& entries[k].timestamp == stamp.timestamp
            &&& entries[k].datetime == stamp.datetime
        }
}

/// What the command wrote to its standard error, where it ran.
pub open spec fn diagnostics_of(invocation: Invocation) -> Seq<u8> {
    match invocation {
        Invocation::NotStarted => Seq::empty(),
        Invocation::Finished { success, stdout, stderr } => stderr@,
    }
}

/// Where a round goes on once `entries` are complete: to the check of the
/// next service, or, after the last one, to the report.
pub open spec fn proceed(config: ConfigModel, stamp: StampModel, entries: Seq<EntryModel>) -> (
    LoopModel,
    Option<ActionModel>,
) {
    if entries.len() < config.services.len() {
        (
            LoopModel::Checking { config, stamp, entries },
            Some(
                ActionModel::Invoke {
                    service: config.services[entries.len() as int].name,
                    trace: config.debug,
                },
            ),
        )
    } else {
        (LoopModel::Reporting { config }, Some(ActionModel::Emit { entries }))
    }
}

/// What a check's outcome does to a round: a status is entered in the
/// report and the round goes on; a failure is entered as `Error` and is
/// logged before the round goes on.
pub open spec fn record(
    config: ConfigModel,
    stamp: StampModel,
    entries: Seq<EntryModel>,
    invocation: Invocation,
) -> (LoopModel, Option<ActionModel>) {
    let service = config.services[entries.len() as int];
    match check_result(service, invocation) {
        Ok(status) => proceed(config, stamp, entries.push(entry_of(service.name, status, stamp))),
        Err(e) => (
            LoopModel::Logging {
                config,
                stamp,
                entries: entries.push(entry_of(service.name, StatusResult::Error, stamp)),
            },
            Some(
                ActionModel::AppendLog {
                    path: config.log_file,
                    datetime: stamp.datetime,
                    message: e.message(),
                    diagnostics: diagnostics_of(invocation),
                    trace: config.debug,
                },
            ),
        ),
    }
}

impl LoopModel {
    /// The states that the loop can reach.
    pub open spec fn well_formed(self) -> bool {
        match self {
            LoopModel::Bootstrapping => true,
            LoopModel::Polling { config } => config.well_formed(),
            LoopModel::Checking { config, stamp, entries } => {
                &&& config.well_formed()
                &&& round_prefix(config, stamp, entries)
                &&& entries.len() < config.services.len()
            },
            LoopModel::Logging { config, stamp, entries } => {
                &&& config.well_formed()
                &&& round_prefix(config, stamp, entries)
                &&& entries.len() > 0
                &&& entries.last().status == StatusResult::Error
            },
            LoopModel::Reporting { config } => config.well_formed(),
            LoopModel::Sleeping { config } => config.well_formed(),
            LoopModel::Halted => true,
        }
    }

    /// Where the loop stands.
    pub open spec fn phase(self) -> Phase {
        match self {
            LoopModel::Bootstrapping => Phase::Bootstrapping,
            LoopModel::Polling { config } => Phase::Polling,
            LoopModel::Checking { config, stamp, entries } => Phase::Checking,
            LoopModel::Logging { config, stamp, entries } => Phase::Logging,
            LoopModel::Reporting { config } => Phase::Reporting,
            LoopModel::Sleeping { config } => Phase::Sleeping,
            LoopModel::Halted => Phase::Halted,
        }
    }

    /// The configuration that the loop runs on, once it is loaded.
    pub open spec fn config(self) -> Option<ConfigModel> {
        match self {
            LoopModel::Bootstrapping => None,
            LoopModel::Polling { config } => Some(config),
            LoopModel::Checking { config, stamp, entries } => Some(config),
            LoopModel::Logging { config, stamp, entries } => Some(config),
            LoopModel::Reporting { config } => Some(config),
            LoopModel::Sleeping { config } => Some(config),
            LoopModel::Halted => None,
        }
    }

    /// One step of the loop: the state that follows, and what to do next.
    /// An event that the state does not wait for, and a clock reading that
    /// the calendar cannot date, change nothing and ask for nothing.
    pub open spec fn step(self, event: Event) -> (LoopModel, Option<ActionModel>) {
        match (self, event) {
            (LoopModel::Bootstrapping, Event::Loaded(config)) => (
                LoopModel::Polling { config: config@.normalized() },
                Some(ActionModel::ReadClock),
            ),
            (LoopModel::Bootstrapping, Event::LoadFailed) => (
                LoopModel::Halted,
                Some(ActionModel::Halt { reason: Fatal::ConfigLoad }),
            ),
            (LoopModel::Polling { config }, Event::Clock(timestamp)) => match stamp_at(
                timestamp,
            ) {
                Some(stamp) => proceed(config, stamp, Seq::empty()),
                None => (self, None),
            },
            (LoopModel::Checking { config, stamp, entries }, Event::Invoked(invocation)) => {
                if entries.len() < config.services.len() {
                    record(config, stamp, entries, invocation)
                } else {
                    (self, None)
                }
            },
            (LoopModel::Logging { config, stamp, entries }, Event::Logged) => proceed(
                config,
                stamp,
                entries,
            ),
            (LoopModel::Logging { config, stamp, entries }, Event::LogFailed) => (
                LoopModel::Halted,
                Some(ActionModel::Halt { reason: Fatal::LogWrite }),
            ),
            (LoopModel::Reporting { config }, Event::Reported) => (
                LoopModel::Sleeping { config },
                Some(ActionModel::Sleep { seconds: config.sleep }),
            ),
            (LoopModel::Sleeping { config }, Event::Woke) => (
                LoopModel::Polling { config },
                Some(ActionModel::ReadClock),
            ),
            _ => (self, None),
        }
    }
}

/// A step leads from a reachable state to a reachable state.
pub proof fn lemma_step_keeps_well_formed(state: LoopModel, event: Event)
    requires
        state.well_formed(),
    ensures
        state.step(event).0.well_formed(),
{
    match event {
        Event::Loaded(config) => lemma_normalized(config@),
        _ => {},
    }
}

/// The loop ends only where the configuration cannot be loaded or the error
/// log cannot be written: no outcome of a check ends it. And as long as it
/// runs, its configuration stays as it was loaded.
pub proof fn lemma_only_load_and_log_failures_halt(state: LoopModel, event: Event)
    ensures
        state.step(event).0 is Halted <==> {
            ||| state is Halted
            ||| state is Bootstrapping && event is LoadFailed
            ||| state is Logging && event is LogFailed
        },
        state.config() is Some && !(state.step(event).0 is Halted) ==> state.step(event).0.config()
            == state.config(),
{
}

/// Every report that is emitted holds one entry for each configured
/// service, in the order of the configuration, whatever the checks gave;
/// and all its entries carry one timestamp and one date.
pub proof fn lemma_report_follows_services(state: LoopModel, event: Event)
    requires
        state.well_formed(),
        state.step(event).1 is Some,
        state.step(event).1->0 is Emit,
    ensures
        state.config() is Some,
        ({
            let services = state.config()->0.services;
            let entries = state.step(event).1->0->entries;
            &&& entries.len() == services.len()
            &&& forall|k: int|
                0 <= k < entries.len() ==> (#[trigger] entries[k]).service == services[k].name
            &&& forall|j: int, k: int|
                0 <= j < entries.len() && 0 <= k < entries.len() ==> (#[trigger] entries[j]).timestamp
                    == (#[trigger] entries[k]).timestamp && entries[j].datetime
                    == entries[k].datetime
        }),
{
}

/// The loop asks for a record in the error log exactly when a check fails,
/// and then with the message of that failure, the date of the round and the
/// configured path; the entry of the failed service has the status `Error`.
pub proof fn lemma_failures_are_logged(state: LoopModel, event: Event)
    requires
        state.well_formed(),
    ensures
        ({
            let next = state.step(event);
            let failed = state is Checking && event is Invoked && check_result(
                state->Checking_config.services[state->Checking_entries.len() as int],
                event->Invoked_0,
            ) is Err;
            &&& (next.1 is Some && next.1->0 is AppendLog) <==> failed
            &&& failed ==> {
                let config = state->Checking_config;
                let service = config.services[state->Checking_entries.len() as int];
                &&& next.0 is Logging
                &&& next.1->0->message == check_result(service, event->Invoked_0)->Err_0.message()
                &&& next.1->0->datetime == state->Checking_stamp.datetime
                &&& next.1->0->path == config.log_file
                &&& next.1->0->AppendLog_trace == config.debug
                &&& next.0->Logging_entries.last() == entry_of(
                    service.name,
                    StatusResult::Error,
                    state->Checking_stamp,
                )
            }
        }),
{
}

/// The status that a round reports for a service, given what became of its
/// invocation: what the check found, or `Error` where the check failed.
pub open spec fn reported_status(service: ServiceModel, invocation: Invocation)
    -> StatusResult {
    match check_result(service, invocation) {
        Ok(status) => status,
        Err(e) => StatusResult::Error,
    }
}

/// The report of a round in which the invocation for the `k`-th service
/// ended as `outcomes[k]`.
pub open spec fn round_report(
    config: ConfigModel,
    stamp: StampModel,
    outcomes: Seq<Invocation>,
) -> Seq<EntryModel> {
    Seq::new(
        config.services.len(),
        |k: int|
            entry_of(
                config.services[k].name,
                reported_status(config.services[k], outcomes[k]),
                stamp,
            ),
    )
}

/// A round driven on from `now`: each outcome is handed to the loop in
/// turn, and each request to log a failure is answered as done.
pub open spec fn run_checks(now: (LoopModel, Option<ActionModel>), outcomes: Seq<Invocation>) -> (
    LoopModel,
    Option<ActionModel>,
)
    decreases outcomes.len(),
{
    if outcomes.len() == 0 {
        now
    } else {
        let checked = now.0.step(Event::Invoked(outcomes.first()));
        let settled = if checked.0 is Logging {
            checked.0.step(Event::Logged)
        } else {
            checked
        };
        run_checks(settled, outcomes.drop_first())
    }
}

proof fn lemma_run_checks_from(
    config: ConfigModel,
    stamp: StampModel,
    outcomes: Seq<Invocation>,
    k: int,
)
    requires
        outcomes.len() == config.services.len(),
        0 <= k <= outcomes.len(),
    ensures
        run_checks(
            proceed(config, stamp, round_report(config, stamp, outcomes).take(k)),
            outcomes.skip(k),
        ) == (
            LoopModel::Reporting { config },
            Some(ActionModel::Emit { entries: round_report(config, stamp, outcomes) }),
        ),
    decreases outcomes.len() - k,
{
    let full = round_report(config, stamp, outcomes);
    let entries = full.take(k);
    if k == outcomes.len() {
        assert(entries =~= full);
    } else {
        let rest = outcomes.skip(k);
        assert(rest.first() == outcomes[k]);
        assert(rest.drop_first() =~= outcomes.skip(k + 1));
        assert(full.take(k + 1) =~= entries.push(full[k]));
        lemma_run_checks_from(config, stamp, outcomes, k + 1);
    }
}

/// A whole round: once the clock is read, and each service's invocation has
/// ended in some way, the loop emits the report that lists every service in
/// the configured order, each with the status that its own check gave, and
/// all under the stamp of the round.
pub proof fn lemma_round_reports_every_check(
    config: ConfigModel,
    timestamp: u64,
    outcomes: Seq<Invocation>,
)
    requires
        stamp_at(timestamp) is Some,
        outcomes.len() == config.services.len(),
    ensures
        run_checks((LoopModel::Polling { config }).step(Event::Clock(timestamp)), outcomes) == (
            LoopModel::Reporting { config },
            Some(
                ActionModel::Emit {
                    entries: round_report(config, stamp_at(timestamp)->0, outcomes),
                },
            ),
        ),
{
    let stamp = stamp_at(timestamp)->0;
    assert(round_report(config, stamp, outcomes).take(0) =~= Seq::<EntryModel>::empty());
    assert(outcomes.skip(0) =~= outcomes);
    lemma_run_checks_from(config, stamp, outcomes, 0);
}

#[derive(Debug)]
enum State {
    Bootstrapping,
    Polling { config: Config },
    Checking { config: Config, stamp: RoundStamp, entries: Vec<ReportEntry> },
    Logging { config: Config, stamp: RoundStamp, entries: Vec<ReportEntry> },
    Reporting { config: Config },
    Sleeping { config: Config },
    Halted,
}

impl View for State {
    type V = LoopModel;

    closed spec fn view(&self) -> LoopModel {
        match self {
            State::Bootstrapping => LoopModel::Bootstrapping,
            State::Polling { config } => LoopModel::Polling { config: config@ },
            State::Checking { config, stamp, entries } => LoopModel::Checking {
                config: config@,
                stamp: stamp@,
                entries: entry_models(entries@),
            },
            State::Logging { config, stamp, entries } => LoopModel::Logging {
                config: config@,
                stamp: stamp@,
                entries: entry_models(entries@),
            },
            State::Reporting { config } => LoopModel::Reporting { config: config@ },
            State::Sleeping { config } => LoopModel::Sleeping { config: config@ },
            State::Halted => LoopModel::Halted,
        }
    }
}

/// The poll loop. It holds the configuration once that is loaded, and the
/// entries of the round that is under way.
#[derive(Debug)]
pub struct PollLoop {
    state: State,
}

impl View for PollLoop {
    type V = LoopModel;

    closed spec fn view(&self) -> LoopModel {
        self.state@
    }
}

fn proceed_round(config: Config, stamp: RoundStamp, entries: Vec<ReportEntry>) -> (r: (
    PollLoop,
    Option<Action>,
))
    requires
        config@.well_formed(),
        round_prefix(config@, stamp@, entry_models(entries@)),
    ensures
        (r.0@, action_view(r.1)) == proceed(config@, stamp@, entry_models(entries@)),
        r.0@.well_formed(),
{
    if entries.len() < config.services.len() {
        let service = config.services[entries.len()].name.clone();
        let trace = config.debug;
        (
            PollLoop { state: State::Checking { config, stamp, entries } },
            Some(Action::Invoke { service, trace }),
        )
    } else {
        (PollLoop { state: State::Reporting { config } }, Some(Action::Emit { entries }))
    }
}

impl PollLoop {
    #[verifier::type_invariant]
    spec fn reachable(self) -> bool {
        self.state@.well_formed()
    }

    /// The loop before anything has happened: the configuration is to be
    /// loaded, and its outcome handed to `step`.
    pub fn new() -> (r: PollLoop)
        ensures
            r@ == LoopModel::Bootstrapping,
    {
        PollLoop { state: State::Bootstrapping }
    }

    /// Where the loop stands.
    pub fn phase(&self) -> (r: Phase)
        ensures
            r == self@.phase(),
    {
        match &self.state {
            State::Bootstrapping => Phase::Bootstrapping,
            State::Polling { .. } => Phase::Polling,
            State::Checking { .. } => Phase::Checking,
            State::Logging { .. } => Phase::Logging,
            State::Reporting { .. } => Phase::Reporting,
            State::Sleeping { .. } => Phase::Sleeping,
            State::Halted => Phase::Halted,
        }
    }

    /// The configuration that the loop runs on, once it is loaded: it is in
    /// normal form.
    pub fn config(&self) -> (r: Option<&Config>)
        ensures
            match r {
                Some(config) => self@.config() == Some(config@) && config@.well_formed(),
                None => self@.config() is None,
            },
    {
        proof {
            use_type_invariant(self);
        }
        match &self.state {
            State::Bootstrapping => None,
            State::Polling { config } => Some(config),
            State::Checking { config, .. } => Some(config),
            State::Logging { config, .. } => Some(config),
            State::Reporting { config } => Some(config),
            State::Sleeping { config } => Some(config),
            State::Halted => None,
        }
    }

    /// Takes the loop one step further on `event`: gives the state that
    /// follows and what the caller is to do next. `None` says that the
    /// event was not the one waited for, or that the clock's reading has no
    /// date: the loop then stands where it stood.
    pub fn step(self, event: Event) -> (r: (PollLoop, Option<Action>))
        ensures
            (r.0@, action_view(r.1)) == self@.step(event),
            self@.well_formed(),
            r.0@.well_formed(),
    {
        proof {
            use_type_invariant(&self);
            lemma_step_keeps_well_formed(self@, event);
        }
        match self.state {
            State::Bootstrapping => match event {
                Event::Loaded(config) => (
                    PollLoop { state: State::Polling { config: config.normalize() } },
                    Some(Action::ReadClock),
                ),
                Event::LoadFailed => (
                    PollLoop { state: State::Halted },
                    Some(Action::Halt { reason: Fatal::ConfigLoad }),
                ),
                _ => (PollLoop { state: State::Bootstrapping }, None),
            },
            State::Polling { config } => match event {
                Event::Clock(timestamp) => match RoundStamp::at(timestamp) {
                    Some(stamp) => {
                        let entries: Vec<ReportEntry> = Vec::new();
                        assert(entry_models(entries@) =~= Seq::<EntryModel>::empty());
                        proceed_round(config, stamp, entries)
                    },
                    None => (PollLoop { state: State::Polling { config } }, None),
                },
                _ => (PollLoop { state: State::Polling { config } }, None),
            },
            State::Checking { config, stamp, entries } => match event {
                Event::Invoked(invocation) => {
                    let mut entries = entries;
                    let ghost before = entry_models(entries@);
                    let service = &config.services[entries.len()];
                    assert(service@ == config@.services[before.len() as int]);
                    match check_service_status(service, &invocation) {
                        Ok(status) => {
                            let entry = ReportEntry::new(service.name.as_str(), status, &stamp);
                            entries.push(entry);
                            assert(entry_models(entries@) =~= before.push(entry@));
                            proceed_round(config, stamp, entries)
                        },
                        Err(e) => {
                            let entry = ReportEntry::new(
                                service.name.as_str(),
                                StatusResult::Error,
                                &stamp,
                            );
                            entries.push(entry);
                            assert(entry_models(entries@) =~= before.push(entry@));
                            let action = Action::AppendLog {
                                path: config.log_file.clone(),
                                datetime: stamp.datetime.clone(),
                                message: e.message(),
                                diagnostics: match invocation {
                                    Invocation::NotStarted => Vec::new(),
                                    Invocation::Finished { success, stdout, stderr } => stderr,
                                },
                                trace: config.debug,
                            };
                            (
                                PollLoop { state: State::Logging { config, stamp, entries } },
                                Some(action),
                            )
                        },
                    }
                },
                _ => (PollLoop { state: State::Checking { config, stamp, entries } }, None),
            },
            State::Logging { config, stamp, entries } => match event {
                Event::Logged => proceed_round(config, stamp, entries),
                Event::LogFailed => (
                    PollLoop { state: State::Halted },
                    Some(Action::Halt { reason: Fatal::LogWrite }),
                ),
                _ => (PollLoop { state: State::Logging { config, stamp, entries } }, None),
            },
            State::Reporting { config } => match event {
                Event::Reported => {
                    let seconds = config.sleep;
                    (PollLoop { state: State::Sleeping { config } }, Some(Action::Sleep { seconds }))
                },
                _ => (PollLoop { state: State::Reporting { config } }, None),
            },
            State::Sleeping { config } => match event {
                Event::Woke => (
                    PollLoop { state: State::Polling { config } },
                    Some(Action::ReadClock),
                ),
                _ => (PollLoop { state: State::Sleeping { config } }, None),
            },
            State::Halted => (PollLoop { state: State::Halted }, None),
        }
    }
}

} // verus!
