//! The reconciler: a state machine that walks the configured records in
//! order, asks its caller for one call to the provider at a time, and settles
//! each record with a terminal status.
//!
//! The machine makes no call itself. A caller runs it like this: take a
//! [`Reconciler`], call [`Reconciler::step`] with no outcome, report what the
//! step settled, make the call it asks for, if any, and hand the outcome to
//! the next step, until [`Reconciler::is_finished`].

use crate::address::{desired_value, AddressSet, AddressSetView};
use crate::config::{Config, DomainView, Record, RecordView};
use crate::outcome::{FatalCause, Outcome, Report, ReportView, SkipReason};
use crate::remote::{
    classify_fetch, differs, fetch_state, GandiRecord, GandiRecordView, HttpOutcome,
    HttpOutcomeView, RemoteState, RemoteStateView,
};
use crate::request::{
    authorization, authorization_of, endpoint, endpoint_of, Call, Request, RequestView,
};
use vstd::prelude::*;

verus! {

/// The path that a record takes once its fetch is known.
#[derive(Debug, Clone, Copy, PartialEq, Eq, Structural)]
pub enum TakinaState {
    /// The record does not exist remotely: it is created.
    CreateRecord,
    /// The record exists remotely: it is compared and, where it differs,
    /// updated.
    DiffRecord,
}

/// Where the reconciler stands with the record under its cursor.
#[derive(Debug, Clone, Copy, PartialEq, Eq, Structural)]
pub enum State {
    /// Nothing has been done about the record yet.
    Ready,
    /// The fetch was asked for; its outcome is awaited.
    Fetching,
    /// The create or the update was asked for; its outcome is awaited.
    Writing(TakinaState),
    /// The domain was given up: the record is skipped without a call.
    Aborted(FatalCause),
}

/// What a [`Decision`] holds, as mathematical values.
pub enum DecisionView {
    Skip(SkipReason),
    Create(Seq<Seq<char>>, u32),
    Update(Seq<Seq<char>>, u32),
    NoChangeNeeded,
}

/// What to do about a record once its remote state is known. `Create` and
/// `Update` carry the values and the time to live to send.
#[derive(Debug, Clone, PartialEq, Eq)]
pub enum Decision {
    Skip(SkipReason),
    Create(Vec<String>, u32),
    Update(Vec<String>, u32),
    NoChangeNeeded,
}

impl View for Decision {
    type V = DecisionView;

    open spec fn view(&self) -> DecisionView {
        match self {
            Decision::Skip(reason) => DecisionView::Skip(*reason),
            Decision::Create(values, ttl) => DecisionView::Create(values.deep_view(), *ttl),
            Decision::Update(values, ttl) => DecisionView::Update(values.deep_view(), *ttl),
            Decision::NoChangeNeeded => DecisionView::NoChangeNeeded,
        }
    }
}

/// The decision for a record whose desired value is `address`, given the
/// remote state that its fetch showed.
///
/// A record that is not there is created and one that differs is updated,
/// both with the one value `address` and the record's own time to live. A
/// record that holds just that needs no change. A fatal answer gives the
/// domain up; every other answer skips the record.
pub open spec fn decision(
    record: RecordView,
    address: Seq<char>,
    remote: RemoteStateView,
) -> DecisionView {
    match remote {
        RemoteStateView::NotFound => DecisionView::Create(seq![address], record.ttl),
        RemoteStateView::Found(found) => if differs(found, seq![address], record.ttl) {
            DecisionView::Update(seq![address], record.ttl)
        } else {
            DecisionView::NoChangeNeeded
        },
        RemoteStateView::Fatal(cause) => DecisionView::Skip(SkipReason::DomainAborted(cause)),
        RemoteStateView::Unexpected(status, _) => DecisionView::Skip(
            SkipReason::UnexpectedStatus(status),
        ),
        RemoteStateView::TransportFailure(_) => DecisionView::Skip(SkipReason::TransportFailure),
        RemoteStateView::Malformed(_) => DecisionView::Skip(SkipReason::MalformedResponse),
    }
}

/// The list that holds `address` and nothing else.
fn single(address: &str) -> (r: Vec<String>)
    ensures
        r.deep_view() == seq![address@],
{
    let mut values: Vec<String> = Vec::new();
    values.push(address.to_owned());
    values
}

/// Decides what to do about `record`, whose desired value is `address`,
/// given the remote state that its fetch showed.
pub fn decide(record: &Record, address: &str, remote: RemoteState) -> (r: Decision)
    ensures
        r@ == decision(record@, address@, remote@),
{
    match remote {
        RemoteState::NotFound => Decision::Create(single(address), record.ttl()),
        RemoteState::Found(found) => {
            if found.diff(record, single(address)) {
                Decision::Update(single(address), record.ttl())
            } else {
                Decision::NoChangeNeeded
            }
        },
        RemoteState::Fatal(cause) => Decision::Skip(SkipReason::DomainAborted(cause)),
        RemoteState::Unexpected(status, _) => Decision::Skip(SkipReason::UnexpectedStatus(status)),
        RemoteState::TransportFailure(_) => Decision::Skip(SkipReason::TransportFailure),
        RemoteState::Malformed(_) => Decision::Skip(SkipReason::MalformedResponse),
    }
}

/// The terminal status of a record after its create (`CreateRecord`) or its
/// update (`DiffRecord`) ended with `outcome`.
///
/// | outcome                | create                 | update            |
/// |------------------------|------------------------|-------------------|
/// | success, status 200    | already existed        | unexpected status |
/// | success, status 201    | created                | updated           |
/// | success, other status  | unexpected status      | unexpected status |
/// | authentication failure | domain aborted         | domain aborted    |
/// | permission denied      | domain aborted         | domain aborted    |
/// | conflict               | conflict               | unexpected status |
/// | unexpected status      | unexpected status      | unexpected status |
/// | transport failure      | transport failure      | transport failure |
pub open spec fn write_outcome(path: TakinaState, outcome: HttpOutcomeView) -> Outcome {
    match outcome {
        HttpOutcomeView::Success(status, _) => match path {
            TakinaState::CreateRecord => if status == 200 {
                Outcome::AlreadyExisted
            } else if status == 201 {
                Outcome::Created
            } else {
                Outcome::Skip(SkipReason::UnexpectedStatus(status))
            },
            TakinaState::DiffRecord => if status == 201 {
                Outcome::Updated
            } else {
                Outcome::Skip(SkipReason::UnexpectedStatus(status))
            },
        },
        HttpOutcomeView::AuthFailure(_) => Outcome::Skip(
            SkipReason::DomainAborted(FatalCause::BadApiKey),
        ),
        HttpOutcomeView::PermissionDenied(_) => Outcome::Skip(
            SkipReason::DomainAborted(FatalCause::Forbidden),
        ),
        HttpOutcomeView::Conflict(status, _) => match path {
            TakinaState::CreateRecord => Outcome::Skip(SkipReason::Conflict),
            TakinaState::DiffRecord => Outcome::Skip(SkipReason::UnexpectedStatus(status)),
        },
        HttpOutcomeView::UnexpectedStatus(status, _) => Outcome::Skip(
            SkipReason::UnexpectedStatus(status),
        ),
        HttpOutcomeView::TransportFailure(_) => Outcome::Skip(SkipReason::TransportFailure),
    }
}

/// Classifies the outcome of a create (`CreateRecord`) or of an update
/// (`DiffRecord`) into the terminal status of the record.
pub fn classify_write(path: TakinaState, outcome: &HttpOutcome) -> (r: Outcome)
    ensures
        r == write_outcome(path, outcome@),
{
    match outcome {
        HttpOutcome::Success(status, _) => match path {
            TakinaState::CreateRecord => {
                if *status == 200 {
                    Outcome::AlreadyExisted
                } else if *status == 201 {
                    Outcome::Created
                } else {
                    Outcome::Skip(SkipReason::UnexpectedStatus(*status))
                }
            },
            TakinaState::DiffRecord => {
                if *status == 201 {
                    Outcome::Updated
                } else {
                    Outcome::Skip(SkipReason::UnexpectedStatus(*status))
                }
            },
        },
        HttpOutcome::AuthFailure(_) => Outcome::Skip(
            SkipReason::DomainAborted(FatalCause::BadApiKey),
        ),
        HttpOutcome::PermissionDenied(_) => Outcome::Skip(
            SkipReason::DomainAborted(FatalCause::Forbidden),
        ),
        HttpOutcome::Conflict(status, _) => match path {
            TakinaState::CreateRecord => Outcome::Skip(SkipReason::Conflict),
            TakinaState::DiffRecord => Outcome::Skip(SkipReason::UnexpectedStatus(*status)),
        },
        HttpOutcome::UnexpectedStatus(status, _) => Outcome::Skip(
            SkipReason::UnexpectedStatus(*status),
        ),
        HttpOutcome::TransportFailure(_) => Outcome::Skip(SkipReason::TransportFailure),
    }
}

/// The outcome that a step works with: the one handed in or, where none was
/// handed in, a transport failure without detail.
pub open spec fn outcome_or_failure(event: Option<HttpOutcomeView>) -> HttpOutcomeView {
    match event {
        Some(outcome) => outcome,
        None => HttpOutcomeView::TransportFailure(Seq::empty()),
    }
}

/// What a [`Turn`] holds, as mathematical values.
pub enum TurnView {
    Settle(Outcome),
    Ask(State, Call, Option<GandiRecordView>),
}

/// What one step does about the record under the cursor: it settles the
/// record with a terminal status, or it asks for a call, with the record set
/// to send if the call is a write, and waits in the given state.
#[derive(Debug, Clone, PartialEq, Eq)]
pub enum Turn {
    Settle(Outcome),
    Ask(State, Call, Option<GandiRecord>),
}

impl View for Turn {
    type V = TurnView;

    open spec fn view(&self) -> TurnView {
        match self {
            Turn::Settle(outcome) => TurnView::Settle(*outcome),
            Turn::Ask(state, call, payload) => TurnView::Ask(*state, *call, payload.deep_view()),
        }
    }
}

/// The turn that a decision leads to: a skip or an unchanged record is
/// settled, a create or an update is asked for.
pub open spec fn turn_of_decision(decision: DecisionView) -> TurnView {
    match decision {
        DecisionView::Skip(reason) => TurnView::Settle(Outcome::Skip(reason)),
        DecisionView::NoChangeNeeded => TurnView::Settle(Outcome::NoChangeNeeded),
        DecisionView::Create(values, ttl) => TurnView::Ask(
            State::Writing(TakinaState::CreateRecord),
            Call::Create,
            Some(GandiRecordView { values, ttl }),
        ),
        DecisionView::Update(values, ttl) => TurnView::Ask(
            State::Writing(TakinaState::DiffRecord),
            Call::Update,
            Some(GandiRecordView { values, ttl }),
        ),
    }
}

/// The turn for one record.
///
/// In state `Aborted` the record is skipped, the domain having been given
/// up. In every other state a record without a desired value is skipped, and
/// no call is asked for. Otherwise:
///
/// - `Ready`: the fetch is asked for. The event is not looked at.
/// - `Fetching`: the outcome of the fetch is classified and decided upon.
/// - `Writing`: the outcome of the write settles the record.
///
/// Where an outcome is awaited and none is handed in, the call counts as
/// failed in transport.
pub open spec fn turn_of(
    record: RecordView,
    addresses: AddressSetView,
    state: State,
    event: Option<HttpOutcomeView>,
) -> TurnView {
    match state {
        State::Aborted(cause) => TurnView::Settle(
            Outcome::Skip(SkipReason::DomainAborted(cause)),
        ),
        _ => match desired_value(record, addresses) {
            Err(reason) => TurnView::Settle(Outcome::Skip(reason)),
            Ok(address) => match state {
                State::Fetching => turn_of_decision(
                    decision(record, address, fetch_state(outcome_or_failure(event))),
                ),
                State::Writing(path) => TurnView::Settle(
                    write_outcome(path, outcome_or_failure(event)),
                ),
                _ => TurnView::Ask(State::Fetching, Call::Fetch, None),
            },
        },
    }
}

/// The outcome handed in or, where none was, a transport failure without
/// detail.
fn outcome_of_event(event: Option<HttpOutcome>) -> (r: HttpOutcome)
    ensures
        r@ == outcome_or_failure(event.deep_view()),
{
    match event {
        Some(outcome) => outcome,
        None => HttpOutcome::TransportFailure(String::new()),
    }
}

/// The turn for `record` in the given state, with the outcome of the call
/// that was asked for last, if one was.
pub fn record_turn(
    record: &Record,
    addresses: &AddressSet,
    state: State,
    event: Option<HttpOutcome>,
) -> (r: Turn)
    ensures
        r@ == turn_of(record@, addresses@, state, event.deep_view()),
{
    if let State::Aborted(cause) = state {
        return Turn::Settle(Outcome::Skip(SkipReason::DomainAborted(cause)));
    }
    let address = match addresses.desired(record) {
        Err(reason) => {
            return Turn::Settle(Outcome::Skip(reason));
        },
        Ok(address) => address,
    };
    match state {
        State::Fetching => {
            let remote = classify_fetch(outcome_of_event(event));
            match decide(record, address.as_str(), remote) {
                Decision::Skip(reason) => Turn::Settle(Outcome::Skip(reason)),
                Decision::NoChangeNeeded => Turn::Settle(Outcome::NoChangeNeeded),
                Decision::Create(values, ttl) => Turn::Ask(
                    State::Writing(TakinaState::CreateRecord),
                    Call::Create,
                    Some(GandiRecord::new(values, ttl)),
                ),
                Decision::Update(values, ttl) => Turn::Ask(
                    State::Writing(TakinaState::DiffRecord),
                    Call::Update,
                    Some(GandiRecord::new(values, ttl)),
                ),
            }
        },
        State::Writing(path) => {
            let outcome = outcome_of_event(event);
            Turn::Settle(classify_write(path, &outcome))
        },
        _ => Turn::Ask(State::Fetching, Call::Fetch, None),
    }
}

/// What a [`Step`] holds, as mathematical values.
pub struct StepView {
    pub report: Option<ReportView>,
    pub request: Option<RequestView>,
}

/// What one step of the reconciler hands to its caller: the terminal status
/// of the record it settled, if it settled one, and the call to make before
/// the next step, if it asks for one.
#[derive(Debug, Clone, PartialEq, Eq)]
pub struct Step {
    pub report: Option<Report>,
    pub request: Option<Request>,
}

impl View for Step {
    type V = StepView;

    open spec fn view(&self) -> StepView {
        StepView { report: self.report.deep_view(), request: self.request.deep_view() }
    }
}

/// What an [`Advance`] holds, as mathematical values.
pub struct AdvanceView {
    pub reports: Seq<ReportView>,
    pub request: Option<RequestView>,
}

/// What the steps up to the next call hand to the caller: the terminal
/// status of each record they settled, in order, and the call to make next.
/// Where no call is asked for, the run is over.
#[derive(Debug, Clone, PartialEq, Eq)]
pub struct Advance {
    pub reports: Vec<Report>,
    pub request: Option<Request>,
}

impl View for Advance {
    type V = AdvanceView;

    open spec fn view(&self) -> AdvanceView {
        AdvanceView { reports: self.reports.deep_view(), request: self.request.deep_view() }
    }
}

/// The step that settles nothing and asks for nothing.
pub open spec fn idle() -> StepView {
    StepView { report: None, request: None }
}

/// What a [`Reconciler`] holds, as mathematical values: the configuration
/// and the addresses of the run, the cursor, and the state of the record
/// under the cursor.
pub struct ReconcilerView {
    pub config: Seq<DomainView>,
    pub addresses: AddressSetView,
    pub domain: int,
    pub record: int,
    pub state: State,
}

impl ReconcilerView {
    /// The reconciler before its first step.
    pub open spec fn start(config: Seq<DomainView>, addresses: AddressSetView) -> ReconcilerView {
        ReconcilerView { config, addresses, domain: 0, record: 0, state: State::Ready }
    }

    /// The cursor has left the last domain: nothing is left to do.
    pub open spec fn finished(self) -> bool {
        !(0 <= self.domain < self.config.len())
    }

    /// The cursor stands on a record.
    pub open spec fn at_record(self) -> bool {
        &&& 0 <= self.domain < self.config.len()
        &&& 0 <= self.record < self.config[self.domain].records.len()
    }

    /// The domain under the cursor.
    pub open spec fn current_domain(self) -> DomainView
        recommends
            !self.finished(),
    {
        self.config[self.domain]
    }

    /// The record under the cursor.
    pub open spec fn current_record(self) -> RecordView
        recommends
            self.at_record(),
    {
        self.config[self.domain].records[self.record]
    }

    /// The reconciler with the cursor at the first record of the next
    /// domain.
    pub open spec fn next_domain(self) -> ReconcilerView {
        ReconcilerView { domain: self.domain + 1, record: 0, state: State::Ready, ..self }
    }

    /// The record under the cursor is settled with `outcome`: the step
    /// reports it and moves the cursor to the next record of the domain.
    /// Where the outcome gives the domain up, the records that follow are in
    /// state `Aborted`.
    pub open spec fn settle(self, outcome: Outcome) -> (ReconcilerView, StepView) {
        let state = match outcome {
            Outcome::Skip(SkipReason::DomainAborted(cause)) => State::Aborted(cause),
            _ => State::Ready,
        };
        (
            ReconcilerView { record: self.record + 1, state, ..self },
            StepView {
                report: Some(ReportView { domain: self.domain, record: self.record, outcome }),
                request: None,
            },
        )
    }

    /// The step asks for a call about the record under the cursor and waits
    /// for its outcome in `state`. The request goes to the record's own
    /// address and carries the key of the record's own domain.
    pub open spec fn ask(self, state: State, call: Call, payload: Option<GandiRecordView>) -> (
        ReconcilerView,
        StepView,
    ) {
        (
            ReconcilerView { state, ..self },
            StepView {
                report: None,
                request: Some(
                    RequestView {
                        call,
                        domain: self.domain,
                        record: self.record,
                        endpoint: endpoint_of(self.current_domain(), self.current_record()),
                        authorization: authorization_of(self.current_domain()),
                        payload,
                    },
                ),
            },
        )
    }

    /// One step of the reconciler.
    ///
    /// A finished reconciler stays as it is. At the end of a domain the
    /// cursor moves to the next one, whatever the state was, and the next
    /// domain starts in state `Ready`. On a record the step takes the turn
    /// that [`turn_of`] gives.
    pub open spec fn step(self, event: Option<HttpOutcomeView>) -> (ReconcilerView, StepView) {
        if self.finished() {
            (self, idle())
        } else if !self.at_record() {
            (self.next_domain(), idle())
        } else {
            match turn_of(self.current_record(), self.addresses, self.state, event) {
                TurnView::Settle(outcome) => self.settle(outcome),
                TurnView::Ask(state, call, payload) => self.ask(state, call, payload),
            }
        }
    }

    /// The reconciler after one step for each of `events`, in order.
    pub open spec fn after(self, events: Seq<Option<HttpOutcomeView>>) -> ReconcilerView
        decreases events.len(),
    {
        if events.len() == 0 {
            self
        } else {
            self.step(events[0]).0.after(events.drop_first())
        }
    }

    /// What the steps hand out, one step for each of `events`, in order.
    pub open spec fn steps(self, events: Seq<Option<HttpOutcomeView>>) -> Seq<StepView>
        decreases events.len(),
    {
        if events.len() == 0 {
            Seq::empty()
        } else {
            seq![self.step(events[0]).1] + self.step(events[0]).0.steps(events.drop_first())
        }
    }

    /// The steps up to the next call: the reconciler steps, first with
    /// `event` and then without one, until a step asks for a call or the
    /// reconciler is finished. The result holds the reports of those steps,
    /// in order, and the call that the last of them asked for, if any.
    pub open spec fn advance(self, event: Option<HttpOutcomeView>) -> (ReconcilerView, AdvanceView)
        decreases self.steps_left(),
    {
        if self.finished() {
            (self, AdvanceView { reports: Seq::empty(), request: None })
        } else {
            let (next, step) = self.step(event);
            if step.request is Some {
                (next, AdvanceView { reports: reports_of(step), request: step.request })
            } else {
                proof {
                    lemma_step_makes_progress(self, event);
                }
                let (last, rest) = next.advance(None);
                (
                    last,
                    AdvanceView { reports: reports_of(step) + rest.reports, request: rest.request },
                )
            }
        }
    }

    /// A bound on the number of steps until the reconciler is finished: three
    /// for each record not yet settled, less what was done about the record
    /// under the cursor, and one for the end of each domain.
    pub open spec fn steps_left(self) -> nat {
        if self.finished() {
            0
        } else if !self.at_record() {
            1 + steps_of_domains(self.config, self.domain + 1)
        } else {
            (3 * (self.current_domain().records.len() - self.record) + 1 - steps_taken(
                self.state,
            ) + steps_of_domains(self.config, self.domain + 1)) as nat
        }
    }
}

/// The reports of one step: one or none.
pub open spec fn reports_of(step: StepView) -> Seq<ReportView> {
    match step.report {
        Some(report) => seq![report],
        None => Seq::empty(),
    }
}

/// Every step of a reconciler that is not finished brings it closer to the
/// end: the bound on the steps that are left goes down.
pub proof fn lemma_step_makes_progress(m: ReconcilerView, event: Option<HttpOutcomeView>)
    requires
        !m.finished(),
    ensures
        m.step(event).0.steps_left() < m.steps_left(),
{
    reveal_with_fuel(steps_of_domains, 2);
}

/// The number of steps already taken about a record in the given state.
pub open spec fn steps_taken(state: State) -> nat {
    match state {
        State::Ready => 0,
        State::Aborted(_) => 0,
        State::Fetching => 1,
        State::Writing(_) => 2,
    }
}

/// A bound on the number of steps that the domains from position `from` on
/// take: three for each record and one for the end of each domain.
pub open spec fn steps_of_domains(config: Seq<DomainView>, from: int) -> nat
    decreases config.len() - from,
{
    if from < 0 || from >= config.len() {
        0
    } else {
        3 * config[from].records.len() + 1 + steps_of_domains(config, from + 1)
    }
}

/// The reconciler of one run. It owns the configuration and the addresses,
/// which do not change during the run.
#[derive(Debug, Clone)]
pub struct Reconciler {
    config: Config,
    addresses: AddressSet,
    domain: usize,
    record: usize,
    state: State,
}

impl View for Reconciler {
    type V = ReconcilerView;

    closed spec fn view(&self) -> ReconcilerView {
        ReconcilerView {
            config: self.config@,
            addresses: self.addresses@,
            domain: self.domain as int,
            record: self.record as int,
            state: self.state,
        }
    }
}

impl Reconciler {
    /// A reconciler for one run over `config` with the resolved `addresses`,
    /// before its first step.
    pub fn new(config: Config, addresses: AddressSet) -> (r: Reconciler)
        ensures
            r@ == ReconcilerView::start(config@, addresses@),
    {
        Reconciler { config, addresses, domain: 0, record: 0, state: State::Ready }
    }

    /// The configuration of the run.
    pub fn config(&self) -> (r: &Config)
        ensures
            r@ == self@.config,
    {
        &self.config
    }

    /// The addresses of the run.
    pub fn addresses(&self) -> (r: &AddressSet)
        ensures
            r@ == self@.addresses,
    {
        &self.addresses
    }

    /// The cursor: the position of the domain in the configuration and the
    /// position of the record in that domain.
    pub fn position(&self) -> (r: (usize, usize))
        ensures
            r.0 == self@.domain,
            r.1 == self@.record,
    {
        (self.domain, self.record)
    }

    /// The state of the record under the cursor.
    pub fn state(&self) -> (r: State)
        ensures
            r == self@.state,
    {
        self.state
    }

    /// Tells whether the run is over: every domain has been gone through.
    pub fn is_finished(&self) -> (r: bool)
        ensures
            r == self@.finished(),
    {
        self.domain >= self.config.domain.len()
    }

    /// Takes one step: settles the record under the cursor or asks for the
    /// next call about it, as [`ReconcilerView::step`] says.
    ///
    /// `event` is the outcome of the call that the step before asked for.
    /// After a step that asked for nothing it is not looked at.
    pub fn step(&mut self, event: Option<HttpOutcome>) -> (step: Step)
        ensures
            (final(self)@, step@) == old(self)@.step(event.deep_view()),
    {
        if self.domain >= self.config.domain.len() {
            return Step { report: None, request: None };
        }
        let records = self.config.domain[self.domain].record();
        if self.record >= records.len() {
            self.domain = self.domain + 1;
            self.record = 0;
            self.state = State::Ready;
            return Step { report: None, request: None };
        }
        let domain = &self.config.domain[self.domain];
        let record = &records[self.record];
        match record_turn(record, &self.addresses, self.state, event) {
            Turn::Settle(outcome) => {
                let report = Report { domain: self.domain, record: self.record, outcome };
                self.state = match outcome {
                    Outcome::Skip(SkipReason::DomainAborted(cause)) => State::Aborted(cause),
                    _ => State::Ready,
                };
                self.record = self.record + 1;
                Step { report: Some(report), request: None }
            },
            Turn::Ask(state, call, payload) => {
                let request = Request {
                    call,
                    domain: self.domain,
                    record: self.record,
                    endpoint: endpoint(domain, record),
                    authorization: authorization(domain),
                    payload,
                };
                self.state = state;
                Step { report: None, request: Some(request) }
            },
        }
    }

    /// Steps up to the next call, as [`ReconcilerView::advance`] says: takes
    /// one step with `event` and then steps without one, until a step asks
    /// for a call or the run is over. Returns the reports of those steps, in
    /// order, and the call to make before the next advance. Where it returns
    /// no call, the run is over.
    pub fn advance(&mut self, event: Option<HttpOutcome>) -> (r: Advance)
        ensures
            (final(self)@, r@) == old(self)@.advance(event.deep_view()),
            r@.request is None ==> final(self)@.finished(),
    {
        let mut reports: Vec<Report> = Vec::new();
        let mut pending = event;
        loop
            invariant
                old(self)@.advance(event.deep_view()) == ({
                    let (last, rest) = self@.advance(pending.deep_view());
                    (
                        last,
                        AdvanceView {
                            reports: reports.deep_view() + rest.reports,
                            request: rest.request,
                        },
                    )
                }),
            decreases self@.steps_left(),
        {
            if self.is_finished() {
                return Advance { reports, request: None };
            }
            let ghost before = self@;
            let ghost handed = pending.deep_view();
            let ghost collected = reports.deep_view();
            let step = self.step(pending);
            proof {
                lemma_step_makes_progress(before, handed);
            }
            match step.report {
                Some(report) => {
                    reports.push(report);
                },
                None => {},
            }
            assert(reports.deep_view() =~= collected + reports_of(step@));
            if step.request.is_some() {
                return Advance { reports, request: step.request };
            }
            pending = None;
            proof {
                let (last, rest) = self@.advance(None);
                assert(collected + (reports_of(step@) + rest.reports) =~= (collected + reports_of(
                    step@,
                )) + rest.reports);
            }
        }
    }
}

} // verus!
