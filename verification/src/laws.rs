//! What holds of the reconciler as a whole, proved from the definitions that
//! its functions are verified against.

use crate::address::{desired_value, AddressSetView};
use crate::config::{DomainView, RecordType, RecordView};
use crate::outcome::{FatalCause, Outcome, ReportView, SkipReason};
use crate::reconcile::{
    decision, idle, lemma_step_makes_progress, reports_of, turn_of, write_outcome, DecisionView,
    ReconcilerView, State, StepView, TakinaState, TurnView,
};
use crate::remote::{
    fetch_state, outcome_of_status, record_of_body, state_of_found, GandiRecordView,
    HttpOutcomeView, RemoteStateView,
};
use crate::request::{authorization_of, endpoint_of};
use vstd::prelude::*;

verus! {

/// The statuses of a fetch: what a response with a given status tells, once
/// it has been made an outcome and classified. 200 is a found
/// record or a malformed body, 404 a missing record, 401 and 403 are fatal,
/// and every other status is unexpected.
pub proof fn lemma_fetch_by_status(status: u16, body: Seq<char>)
    ensures
        fetch_state(outcome_of_status(status, body)) == (if status == 200 {
            state_of_found(body, record_of_body(body))
        } else if status == 404 {
            RemoteStateView::NotFound
        } else if status == 401 {
            RemoteStateView::Fatal(FatalCause::BadApiKey)
        } else if status == 403 {
            RemoteStateView::Fatal(FatalCause::Forbidden)
        } else {
            RemoteStateView::Unexpected(status, body)
        }),
{
}

/// The statuses of a create: 200 means that the record already
/// existed, 201 that it was created, 401 and 403 give the domain up, 409 is
/// a conflict, and every other status is unexpected.
pub proof fn lemma_create_by_status(status: u16, body: Seq<char>)
    ensures
        write_outcome(TakinaState::CreateRecord, outcome_of_status(status, body)) == (if status
            == 200 {
            Outcome::AlreadyExisted
        } else if status == 201 {
            Outcome::Created
        } else if status == 401 {
            Outcome::Skip(SkipReason::DomainAborted(FatalCause::BadApiKey))
        } else if status == 403 {
            Outcome::Skip(SkipReason::DomainAborted(FatalCause::Forbidden))
        } else if status == 409 {
            Outcome::Skip(SkipReason::Conflict)
        } else {
            Outcome::Skip(SkipReason::UnexpectedStatus(status))
        }),
{
}

/// The statuses of an update: 201 means that the record was
/// updated, 401 and 403 give the domain up, and every other status, 200
/// among them, is unexpected.
pub proof fn lemma_update_by_status(status: u16, body: Seq<char>)
    ensures
        write_outcome(TakinaState::DiffRecord, outcome_of_status(status, body)) == (if status
            == 201 {
            Outcome::Updated
        } else if status == 401 {
            Outcome::Skip(SkipReason::DomainAborted(FatalCause::BadApiKey))
        } else if status == 403 {
            Outcome::Skip(SkipReason::DomainAborted(FatalCause::Forbidden))
        } else {
            Outcome::Skip(SkipReason::UnexpectedStatus(status))
        }),
{
}

/// A fatal answer gives the domain up wherever it comes: a 401 or a 403 to
/// the fetch, the create or the update settles the record as skipped
/// because its domain is aborted.
pub proof fn lemma_fatal_answer_gives_domain_up(
    record: RecordView,
    addresses: AddressSetView,
    state: State,
    status: u16,
    body: Seq<char>,
)
    requires
        desired_value(record, addresses) is Ok,
        state is Fetching || state is Writing,
        status == 401 || status == 403,
    ensures
        turn_of(record, addresses, state, Some(outcome_of_status(status, body)))
            == TurnView::Settle(
            Outcome::Skip(
                SkipReason::DomainAborted(
                    if status == 401 {
                        FatalCause::BadApiKey
                    } else {
                        FatalCause::Forbidden
                    },
                ),
            ),
        ),
{
}

/// A transport failure never gives a domain up: whatever call it ends, it
/// skips the one record.
pub proof fn lemma_transport_failure_skips_one_record(
    record: RecordView,
    address: Seq<char>,
    path: TakinaState,
    detail: Seq<char>,
)
    ensures
        decision(record, address, fetch_state(HttpOutcomeView::TransportFailure(detail)))
            == DecisionView::Skip(SkipReason::TransportFailure),
        write_outcome(path, HttpOutcomeView::TransportFailure(detail)) == Outcome::Skip(
            SkipReason::TransportFailure,
        ),
{
}

/// A create or an update always sends exactly one value, the desired
/// address, and the record's own time to live.
pub proof fn lemma_write_sends_desired_record(
    record: RecordView,
    address: Seq<char>,
    remote: RemoteStateView,
)
    ensures
        match decision(record, address, remote) {
            DecisionView::Create(values, ttl) => values == seq![address] && ttl == record.ttl,
            DecisionView::Update(values, ttl) => values == seq![address] && ttl == record.ttl,
            _ => true,
        },
{
}

/// Idempotence: a record that one run left in place needs no change in the
/// next run, as long as address and configuration stay the same.
///
/// `first` is what the fetch of the first run showed and `second` what the
/// fetch of the second run shows. The record was left in place by the first
/// run in one of two ways. Either the run decided to create or to update it
/// and the write went through, so that the provider now holds what was sent.
/// Or the run found that it needed no change, so that the provider still
/// holds what it held. A record that another party created between the fetch
/// and the create of the first run is not covered: the provider then holds
/// what that party sent.
pub proof fn lemma_second_run_changes_nothing(
    record: RecordView,
    address: Seq<char>,
    first: RemoteStateView,
    second: RemoteStateView,
)
    requires
        match decision(record, address, first) {
            DecisionView::Create(values, ttl) => second == RemoteStateView::Found(
                GandiRecordView { values, ttl },
            ),
            DecisionView::Update(values, ttl) => second == RemoteStateView::Found(
                GandiRecordView { values, ttl },
            ),
            DecisionView::NoChangeNeeded => second == first,
            DecisionView::Skip(_) => false,
        },
    ensures
        decision(record, address, second) == DecisionView::NoChangeNeeded,
{
}

/// Family gating, for one record: while a family has no address, a record
/// of that family is skipped in every state and no call is asked for it.
pub proof fn lemma_disabled_family_is_skipped(
    record: RecordView,
    addresses: AddressSetView,
    state: State,
    event: Option<HttpOutcomeView>,
)
    requires
        record.record_type() matches Some(family) && addresses.address(family) is None,
    ensures
        desired_value(record, addresses) == Err::<Seq<char>, SkipReason>(
            SkipReason::FamilyDisabled,
        ),
        turn_of(record, addresses, state, event) matches TurnView::Settle(outcome)
            && outcome is Skip,
{
}

/// Family gating, for the other family: what is done about an `A` record
/// does not depend on whether an IPv6 address was resolved, nor on which,
/// and likewise for an `AAAA` record and the IPv4 address.
pub proof fn lemma_other_family_is_unaffected(
    record: RecordView,
    addresses: AddressSetView,
    other: Option<Seq<char>>,
    state: State,
    event: Option<HttpOutcomeView>,
)
    ensures
        record.record_type() == Some(RecordType::A) ==> turn_of(record, addresses, state, event)
            == turn_of(record, AddressSetView { ipv6: other, ..addresses }, state, event),
        record.record_type() == Some(RecordType::Aaaa) ==> turn_of(
            record,
            addresses,
            state,
            event,
        ) == turn_of(record, AddressSetView { ipv4: other, ..addresses }, state, event),
{
}

/// Family gating, for the reconciler: in every state, a step asks for a call
/// only about the record under the cursor and only where that record has a
/// desired value; the call goes to that record's address with the key of its
/// own domain. A step that stands on a record without a desired value
/// settles it as skipped.
pub proof fn lemma_step_calls_only_for_desired(
    m: ReconcilerView,
    event: Option<HttpOutcomeView>,
)
    ensures
        m.step(event).1.request matches Some(request) ==> {
            &&& m.at_record()
            &&& desired_value(m.current_record(), m.addresses) is Ok
            &&& request.domain == m.domain
            &&& request.record == m.record
            &&& request.endpoint == endpoint_of(m.current_domain(), m.current_record())
            &&& request.authorization == authorization_of(m.current_domain())
        },
        m.at_record() && desired_value(m.current_record(), m.addresses) is Err ==> {
            &&& m.step(event).1.request is None
            &&& m.step(event).1.report matches Some(report)
            &&& report.domain == m.domain
            &&& report.record == m.record
            &&& report.outcome is Skip
        },
{
}

/// The step number `k` of a run is the step that the reconciler takes after
/// the first `k` events.
pub proof fn lemma_step_of_run(m: ReconcilerView, events: Seq<Option<HttpOutcomeView>>, k: int)
    requires
        0 <= k < events.len(),
    ensures
        m.steps(events).len() == events.len(),
        m.steps(events)[k] == m.after(events.take(k)).step(events[k]).1,
    decreases events.len(),
{
    let rest = events.drop_first();
    let next = m.step(events[0]).0;
    if rest.len() > 0 {
        lemma_step_of_run(next, rest, 0);
    } else {
        assert(next.steps(rest) =~= Seq::<StepView>::empty());
    }
    if k > 0 {
        lemma_step_of_run(next, rest, k - 1);
        assert(events.take(k).drop_first() =~= rest.take(k - 1));
    }
}

/// Family gating, for a whole run: whatever the provider answers, no step of
/// a run asks for a call about a record without a desired value, and each
/// report about such a record is a skip.
pub proof fn lemma_run_calls_only_for_desired(
    m: ReconcilerView,
    events: Seq<Option<HttpOutcomeView>>,
    k: int,
)
    requires
        0 <= k < events.len(),
    ensures
        m.steps(events)[k].request matches Some(request) ==> {
            &&& 0 <= request.domain < m.config.len()
            &&& 0 <= request.record < m.config[request.domain].records.len()
            &&& desired_value(m.config[request.domain].records[request.record], m.addresses) is Ok
        },
        m.steps(events)[k].report matches Some(report) ==> {
            &&& 0 <= report.domain < m.config.len()
            &&& 0 <= report.record < m.config[report.domain].records.len()
            &&& desired_value(m.config[report.domain].records[report.record], m.addresses) is Err
                ==> report.outcome is Skip
        },
{
    lemma_step_of_run(m, events, k);
    lemma_run_keeps_inputs(m, events.take(k));
    let before = m.after(events.take(k));
    lemma_step_calls_only_for_desired(before, events[k]);
}

/// A run never changes the configuration or the addresses it works with.
pub proof fn lemma_run_keeps_inputs(m: ReconcilerView, events: Seq<Option<HttpOutcomeView>>)
    ensures
        m.after(events).config == m.config,
        m.after(events).addresses == m.addresses,
    decreases events.len(),
{
    if events.len() > 0 {
        lemma_run_keeps_inputs(m.step(events[0]).0, events.drop_first());
    }
}

/// Domain-abort scope, the entry: a step that settles a record with a fatal
/// answer, at the fetch or at the write, leaves the cursor in the same
/// domain, on the next record, in state `Aborted`. No other outcome does.
pub proof fn lemma_abort_starts_at_fatal_answer(
    m: ReconcilerView,
    event: Option<HttpOutcomeView>,
)
    requires
        m.at_record(),
    ensures
        match m.step(event).1.report {
            Some(ReportView { outcome: Outcome::Skip(SkipReason::DomainAborted(cause)), .. }) =>
                m.step(event).0 == (ReconcilerView {
                    record: m.record + 1,
                    state: State::Aborted(cause),
                    ..m
                }),
            _ => !(m.step(event).0.state is Aborted),
        },
{
}

/// Domain-abort scope, the rest of the domain: once a domain is given up,
/// each record that is left in it is reported as skipped for that reason,
/// one step each and without a call, whatever is handed in. The step after
/// the last record moves on to the first record of the next domain in state
/// `Ready`, which is where every domain starts: the next domain is gone
/// through as if nothing had happened.
pub proof fn lemma_abort_ends_with_domain(
    m: ReconcilerView,
    cause: FatalCause,
    events: Seq<Option<HttpOutcomeView>>,
)
    requires
        !m.finished(),
        0 <= m.record <= m.current_domain().records.len(),
        m.state == State::Aborted(cause),
        events.len() == m.current_domain().records.len() - m.record + 1,
    ensures
        m.steps(events).len() == events.len(),
        forall|k: int|
            0 <= k < events.len() - 1 ==> #[trigger] m.steps(events)[k] == (StepView {
                report: Some(
                    ReportView {
                        domain: m.domain,
                        record: m.record + k,
                        outcome: Outcome::Skip(SkipReason::DomainAborted(cause)),
                    },
                ),
                request: None,
            }),
        m.steps(events)[events.len() - 1] == idle(),
        m.after(events) == (ReconcilerView {
            domain: m.domain + 1,
            record: 0,
            state: State::Ready,
            ..m
        }),
    decreases events.len(),
{
    let rest = events.drop_first();
    let next = m.step(events[0]).0;
    if m.record == m.current_domain().records.len() {
        assert(next.after(rest) == next);
        assert(next.steps(rest) =~= Seq::<StepView>::empty());
    } else {
        lemma_abort_ends_with_domain(next, cause, rest);
    }
}

/// Domain-abort scope, the other domains: at the end of a domain the cursor
/// moves to the first record of the next domain in state `Ready`, whatever
/// the state was. So a domain starts the same way whether or not the one
/// before it was given up.
pub proof fn lemma_domain_starts_ready(m: ReconcilerView, event: Option<HttpOutcomeView>)
    requires
        !m.finished(),
        !m.at_record(),
    ensures
        m.step(event) == ((
            ReconcilerView { domain: m.domain + 1, record: 0, state: State::Ready, ..m },
            idle(),
        )),
{
}

/// A run always completes: after as many steps as the bound says, the
/// reconciler is finished, whatever the provider answered.
pub proof fn lemma_run_finishes(m: ReconcilerView, events: Seq<Option<HttpOutcomeView>>)
    requires
        events.len() >= m.steps_left(),
    ensures
        m.after(events).finished(),
    decreases events.len(),
{
    if m.finished() {
        lemma_finished_stays(m, events);
    } else {
        lemma_step_makes_progress(m, events[0]);
        lemma_run_finishes(m.step(events[0]).0, events.drop_first());
    }
}

/// A finished reconciler stays as it is, asks for nothing and reports
/// nothing.
pub proof fn lemma_finished_stays(m: ReconcilerView, events: Seq<Option<HttpOutcomeView>>)
    requires
        m.finished(),
    ensures
        m.after(events) == m,
        forall|k: int| 0 <= k < events.len() ==> #[trigger] m.steps(events)[k] == idle(),
    decreases events.len(),
{
    if events.len() > 0 {
        lemma_finished_stays(m, events.drop_first());
        assert forall|k: int| 0 <= k < events.len() implies #[trigger] m.steps(events)[k]
            == idle() by {
            lemma_step_of_run(m, events, k);
            lemma_finished_stays(m, events.take(k));
        }
    }
}

/// The positions of the records of a configuration from the cursor on, in
/// the order in which the configuration lists them.
pub open spec fn positions_from(config: Seq<DomainView>, domain: int, record: int) -> Seq<
    (int, int),
>
    decreases
            config.len() - domain,
            (if 0 <= domain < config.len() {
                config[domain].records.len() - record
            } else {
                0
            }),
{
    if domain < 0 || domain >= config.len() {
        Seq::empty()
    } else if record < 0 || record >= config[domain].records.len() {
        positions_from(config, domain + 1, 0)
    } else {
        seq![(domain, record)] + positions_from(config, domain, record + 1)
    }
}

/// The positions of the records that the steps of a run reported, in the
/// order of the reports.
pub open spec fn reported(steps: Seq<StepView>) -> Seq<(int, int)>
    decreases steps.len(),
{
    if steps.len() == 0 {
        Seq::empty()
    } else {
        reports_of(steps[0]).map_values(|report: ReportView| (report.domain, report.record))
            + reported(steps.drop_first())
    }
}

/// A run that reaches the end reports every record that lay before it, each
/// once and in the order of the configuration, whatever the provider
/// answered: no record is passed over and none is processed twice.
pub proof fn lemma_run_reports_every_record_once(
    m: ReconcilerView,
    events: Seq<Option<HttpOutcomeView>>,
)
    requires
        m.after(events).finished(),
    ensures
        reported(m.steps(events)) == positions_from(m.config, m.domain, m.record),
    decreases events.len(),
{
    if events.len() > 0 {
        let next = m.step(events[0]).0;
        let rest = events.drop_first();
        lemma_run_reports_every_record_once(next, rest);
        assert(m.steps(events).drop_first() =~= next.steps(rest));
    }
}

/// Every record is settled once: a step that reports a record reports the
/// one under the cursor and moves the cursor past it, and the cursor never
/// moves back.
pub proof fn lemma_cursor_moves_forward(m: ReconcilerView, event: Option<HttpOutcomeView>)
    requires
        !m.finished(),
    ensures
        m.step(event).0.domain > m.domain || (m.step(event).0.domain == m.domain && m.step(
            event,
        ).0.record >= m.record),
        m.step(event).1.report matches Some(report) ==> {
            &&& m.at_record()
            &&& report.domain == m.domain
            &&& report.record == m.record
            &&& m.step(event).0.domain == m.domain
            &&& m.step(event).0.record == m.record + 1
        },
{
}

} // verus!
