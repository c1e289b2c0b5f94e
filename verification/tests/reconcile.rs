use takina::address::AddressSet;
use takina::config::{Config, Domain, Record};
use takina::outcome::{FatalCause, Outcome, Report, SkipReason};
use takina::reconcile::{
    classify_write, decide, record_turn, Advance, Decision, Reconciler, State, Step, TakinaState,
    Turn,
};
use takina::remote::{GandiRecord, HttpOutcome, RemoteState};
use takina::request::{Call, Request};

const V4: &str = "203.0.113.5";
const V6: &str = "2001:db8::5";

fn record(name: &str, rtype: &str, ttl: u32) -> Record {
    Record::new(name.to_string(), rtype.to_string(), ttl)
}

fn domain(name: &str, key: &str, records: Vec<Record>) -> Domain {
    Domain::new(name.to_string(), key.to_string(), records)
}

fn example() -> Config {
    Config { domain: vec![domain("example.com", "secret", vec![record("www", "A", 300)])] }
}

fn both() -> AddressSet {
    AddressSet::resolve(Some(V4.to_string()), Some(V6.to_string()))
}

fn only_v4() -> AddressSet {
    AddressSet::resolve(Some(V4.to_string()), None)
}

fn answer(status: u16, body: &str) -> Option<HttpOutcome> {
    Some(HttpOutcome::from_status(status, body.to_string()))
}

fn body(values: &[&str], ttl: u32) -> String {
    let listed: Vec<String> = values.iter().map(|v| format!("\"{}\"", v)).collect();
    format!("{{\"rrset_values\":[{}],\"rrset_ttl\":{}}}", listed.join(","), ttl)
}

fn report(domain: usize, record: usize, outcome: Outcome) -> Report {
    Report { domain, record, outcome }
}

fn payload(value: &str, ttl: u32) -> Option<GandiRecord> {
    Some(GandiRecord::new(vec![value.to_string()], ttl))
}

fn aborted(cause: FatalCause) -> Outcome {
    Outcome::Skip(SkipReason::DomainAborted(cause))
}

/// Runs to the end, answering each call with what `provider` gives for it.
/// Returns the reports and the calls, each in order.
fn run(
    config: Config,
    addresses: AddressSet,
    provider: &mut dyn FnMut(&Request) -> HttpOutcome,
) -> (Vec<Report>, Vec<Request>) {
    let mut reconciler = Reconciler::new(config, addresses);
    let mut reports = Vec::new();
    let mut calls = Vec::new();
    let mut event = None;
    loop {
        let Advance { reports: settled, request } = reconciler.advance(event.take());
        reports.extend(settled);
        match request {
            Some(request) => {
                event = Some(provider(&request));
                calls.push(request);
            }
            None => break,
        }
    }
    assert!(reconciler.is_finished());
    (reports, calls)
}

#[test]
fn missing_record_is_created() {
    let mut reconciler = Reconciler::new(example(), only_v4());
    let first = reconciler.advance(None);
    assert_eq!(first.reports, vec![]);
    let fetch = first.request.unwrap();
    assert_eq!(fetch.call, Call::Fetch);
    assert_eq!((fetch.domain, fetch.record), (0, 0));
    assert_eq!(fetch.endpoint, "https://api.gandi.net/v5/livedns/domains/example.com/records/www/A");
    assert_eq!(fetch.authorization, "Apikey secret");
    assert_eq!(fetch.payload, None);

    let second = reconciler.advance(answer(404, ""));
    assert_eq!(second.reports, vec![]);
    let create = second.request.unwrap();
    assert_eq!(create.call, Call::Create);
    assert_eq!(create.endpoint, fetch.endpoint);
    assert_eq!(create.authorization, fetch.authorization);
    assert_eq!(create.payload, payload(V4, 300));

    let third = reconciler.advance(answer(201, ""));
    assert_eq!(third.reports, vec![report(0, 0, Outcome::Created)]);
    assert_eq!(third.reports[0].outcome.message(), "record created");
    assert_eq!(third.request, None);
    assert!(reconciler.is_finished());
}

#[test]
fn matching_record_needs_no_change() {
    let mut reconciler = Reconciler::new(example(), only_v4());
    assert_eq!(reconciler.advance(None).request.unwrap().call, Call::Fetch);
    let second = reconciler.advance(answer(200, &body(&[V4], 300)));
    assert_eq!(second.reports, vec![report(0, 0, Outcome::NoChangeNeeded)]);
    assert_eq!(second.reports[0].outcome.message(), "no update needed");
    assert_eq!(second.request, None);
    assert!(reconciler.is_finished());
}

#[test]
fn matching_record_issues_no_write_call() {
    let (reports, calls) =
        run(example(), only_v4(), &mut |_| HttpOutcome::from_status(200, body(&[V4], 300)));
    assert_eq!(reports, vec![report(0, 0, Outcome::NoChangeNeeded)]);
    assert_eq!(calls.len(), 1);
    assert_eq!(calls[0].call, Call::Fetch);
}

#[test]
fn differing_record_is_updated() {
    let mut reconciler = Reconciler::new(example(), only_v4());
    assert_eq!(reconciler.advance(None).request.unwrap().call, Call::Fetch);
    let second = reconciler.advance(answer(200, &body(&["198.51.100.1"], 300)));
    assert_eq!(second.reports, vec![]);
    let update = second.request.unwrap();
    assert_eq!(update.call, Call::Update);
    assert_eq!(update.endpoint, "https://api.gandi.net/v5/livedns/domains/example.com/records/www/A");
    assert_eq!(update.payload, payload(V4, 300));
    let third = reconciler.advance(answer(201, ""));
    assert_eq!(third.reports, vec![report(0, 0, Outcome::Updated)]);
    assert_eq!(third.reports[0].outcome.message(), "record updated");
    assert_eq!(third.request, None);
}

#[test]
fn record_with_another_ttl_is_updated() {
    let mut reconciler = Reconciler::new(example(), only_v4());
    reconciler.advance(None);
    let second = reconciler.advance(answer(200, &body(&[V4], 301)));
    assert_eq!(second.request.unwrap().payload, payload(V4, 300));
}

#[test]
fn fetch_401_aborts_the_domain_but_not_the_next() {
    let config = Config {
        domain: vec![
            domain("one.example", "k1", vec![record("a", "A", 300), record("b", "AAAA", 600)]),
            domain("two.example", "k2", vec![record("c", "A", 900)]),
        ],
    };
    let mut reconciler = Reconciler::new(config, both());
    let first = reconciler.advance(None).request.unwrap();
    assert_eq!((first.call, first.domain, first.record), (Call::Fetch, 0, 0));
    let second = reconciler.advance(answer(401, "no"));
    assert_eq!(
        second.reports,
        vec![
            report(0, 0, aborted(FatalCause::BadApiKey)),
            report(0, 1, aborted(FatalCause::BadApiKey)),
        ]
    );
    for settled in &second.reports {
        assert_eq!(settled.outcome.message(), "domain aborted");
    }
    let next = second.request.unwrap();
    assert_eq!((next.call, next.domain, next.record), (Call::Fetch, 1, 0));
    assert_eq!(next.endpoint, "https://api.gandi.net/v5/livedns/domains/two.example/records/c/A");
    assert_eq!(next.authorization, "Apikey k2");
    let third = reconciler.advance(answer(200, &body(&[V4], 900)));
    assert_eq!(third.reports, vec![report(1, 0, Outcome::NoChangeNeeded)]);
    assert_eq!(third.request, None);
}

#[test]
fn abort_at_second_of_three_records_skips_the_third_only() {
    let config = Config {
        domain: vec![
            domain(
                "one.example",
                "k1",
                vec![record("a", "A", 300), record("b", "A", 300), record("c", "A", 300)],
            ),
            domain("two.example", "k2", vec![record("d", "A", 300), record("e", "A", 300)]),
        ],
    };
    let (reports, calls) = run(config, both(), &mut |request| {
        if (request.domain, request.record) == (0, 1) {
            HttpOutcome::from_status(401, String::new())
        } else {
            HttpOutcome::from_status(200, body(&[V4], 300))
        }
    });
    assert_eq!(
        reports,
        vec![
            report(0, 0, Outcome::NoChangeNeeded),
            report(0, 1, aborted(FatalCause::BadApiKey)),
            report(0, 2, aborted(FatalCause::BadApiKey)),
            report(1, 0, Outcome::NoChangeNeeded),
            report(1, 1, Outcome::NoChangeNeeded),
        ]
    );
    let asked: Vec<(usize, usize)> = calls.iter().map(|c| (c.domain, c.record)).collect();
    assert_eq!(asked, vec![(0, 0), (0, 1), (1, 0), (1, 1)]);
}

#[test]
fn fetch_403_aborts_the_domain_as_forbidden() {
    let config = Config {
        domain: vec![domain("one.example", "k1", vec![record("a", "A", 300), record("b", "A", 300)])],
    };
    let (reports, calls) = run(config, both(), &mut |_| HttpOutcome::from_status(403, String::new()));
    assert_eq!(
        reports,
        vec![report(0, 0, aborted(FatalCause::Forbidden)), report(0, 1, aborted(FatalCause::Forbidden))]
    );
    assert_eq!(calls.len(), 1);
}

#[test]
fn write_401_and_403_abort_the_domain() {
    for (status, cause) in [(401u16, FatalCause::BadApiKey), (403, FatalCause::Forbidden)] {
        for fetched in [404u16, 200] {
            let config = Config {
                domain: vec![
                    domain("one.example", "k1", vec![record("a", "A", 300), record("b", "A", 300)]),
                    domain("two.example", "k2", vec![record("c", "A", 300)]),
                ],
            };
            let (reports, calls) = run(config, both(), &mut |request| match request.call {
                Call::Fetch => HttpOutcome::from_status(fetched, body(&["198.51.100.1"], 300)),
                _ if request.domain == 0 => HttpOutcome::from_status(status, String::new()),
                _ => HttpOutcome::from_status(201, String::new()),
            });
            let written = if fetched == 404 { Outcome::Created } else { Outcome::Updated };
            assert_eq!(
                reports,
                vec![report(0, 0, aborted(cause)), report(0, 1, aborted(cause)), report(1, 0, written)]
            );
            assert_eq!(calls.len(), 4);
        }
    }
}

#[test]
fn failed_ipv6_resolution_skips_every_aaaa_record_without_a_call() {
    let config = Config {
        domain: vec![
            domain(
                "one.example",
                "k1",
                vec![record("a", "AAAA", 300), record("b", "A", 300), record("c", "AAAA", 300)],
            ),
            domain("two.example", "k2", vec![record("d", "AAAA", 300)]),
        ],
    };
    let (reports, calls) =
        run(config, only_v4(), &mut |_| HttpOutcome::from_status(200, body(&[V4], 300)));
    assert_eq!(
        reports,
        vec![
            report(0, 0, Outcome::Skip(SkipReason::FamilyDisabled)),
            report(0, 1, Outcome::NoChangeNeeded),
            report(0, 2, Outcome::Skip(SkipReason::FamilyDisabled)),
            report(1, 0, Outcome::Skip(SkipReason::FamilyDisabled)),
        ]
    );
    assert_eq!(reports[0].outcome.message(), "family disabled");
    let asked: Vec<(usize, usize)> = calls.iter().map(|c| (c.domain, c.record)).collect();
    assert_eq!(asked, vec![(0, 1)]);
}

#[test]
fn failed_ipv4_resolution_leaves_aaaa_records_alone() {
    let config = Config {
        domain: vec![domain("one.example", "k1", vec![record("a", "A", 300), record("b", "AAAA", 300)])],
    };
    let addresses = AddressSet::resolve(None, Some(V6.to_string()));
    let (reports, calls) = run(config, addresses, &mut |request| match request.call {
        Call::Fetch => HttpOutcome::from_status(404, String::new()),
        _ => HttpOutcome::from_status(201, String::new()),
    });
    assert_eq!(
        reports,
        vec![report(0, 0, Outcome::Skip(SkipReason::FamilyDisabled)), report(0, 1, Outcome::Created)]
    );
    assert_eq!(calls.len(), 2);
    assert_eq!(calls[1].payload, payload(V6, 300));
    assert_eq!(calls[1].endpoint, "https://api.gandi.net/v5/livedns/domains/one.example/records/b/AAAA");
}

#[test]
fn no_address_at_all_skips_everything_without_a_call() {
    let config = Config {
        domain: vec![domain("one.example", "k1", vec![record("a", "A", 300), record("b", "AAAA", 300)])],
    };
    let (reports, calls) = run(config, AddressSet::resolve(None, None), &mut |_| unreachable!());
    assert_eq!(
        reports,
        vec![
            report(0, 0, Outcome::Skip(SkipReason::FamilyDisabled)),
            report(0, 1, Outcome::Skip(SkipReason::FamilyDisabled)),
        ]
    );
    assert!(calls.is_empty());
}

#[test]
fn record_of_another_type_is_skipped_without_a_call() {
    let config = Config { domain: vec![domain("one.example", "k1", vec![record("a", "MX", 300)])] };
    let (reports, calls) = run(config, both(), &mut |_| unreachable!());
    assert_eq!(reports, vec![report(0, 0, Outcome::Skip(SkipReason::UnsupportedType))]);
    assert!(calls.is_empty());
}

#[test]
fn second_run_needs_no_change_where_the_first_succeeded() {
    let config = || Config {
        domain: vec![
            domain("one.example", "k1", vec![record("a", "A", 300), record("b", "AAAA", 600)]),
            domain("two.example", "k2", vec![record("c", "A", 900), record("d", "A", 1200)]),
        ],
    };
    // What the provider holds, by endpoint: (0, 0) is missing, (0, 1) holds
    // another address, (1, 0) is up to date, and (1, 1) cannot be reached.
    let mut held: Vec<(String, GandiRecord)> = vec![
        (
            "https://api.gandi.net/v5/livedns/domains/one.example/records/b/AAAA".to_string(),
            GandiRecord::new(vec!["2001:db8::1".to_string()], 600),
        ),
        (
            "https://api.gandi.net/v5/livedns/domains/two.example/records/c/A".to_string(),
            GandiRecord::new(vec![V4.to_string()], 900),
        ),
    ];
    let mut provider = |request: &Request| -> HttpOutcome {
        if (request.domain, request.record) == (1, 1) {
            return HttpOutcome::TransportFailure("unreachable".to_string());
        }
        let at = held.iter().position(|(endpoint, _)| *endpoint == request.endpoint);
        match request.call {
            Call::Fetch => match at {
                Some(i) => {
                    let values: Vec<&str> = held[i].1.rrset_values.iter().map(|v| v.as_str()).collect();
                    HttpOutcome::from_status(200, body(&values, held[i].1.rrset_ttl))
                }
                None => HttpOutcome::from_status(404, String::new()),
            },
            Call::Create | Call::Update => {
                let sent = request.payload.clone().unwrap();
                match at {
                    Some(i) => held[i].1 = sent,
                    None => held.push((request.endpoint.clone(), sent)),
                }
                HttpOutcome::from_status(201, String::new())
            }
        }
    };
    let (first, first_calls) = run(config(), both(), &mut provider);
    assert_eq!(
        first,
        vec![
            report(0, 0, Outcome::Created),
            report(0, 1, Outcome::Updated),
            report(1, 0, Outcome::NoChangeNeeded),
            report(1, 1, Outcome::Skip(SkipReason::TransportFailure)),
        ]
    );
    assert_eq!(first_calls.len(), 6);
    let (second, second_calls) = run(config(), both(), &mut provider);
    for (before, after) in first.iter().zip(second.iter()) {
        if before.outcome.is_success() {
            assert_eq!(after.outcome, Outcome::NoChangeNeeded);
        }
    }
    assert_eq!(second[3], report(1, 1, Outcome::Skip(SkipReason::TransportFailure)));
    assert!(second_calls.iter().all(|c| c.call == Call::Fetch));
}

#[test]
fn create_outcomes_by_status() {
    let cases = [
        (200u16, Outcome::AlreadyExisted),
        (201, Outcome::Created),
        (202, Outcome::Skip(SkipReason::UnexpectedStatus(202))),
        (400, Outcome::Skip(SkipReason::UnexpectedStatus(400))),
        (401, aborted(FatalCause::BadApiKey)),
        (403, aborted(FatalCause::Forbidden)),
        (404, Outcome::Skip(SkipReason::UnexpectedStatus(404))),
        (409, Outcome::Skip(SkipReason::Conflict)),
        (500, Outcome::Skip(SkipReason::UnexpectedStatus(500))),
    ];
    for (status, expected) in cases {
        let outcome = HttpOutcome::from_status(status, String::new());
        assert_eq!(classify_write(TakinaState::CreateRecord, &outcome), expected);
    }
    assert_eq!(
        classify_write(TakinaState::CreateRecord, &HttpOutcome::TransportFailure(String::new())),
        Outcome::Skip(SkipReason::TransportFailure)
    );
}

#[test]
fn update_outcomes_by_status() {
    let cases = [
        (200u16, Outcome::Skip(SkipReason::UnexpectedStatus(200))),
        (201, Outcome::Updated),
        (204, Outcome::Skip(SkipReason::UnexpectedStatus(204))),
        (401, aborted(FatalCause::BadApiKey)),
        (403, aborted(FatalCause::Forbidden)),
        (404, Outcome::Skip(SkipReason::UnexpectedStatus(404))),
        (409, Outcome::Skip(SkipReason::UnexpectedStatus(409))),
        (500, Outcome::Skip(SkipReason::UnexpectedStatus(500))),
    ];
    for (status, expected) in cases {
        let outcome = HttpOutcome::from_status(status, String::new());
        assert_eq!(classify_write(TakinaState::DiffRecord, &outcome), expected);
    }
    assert_eq!(
        classify_write(TakinaState::DiffRecord, &HttpOutcome::TransportFailure(String::new())),
        Outcome::Skip(SkipReason::TransportFailure)
    );
}

#[test]
fn create_that_finds_the_record_in_place_is_a_success() {
    let (reports, _) = run(example(), only_v4(), &mut |request| match request.call {
        Call::Fetch => HttpOutcome::from_status(404, String::new()),
        _ => HttpOutcome::from_status(200, String::new()),
    });
    assert_eq!(reports, vec![report(0, 0, Outcome::AlreadyExisted)]);
    assert!(reports[0].outcome.is_success());
    assert_eq!(reports[0].outcome.message(), "record already existed");
}

#[test]
fn conflict_skips_the_record_and_goes_on() {
    let config = Config {
        domain: vec![domain("one.example", "k1", vec![record("a", "A", 300), record("b", "A", 300)])],
    };
    let (reports, calls) = run(config, both(), &mut |request| match request.call {
        Call::Fetch => HttpOutcome::from_status(404, String::new()),
        _ if request.record == 0 => HttpOutcome::from_status(409, "exists".to_string()),
        _ => HttpOutcome::from_status(201, String::new()),
    });
    assert_eq!(
        reports,
        vec![report(0, 0, Outcome::Skip(SkipReason::Conflict)), report(0, 1, Outcome::Created)]
    );
    assert_eq!(reports[0].outcome.message(), "conflict: record already exists");
    assert_eq!(calls.len(), 4);
}

#[test]
fn unexpected_status_and_transport_failure_skip_one_record() {
    let config = Config {
        domain: vec![domain(
            "one.example",
            "k1",
            vec![record("a", "A", 300), record("b", "A", 300), record("c", "A", 300), record("d", "A", 300)],
        )],
    };
    let (reports, calls) = run(config, both(), &mut |request| match request.record {
        0 => HttpOutcome::from_status(500, "oops".to_string()),
        1 => HttpOutcome::TransportFailure("timeout".to_string()),
        2 => HttpOutcome::from_status(200, "not json".to_string()),
        _ => HttpOutcome::from_status(200, body(&[V4], 300)),
    });
    assert_eq!(
        reports,
        vec![
            report(0, 0, Outcome::Skip(SkipReason::UnexpectedStatus(500))),
            report(0, 1, Outcome::Skip(SkipReason::TransportFailure)),
            report(0, 2, Outcome::Skip(SkipReason::MalformedResponse)),
            report(0, 3, Outcome::NoChangeNeeded),
        ]
    );
    assert_eq!(calls.len(), 4);
}

#[test]
fn missing_outcome_counts_as_transport_failure() {
    let mut reconciler = Reconciler::new(example(), only_v4());
    assert!(reconciler.advance(None).request.is_some());
    let second = reconciler.advance(None);
    assert_eq!(second.reports, vec![report(0, 0, Outcome::Skip(SkipReason::TransportFailure))]);
    assert_eq!(second.request, None);
}

#[test]
fn empty_configuration_is_finished_at_once() {
    let mut reconciler = Reconciler::new(Config { domain: Vec::new() }, both());
    assert!(reconciler.is_finished());
    assert_eq!(reconciler.advance(None), Advance { reports: vec![], request: None });
    assert_eq!(reconciler.step(answer(200, "")), Step { report: None, request: None });
    assert!(reconciler.is_finished());
}

#[test]
fn domains_without_records_are_passed_over() {
    let config = Config {
        domain: vec![
            domain("one.example", "k1", Vec::new()),
            domain("two.example", "k2", vec![record("a", "A", 300)]),
            domain("three.example", "k3", Vec::new()),
        ],
    };
    let (reports, calls) =
        run(config, both(), &mut |_| HttpOutcome::from_status(200, body(&[V4], 300)));
    assert_eq!(reports, vec![report(1, 0, Outcome::NoChangeNeeded)]);
    assert_eq!(calls.len(), 1);
    assert_eq!(calls[0].authorization, "Apikey k2");
}

#[test]
fn steps_walk_the_states_of_a_record() {
    let mut reconciler = Reconciler::new(example(), only_v4());
    assert_eq!(reconciler.state(), State::Ready);
    assert_eq!(reconciler.position(), (0, 0));
    let first = reconciler.step(None);
    assert_eq!(first.report, None);
    assert_eq!(first.request.unwrap().call, Call::Fetch);
    assert_eq!(reconciler.state(), State::Fetching);
    let second = reconciler.step(answer(404, ""));
    assert_eq!(second.report, None);
    assert_eq!(second.request.unwrap().call, Call::Create);
    assert_eq!(reconciler.state(), State::Writing(TakinaState::CreateRecord));
    assert_eq!(reconciler.position(), (0, 0));
    let third = reconciler.step(answer(201, ""));
    assert_eq!(third, Step { report: Some(report(0, 0, Outcome::Created)), request: None });
    assert_eq!(reconciler.state(), State::Ready);
    assert_eq!(reconciler.position(), (0, 1));
    assert!(!reconciler.is_finished());
    assert_eq!(reconciler.step(None), Step { report: None, request: None });
    assert_eq!(reconciler.position(), (1, 0));
    assert!(reconciler.is_finished());
    assert_eq!(reconciler.step(None), Step { report: None, request: None });
    assert_eq!(reconciler.position(), (1, 0));
}

#[test]
fn steps_of_an_aborted_domain_report_one_record_each() {
    let config = Config {
        domain: vec![domain("one.example", "k1", vec![record("a", "A", 300), record("b", "A", 300)])],
    };
    let mut reconciler = Reconciler::new(config, both());
    reconciler.step(None);
    let hit = reconciler.step(answer(403, ""));
    assert_eq!(hit, Step { report: Some(report(0, 0, aborted(FatalCause::Forbidden))), request: None });
    assert_eq!(reconciler.state(), State::Aborted(FatalCause::Forbidden));
    let next = reconciler.step(answer(200, "ignored"));
    assert_eq!(next, Step { report: Some(report(0, 1, aborted(FatalCause::Forbidden))), request: None });
    assert_eq!(reconciler.step(None), Step { report: None, request: None });
    assert_eq!(reconciler.state(), State::Ready);
    assert!(reconciler.is_finished());
}

#[test]
fn a_run_takes_at_most_three_steps_a_record_and_one_a_domain() {
    let config = Config {
        domain: vec![
            domain("one.example", "k1", vec![record("a", "A", 300), record("b", "AAAA", 300)]),
            domain("two.example", "k2", vec![record("c", "A", 300)]),
        ],
    };
    let mut reconciler = Reconciler::new(config, both());
    let mut steps = 0;
    let mut event = None;
    while !reconciler.is_finished() {
        let step = reconciler.step(event.take());
        steps += 1;
        event = step.request.map(|request| match request.call {
            Call::Fetch => HttpOutcome::from_status(404, String::new()),
            _ => HttpOutcome::from_status(201, String::new()),
        });
    }
    assert_eq!(steps, 3 * 3 + 2);
}

#[test]
fn reconciler_keeps_its_inputs() {
    let mut reconciler = Reconciler::new(example(), only_v4());
    reconciler.advance(None);
    reconciler.advance(answer(404, ""));
    assert_eq!(reconciler.config().domain.len(), 1);
    assert_eq!(reconciler.config().domain()[0].name(), "example.com");
    assert_eq!(reconciler.addresses(), &only_v4());
}

#[test]
fn decisions_by_remote_state() {
    let www = record("www", "A", 300);
    let values = || vec![V4.to_string()];
    assert_eq!(decide(&www, V4, RemoteState::NotFound), Decision::Create(values(), 300));
    assert_eq!(
        decide(&www, V4, RemoteState::Found(GandiRecord::new(values(), 300))),
        Decision::NoChangeNeeded
    );
    assert_eq!(
        decide(&www, V4, RemoteState::Found(GandiRecord::new(values(), 3600))),
        Decision::Update(values(), 300)
    );
    assert_eq!(
        decide(&www, V4, RemoteState::Found(GandiRecord::new(vec!["198.51.100.1".to_string()], 300))),
        Decision::Update(values(), 300)
    );
    assert_eq!(
        decide(&www, V4, RemoteState::Fatal(FatalCause::BadApiKey)),
        Decision::Skip(SkipReason::DomainAborted(FatalCause::BadApiKey))
    );
    assert_eq!(
        decide(&www, V4, RemoteState::Fatal(FatalCause::Forbidden)),
        Decision::Skip(SkipReason::DomainAborted(FatalCause::Forbidden))
    );
    assert_eq!(
        decide(&www, V4, RemoteState::Unexpected(502, "bad gateway".to_string())),
        Decision::Skip(SkipReason::UnexpectedStatus(502))
    );
    assert_eq!(
        decide(&www, V4, RemoteState::TransportFailure("dns".to_string())),
        Decision::Skip(SkipReason::TransportFailure)
    );
    assert_eq!(
        decide(&www, V4, RemoteState::Malformed("{}".to_string())),
        Decision::Skip(SkipReason::MalformedResponse)
    );
}

#[test]
fn turns_by_state() {
    let www = record("www", "A", 300);
    let six = record("www", "AAAA", 300);
    let v4 = only_v4();
    assert_eq!(record_turn(&www, &v4, State::Ready, None), Turn::Ask(State::Fetching, Call::Fetch, None));
    assert_eq!(
        record_turn(&www, &v4, State::Ready, answer(401, "")),
        Turn::Ask(State::Fetching, Call::Fetch, None)
    );
    assert_eq!(
        record_turn(&www, &v4, State::Fetching, answer(404, "")),
        Turn::Ask(State::Writing(TakinaState::CreateRecord), Call::Create, payload(V4, 300))
    );
    assert_eq!(
        record_turn(&www, &v4, State::Fetching, answer(200, &body(&["x"], 300))),
        Turn::Ask(State::Writing(TakinaState::DiffRecord), Call::Update, payload(V4, 300))
    );
    assert_eq!(
        record_turn(&www, &v4, State::Writing(TakinaState::DiffRecord), answer(201, "")),
        Turn::Settle(Outcome::Updated)
    );
    assert_eq!(
        record_turn(&www, &v4, State::Aborted(FatalCause::Forbidden), answer(201, "")),
        Turn::Settle(aborted(FatalCause::Forbidden))
    );
    for state in [State::Ready, State::Fetching, State::Writing(TakinaState::CreateRecord)] {
        assert_eq!(
            record_turn(&six, &v4, state, answer(201, "")),
            Turn::Settle(Outcome::Skip(SkipReason::FamilyDisabled))
        );
    }
}
