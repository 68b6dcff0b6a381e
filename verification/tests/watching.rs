use sdshout::config::{default_defaults, Config, JobResult, Service, Urgency};
use sdshout::event::JobRemoved;
use sdshout::notify::NotifyInfo;
use sdshout::watch::{start, step, Action, Event, Problem, StartupError, State, Step};

fn config() -> Config {
    Config {
        check_on_startup: true,
        defaults: default_defaults(),
        services: vec![Service {
            name: String::from("quiet*"),
            timeout: 1,
            urgency: Urgency::Low,
            notify_on: vec![],
        }],
    }
}

fn signal(unit: &str, result: &str) -> Event {
    Event::Signal(JobRemoved { unit: String::from(unit), result: String::from(result) })
}

fn every_event() -> Vec<Event> {
    vec![
        Event::Subscribed,
        Event::ConnectionFailed,
        Event::SubscriptionFailed,
        Event::Tick,
        signal("sshd", "failed"),
        signal("sshd", "done"),
        signal("sshd", "broken"),
        signal("quiet.service", "failed"),
        Event::Undecodable,
        Event::Delivered,
        Event::DeliveryFailed,
    ]
}

fn failure_of(unit: &str) -> NotifyInfo {
    NotifyInfo {
        message: format!("Unit {} has failed", unit),
        urgency: Urgency::Normal,
        timeout: 5000,
    }
}

#[test]
fn the_watcher_begins_by_connecting() {
    assert_eq!(start(), Step { state: State::Connecting, report: None, action: Action::Connect });
}

#[test]
fn a_subscription_leads_to_watching() {
    assert_eq!(
        step(&config(), State::Connecting, &Event::Subscribed),
        Step { state: State::Watching, report: None, action: Action::Receive }
    );
}

#[test]
fn a_failed_start_is_final() {
    let c = config();
    let cases = [
        (Event::ConnectionFailed, StartupError::Connection),
        (Event::SubscriptionFailed, StartupError::Subscription),
    ];
    for (event, error) in cases {
        let failed = Step { state: State::Failed(error), report: None, action: Action::Exit(error) };
        assert_eq!(step(&c, State::Connecting, &event), failed);
        for later in every_event() {
            assert_eq!(step(&c, State::Failed(error), &later), failed);
        }
    }
}

#[test]
fn what_does_not_belong_to_connecting_changes_nothing() {
    let c = config();
    let waiting = Step { state: State::Connecting, report: None, action: Action::Connect };
    assert_eq!(step(&c, State::Connecting, &Event::Tick), waiting);
    assert_eq!(step(&c, State::Connecting, &signal("sshd", "failed")), waiting);
    assert_eq!(step(&c, State::Connecting, &Event::Undecodable), waiting);
    assert_eq!(step(&c, State::Connecting, &Event::Delivered), waiting);
    assert_eq!(step(&c, State::Connecting, &Event::DeliveryFailed), waiting);
}

#[test]
fn watching_never_ends() {
    let c = config();
    for event in every_event() {
        let next = step(&c, State::Watching, &event);
        assert_eq!(next.state, State::Watching);
        assert!(matches!(next.action, Action::Receive | Action::Notify(_)));
    }
}

#[test]
fn a_report_is_answered_by_its_notification() {
    assert_eq!(
        step(&config(), State::Watching, &signal("sshd", "failed")),
        Step { state: State::Watching, report: None, action: Action::Notify(failure_of("sshd")) }
    );
}

#[test]
fn a_suppressed_report_is_passed_over_in_silence() {
    let quiet = Step { state: State::Watching, report: None, action: Action::Receive };
    assert_eq!(step(&config(), State::Watching, &signal("sshd", "done")), quiet);
    assert_eq!(step(&config(), State::Watching, &signal("quiet.service", "failed")), quiet);
    assert_eq!(step(&config(), State::Watching, &Event::Tick), quiet);
    assert_eq!(step(&config(), State::Watching, &Event::Delivered), quiet);
}

#[test]
fn what_cannot_be_understood_is_logged() {
    let logged =
        Step { state: State::Watching, report: Some(Problem::Decode), action: Action::Receive };
    assert_eq!(step(&config(), State::Watching, &Event::Undecodable), logged);
    assert_eq!(step(&config(), State::Watching, &signal("sshd", "broken")), logged);
    assert_eq!(step(&config(), State::Watching, &signal("quiet", "")), logged);
}

#[test]
fn a_failed_delivery_is_logged() {
    assert_eq!(
        step(&config(), State::Watching, &Event::DeliveryFailed),
        Step { state: State::Watching, report: Some(Problem::Delivery), action: Action::Receive }
    );
}

/// What is sent and what is logged over a run of events, and the state at
/// its end.
fn run(c: &Config, events: &[Event]) -> (State, Vec<NotifyInfo>, Vec<Problem>) {
    let mut state = start().state;
    let mut sent = vec![];
    let mut log = vec![];
    for event in events {
        let next = step(c, state, event);
        state = next.state;
        log.extend(next.report);
        if let Action::Notify(info) = next.action {
            sent.push(info);
        }
    }
    (state, sent, log)
}

#[test]
fn the_run_goes_on_after_what_cannot_be_understood() {
    let good = vec![
        Event::Subscribed,
        signal("a", "failed"),
        Event::Delivered,
        signal("b", "failed"),
        Event::DeliveryFailed,
        signal("c", "done"),
        Event::Tick,
        signal("d", "failed"),
        Event::Delivered,
    ];
    let mut troubled = good.clone();
    troubled.insert(7, signal("d", "bang"));
    troubled.insert(3, Event::Undecodable);
    troubled.insert(1, signal("a", "Failed"));

    let (state, sent, log) = run(&config(), &good);
    assert_eq!(state, State::Watching);
    assert_eq!(sent, vec![failure_of("a"), failure_of("b"), failure_of("d")]);
    assert_eq!(log, vec![Problem::Delivery]);

    let (state, sent, log) = run(&config(), &troubled);
    assert_eq!(state, State::Watching);
    assert_eq!(sent, vec![failure_of("a"), failure_of("b"), failure_of("d")]);
    assert_eq!(log, vec![Problem::Decode, Problem::Decode, Problem::Delivery, Problem::Decode]);
}

#[test]
fn a_run_that_never_connects_sends_nothing() {
    let events = [Event::ConnectionFailed, signal("a", "failed"), Event::Subscribed];
    let (state, sent, log) = run(&config(), &events);
    assert_eq!(state, State::Failed(StartupError::Connection));
    assert_eq!(sent, vec![]);
    assert_eq!(log, vec![]);
}

#[test]
fn every_result_under_the_defaults() {
    let c = config();
    for word in ["done", "canceled", "timeout", "dependency", "skipped"] {
        let next = step(&c, State::Watching, &signal("sshd", word));
        assert_eq!(next.action, Action::Receive);
        assert_eq!(next.report, None);
    }
    assert_eq!(JobResult::Failed.as_str(), "failed");
}
