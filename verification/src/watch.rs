//! The watcher's decisions: what to do next, given where it stands and what
//! has just happened. The caller does what it is told (connects, waits,
//! sends, writes to its log) and comes back with what happened.

use vstd::prelude::*;
use crate::config::{Config, ConfigView};
use crate::event::{JobRemoved, Record};
use crate::filter::{filter, filtered};
use crate::notify::{Notification, NotifyInfo};

verus! {

/// Why the watcher could not start.
#[derive(Clone, Copy, Debug, PartialEq, Eq, Structural)]
pub enum StartupError {
    /// The message bus could not be reached.
    Connection,
    /// The service manager did not accept the subscription.
    Subscription,
}

/// Where the watcher stands.
#[derive(Clone, Copy, Debug, PartialEq, Eq, Structural)]
pub enum State {
    /// Not yet subscribed to the service manager's reports.
    Connecting,
    /// Subscribed; reports are handled as they come.
    Watching,
    /// Starting failed; nothing more will be done.
    Failed(StartupError),
}

/// Something that went wrong without stopping the watcher, for its log.
#[derive(Clone, Copy, Debug, PartialEq, Eq, Structural)]
pub enum Problem {
    /// A report could not be understood and was dropped.
    Decode,
    /// A notification could not be delivered and was dropped.
    Delivery,
}

/// What has just happened.
#[derive(Clone, Debug, PartialEq, Eq)]
pub enum Event {
    /// Connected and subscribed.
    Subscribed,
    /// The message bus could not be reached.
    ConnectionFailed,
    /// The subscription was not accepted.
    SubscriptionFailed,
    /// The wait ended without a report.
    Tick,
    /// A report arrived.
    Signal(JobRemoved),
    /// Something arrived that could not be read as a report.
    Undecodable,
    /// The notification was delivered.
    Delivered,
    /// The notification could not be delivered.
    DeliveryFailed,
}

/// What the caller is to do next.
#[derive(Clone, Debug, PartialEq, Eq)]
pub enum Action {
    /// Connect to the message bus and subscribe.
    Connect,
    /// Wait a while for the next report.
    Receive,
    /// Send this notification.
    Notify(NotifyInfo),
    /// Give up with this error.
    Exit(StartupError),
}

/// The outcome of one step.
#[derive(Clone, Debug, PartialEq, Eq)]
pub struct Step {
    pub state: State,
    /// What to write to the log before anything else is done.
    pub report: Option<Problem>,
    pub action: Action,
}

/// What an `Event` holds.
pub enum Input {
    Subscribed,
    ConnectionFailed,
    SubscriptionFailed,
    Tick,
    Signal(Record),
    Undecodable,
    Delivered,
    DeliveryFailed,
}

/// What an `Action` holds.
pub enum Output {
    Connect,
    Receive,
    Notify(Notification),
    Exit(StartupError),
}

/// What a `Step` holds.
pub struct Transition {
    pub state: State,
    pub report: Option<Problem>,
    pub action: Output,
}

impl View for Event {
    type V = Input;

    open spec fn view(&self) -> Input {
        match self {
            Event::Subscribed => Input::Subscribed,
            Event::ConnectionFailed => Input::ConnectionFailed,
            Event::SubscriptionFailed => Input::SubscriptionFailed,
            Event::Tick => Input::Tick,
            Event::Signal(report) => Input::Signal(report@),
            Event::Undecodable => Input::Undecodable,
            Event::Delivered => Input::Delivered,
            Event::DeliveryFailed => Input::DeliveryFailed,
        }
    }
}

impl View for Action {
    type V = Output;

    open spec fn view(&self) -> Output {
        match self {
            Action::Connect => Output::Connect,
            Action::Receive => Output::Receive,
            Action::Notify(info) => Output::Notify(info@),
            Action::Exit(e) => Output::Exit(*e),
        }
    }
}

impl View for Step {
    type V = Transition;

    open spec fn view(&self) -> Transition {
        Transition { state: self.state, report: self.report, action: self.action@ }
    }
}

impl Input {
    /// Whether this is something that came in and could not be understood:
    /// not a report at all, or a report whose result is no known word.
    pub open spec fn malformed(self) -> bool {
        match self {
            Input::Undecodable => true,
            Input::Signal(record) => !record.well_formed(),
            _ => false,
        }
    }
}

/// How the watcher begins: not connected, and told to connect.
pub open spec fn initial() -> Transition {
    Transition { state: State::Connecting, report: None, action: Output::Connect }
}

/// One step of the watcher.
///
/// While connecting, success leads to watching, and either failure ends
/// the watcher for good. While watching, a report that calls for a
/// notification has it sent; one that calls for none is passed over in
/// silence; what cannot be understood, and a delivery that failed, is put
/// in the log; and in every case the watcher goes on watching. Whatever
/// does not belong to the state it arrives in changes nothing.
pub open spec fn step_of(config: ConfigView, state: State, input: Input) -> Transition {
    match state {
        State::Failed(e) => Transition { state, report: None, action: Output::Exit(e) },
        State::Connecting => match input {
            Input::Subscribed => Transition {
                state: State::Watching,
                report: None,
                action: Output::Receive,
            },
            Input::ConnectionFailed => Transition {
                state: State::Failed(StartupError::Connection),
                report: None,
                action: Output::Exit(StartupError::Connection),
            },
            Input::SubscriptionFailed => Transition {
                state: State::Failed(StartupError::Subscription),
                report: None,
                action: Output::Exit(StartupError::Subscription),
            },
            _ => Transition { state, report: None, action: Output::Connect },
        },
        State::Watching => match input {
            Input::Signal(record) => match filtered(config, record) {
                Ok(Some(notification)) => Transition {
                    state,
                    report: None,
                    action: Output::Notify(notification),
                },
                Ok(None) => Transition { state, report: None, action: Output::Receive },
                Err(_) => Transition {
                    state,
                    report: Some(Problem::Decode),
                    action: Output::Receive,
                },
            },
            Input::Undecodable => Transition {
                state,
                report: Some(Problem::Decode),
                action: Output::Receive,
            },
            Input::DeliveryFailed => Transition {
                state,
                report: Some(Problem::Delivery),
                action: Output::Receive,
            },
            _ => Transition { state, report: None, action: Output::Receive },
        },
    }
}

/// Where the watcher stands after a run of inputs.
pub open spec fn state_after(config: ConfigView, state: State, inputs: Seq<Input>) -> State
    decreases inputs.len(),
{
    if inputs.len() == 0 {
        state
    } else {
        state_after(config, step_of(config, state, inputs[0]).state, inputs.drop_first())
    }
}

/// The notifications that the watcher has sent over a run of inputs, in
/// the order of sending.
pub open spec fn notified(config: ConfigView, state: State, inputs: Seq<Input>) -> Seq<
    Notification,
>
    decreases inputs.len(),
{
    if inputs.len() == 0 {
        Seq::empty()
    } else {
        let first = step_of(config, state, inputs[0]);
        let sent = match first.action {
            Output::Notify(notification) => seq![notification],
            _ => Seq::empty(),
        };
        sent + notified(config, first.state, inputs.drop_first())
    }
}

/// The first step: nothing has happened yet.
pub fn start() -> (first: Step)
    ensures
        first@ == initial(),
{
    Step { state: State::Connecting, report: None, action: Action::Connect }
}

/// What to do after `event`, which happened in `state`.
pub fn step(config: &Config, state: State, event: &Event) -> (next: Step)
    ensures
        next@ == step_of(config@, state, event@),
{
    match state {
        State::Failed(e) => Step { state, report: None, action: Action::Exit(e) },
        State::Connecting => match event {
            Event::Subscribed => Step {
                state: State::Watching,
                report: None,
                action: Action::Receive,
            },
            Event::ConnectionFailed => Step {
                state: State::Failed(StartupError::Connection),
                report: None,
                action: Action::Exit(StartupError::Connection),
            },
            Event::SubscriptionFailed => Step {
                state: State::Failed(StartupError::Subscription),
                report: None,
                action: Action::Exit(StartupError::Subscription),
            },
            _ => Step { state, report: None, action: Action::Connect },
        },
        State::Watching => match event {
            Event::Signal(report) => {
                match filter(config, report.unit.as_str(), report.result.as_str()) {
                    Ok(Some(info)) => Step { state, report: None, action: Action::Notify(info) },
                    Ok(None) => Step { state, report: None, action: Action::Receive },
                    Err(_) => Step {
                        state,
                        report: Some(Problem::Decode),
                        action: Action::Receive,
                    },
                }
            },
            Event::Undecodable => Step {
                state,
                report: Some(Problem::Decode),
                action: Action::Receive,
            },
            Event::DeliveryFailed => Step {
                state,
                report: Some(Problem::Delivery),
                action: Action::Receive,
            },
            _ => Step { state, report: None, action: Action::Receive },
        },
    }
}

/// Once watching, always watching: no input ends the watcher or sends it
/// back to connecting, and it is never told to give up.
pub proof fn lemma_watching_goes_on(config: ConfigView, input: Input)
    ensures
        step_of(config, State::Watching, input).state == State::Watching,
        !(step_of(config, State::Watching, input).action is Exit),
        !(step_of(config, State::Watching, input).action is Connect),
{
}

/// The watcher fails only while connecting, and only because the
/// connection or the subscription failed.
pub proof fn lemma_only_startup_fails(config: ConfigView, state: State, input: Input)
    requires
        !(state is Failed),
        step_of(config, state, input).state is Failed,
    ensures
        state == State::Connecting,
        input is ConnectionFailed || input is SubscriptionFailed,
{
}

/// A failed watcher stays failed and is told to give up, whatever comes.
pub proof fn lemma_failure_is_final(config: ConfigView, e: StartupError, input: Input)
    ensures
        step_of(config, State::Failed(e), input) == (Transition {
            state: State::Failed(e),
            report: None,
            action: Output::Exit(e),
        }),
{
}

/// What cannot be understood is put in the log and changes nothing else:
/// nothing is sent in its place and the watcher waits for the next report.
pub proof fn lemma_malformed_is_logged_and_dropped(config: ConfigView, input: Input)
    requires
        input.malformed(),
    ensures
        step_of(config, State::Watching, input) == (Transition {
            state: State::Watching,
            report: Some(Problem::Decode),
            action: Output::Receive,
        }),
{
}

/// A report that the policy excludes is passed over without a word in the
/// log.
pub proof fn lemma_suppressed_is_silent(config: ConfigView, record: Record)
    requires
        filtered(config, record) matches Ok(None),
    ensures
        step_of(config, State::Watching, Input::Signal(record)) == (Transition {
            state: State::Watching,
            report: None,
            action: Output::Receive,
        }),
{
}

/// A run that begins in watching ends in watching.
pub proof fn lemma_run_stays_watching(config: ConfigView, inputs: Seq<Input>)
    ensures
        state_after(config, State::Watching, inputs) == State::Watching,
    decreases inputs.len(),
{
    if inputs.len() > 0 {
        lemma_run_stays_watching(config, inputs.drop_first());
    }
}

/// What is sent over two runs in a row, while watching, is what is sent
/// over the first and then what is sent over the second.
pub proof fn lemma_notified_of_concat(config: ConfigView, a: Seq<Input>, b: Seq<Input>)
    ensures
        notified(config, State::Watching, a + b) == notified(config, State::Watching, a)
            + notified(config, State::Watching, b),
    decreases a.len(),
{
    if a.len() == 0 {
        assert(a + b =~= b);
        assert(notified(config, State::Watching, a) + notified(config, State::Watching, b)
            =~= notified(config, State::Watching, b));
    } else {
        assert((a + b).drop_first() =~= a.drop_first() + b);
        assert((a + b)[0] == a[0]);
        lemma_notified_of_concat(config, a.drop_first(), b);
        assert(notified(config, State::Watching, a + b) =~= notified(config, State::Watching, a)
            + notified(config, State::Watching, b));
    }
}

/// Something that cannot be understood, arriving anywhere in a run, leaves
/// what is sent for all the other inputs as it would have been without it.
pub proof fn lemma_malformed_input_changes_nothing_sent(
    config: ConfigView,
    before: Seq<Input>,
    bad: Input,
    after: Seq<Input>,
)
    requires
        bad.malformed(),
    ensures
        notified(config, State::Watching, before + seq![bad] + after) == notified(
            config,
            State::Watching,
            before + after,
        ),
        state_after(config, State::Watching, before + seq![bad] + after) == State::Watching,
{
    let one = seq![bad];
    lemma_notified_of_concat(config, before + one, after);
    lemma_notified_of_concat(config, before, one);
    lemma_notified_of_concat(config, before, after);
    assert(notified(config, State::Watching, one) =~= Seq::<Notification>::empty()) by {
        lemma_malformed_is_logged_and_dropped(config, bad);
        assert(one[0] == bad);
        assert(one.drop_first() =~= Seq::<Input>::empty());
        assert(notified(config, State::Watching, Seq::<Input>::empty())
            =~= Seq::<Notification>::empty());
    }
    assert(notified(config, State::Watching, before) + Seq::<Notification>::empty()
        =~= notified(config, State::Watching, before));
    lemma_run_stays_watching(config, before + one + after);
}

} // verus!
