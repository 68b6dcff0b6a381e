//! From one report of the service manager to the notification that it
//! calls for, if it calls for one.

use vstd::prelude::*;
use vstd::string::*;
use crate::config::{has_result, Config, ConfigView, JobResult};
use crate::event::{DecodeError, Lifecycle, LifecycleEvent, Record};
use crate::notify::{Notification, NotifyInfo};
use crate::resolve::{is_first_match, lemma_first_match_wins, resolve, resolve_policy};

verus! {

/// The text of the notification about a unit whose job ended with `result`:
/// `Unit`, the unit's name, `has` and the word for the result, with one
/// space between each two.
pub open spec fn message_text(unit_name: Seq<char>, result: JobResult) -> Seq<char> {
    "Unit "@ + unit_name + " has "@ + result.token()
}

/// The notification that an event calls for under a configuration: none if
/// the policy for the unit does not list the event's result; else one with
/// the text for the event and the urgency and timeout of that policy.
pub open spec fn decision(config: ConfigView, event: Lifecycle) -> Option<Notification> {
    let policy = resolve_policy(config, event.unit_name);
    if policy.accepts(event.result) {
        Some(
            Notification {
                message: message_text(event.unit_name, event.result),
                urgency: policy.urgency,
                timeout: policy.timeout,
            },
        )
    } else {
        None
    }
}

/// What a report calls for: an error if the word for its result names no
/// job result, else what the event that it stands for calls for.
pub open spec fn filtered(config: ConfigView, record: Record) -> Result<
    Option<Notification>,
    DecodeError,
> {
    if record.well_formed() {
        Ok(decision(config, record.event()))
    } else {
        Err(DecodeError::UnknownResult)
    }
}

/// What an optional notification holds.
pub open spec fn shown(info: Option<NotifyInfo>) -> Option<Notification> {
    match info {
        Some(n) => Some(n@),
        None => None,
    }
}

/// What the outcome of `filter` holds.
pub open spec fn shown_outcome(outcome: Result<Option<NotifyInfo>, DecodeError>) -> Result<
    Option<Notification>,
    DecodeError,
> {
    match outcome {
        Ok(info) => Ok(shown(info)),
        Err(e) => Err(e),
    }
}

/// The text of the notification about `unit_name` and `result`.
pub fn message(unit_name: &str, result: JobResult) -> (text: String)
    ensures
        text@ == message_text(unit_name@, result),
{
    let mut text = String::from_str("Unit ");
    text.append(unit_name);
    text.append(" has ");
    text.append(result.as_str());
    text
}

fn decide(config: &Config, unit_name: &str, result: JobResult) -> (r: Option<NotifyInfo>)
    ensures
        shown(r) == decision(config@, Lifecycle { unit_name: unit_name@, result }),
{
    let policy = resolve(config, unit_name);
    if has_result(&policy.notify_on, result) {
        Some(
            NotifyInfo {
                message: message(unit_name, result),
                urgency: policy.urgency,
                timeout: policy.timeout,
            },
        )
    } else {
        None
    }
}

/// The notification that `event` calls for under `config`, if any.
pub fn dispatch(config: &Config, event: &LifecycleEvent) -> (r: Option<NotifyInfo>)
    ensures
        shown(r) == decision(config@, event@),
{
    decide(config, event.unit_name.as_str(), event.result)
}

/// What the report of a job of `unit_name` that ended with `result` calls
/// for under `config`.
pub fn filter(config: &Config, unit_name: &str, result: &str) -> (r: Result<
    Option<NotifyInfo>,
    DecodeError,
>)
    ensures
        shown_outcome(r) == filtered(config@, Record { unit: unit_name@, result: result@ }),
{
    match JobResult::parse(result) {
        Some(kind) => Ok(decide(config, unit_name, kind)),
        None => Err(DecodeError::UnknownResult),
    }
}

/// A rule that lists no result silences every unit that it is the first to
/// match, whatever the result.
pub proof fn lemma_empty_list_silences(
    config: ConfigView,
    unit_name: Seq<char>,
    index: int,
    result: JobResult,
)
    requires
        is_first_match(config.rules, unit_name, index),
        config.rules[index].policy.notify_on.len() == 0,
    ensures
        decision(config, Lifecycle { unit_name, result }) is None,
{
    lemma_first_match_wins(config, unit_name, index);
}

/// An event is notified about exactly if the policy for its unit lists its
/// result, and then with that policy's urgency and timeout.
pub proof fn lemma_decision_follows_policy(config: ConfigView, event: Lifecycle)
    ensures
        decision(config, event) is Some <==> resolve_policy(
            config,
            event.unit_name,
        ).notify_on.contains(event.result),
        decision(config, event) matches Some(n) ==> {
            &&& n.urgency == resolve_policy(config, event.unit_name).urgency
            &&& n.timeout == resolve_policy(config, event.unit_name).timeout
            &&& n.message == message_text(event.unit_name, event.result)
        },
{
}

} // verus!
