//! What the service manager reports when a job is gone.

use vstd::prelude::*;
use crate::config::JobResult;

verus! {

/// A report as it arrives: the unit's name and the word for how its job
/// ended.
#[derive(Clone, Debug, PartialEq, Eq)]
pub struct JobRemoved {
    pub unit: String,
    pub result: String,
}

/// A report whose result was understood.
#[derive(Clone, Debug, PartialEq, Eq)]
pub struct LifecycleEvent {
    pub unit_name: String,
    pub result: JobResult,
}

/// Why a report was not understood.
#[derive(Clone, Copy, Debug, PartialEq, Eq, Structural)]
pub enum DecodeError {
    /// The word for the result names no job result.
    UnknownResult,
}

/// What a `JobRemoved` holds.
pub struct Record {
    pub unit: Seq<char>,
    pub result: Seq<char>,
}

/// What a `LifecycleEvent` holds.
pub struct Lifecycle {
    pub unit_name: Seq<char>,
    pub result: JobResult,
}

impl View for JobRemoved {
    type V = Record;

    open spec fn view(&self) -> Record {
        Record { unit: self.unit@, result: self.result@ }
    }
}

impl View for LifecycleEvent {
    type V = Lifecycle;

    open spec fn view(&self) -> Lifecycle {
        Lifecycle { unit_name: self.unit_name@, result: self.result }
    }
}

impl Record {
    /// Whether the record's result is one of the six words.
    pub open spec fn well_formed(self) -> bool {
        JobResult::from_token(self.result) is Some
    }

    /// The event that a well-formed record reports.
    pub open spec fn event(self) -> Lifecycle
        recommends
            self.well_formed(),
    {
        Lifecycle { unit_name: self.unit, result: JobResult::from_token(self.result)->0 }
    }
}

impl JobRemoved {
    /// The event that this report stands for, if its result is one of the
    /// six words for a job result.
    pub fn decode(&self) -> (r: Result<LifecycleEvent, DecodeError>)
        ensures
            r is Ok <==> self@.well_formed(),
            r matches Ok(event) ==> event@ == self@.event(),
            r matches Err(e) ==> e == DecodeError::UnknownResult,
    {
        match JobResult::parse(self.result.as_str()) {
            Some(result) => Ok(LifecycleEvent { unit_name: self.unit.clone(), result }),
            None => Err(DecodeError::UnknownResult),
        }
    }
}

} // verus!
