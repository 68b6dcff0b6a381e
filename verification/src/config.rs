//! The policy model: what to notify about, for which services, and how.

use vstd::prelude::*;
use crate::text::str_eq;

verus! {

/// How insistently a notification is shown.
#[derive(Clone, Copy, Debug, PartialEq, Eq, Structural)]
pub enum Urgency {
    Low,
    Normal,
    Critical,
}

/// How a job of the service manager ended.
#[derive(Clone, Copy, Debug, PartialEq, Eq, Structural)]
pub enum JobResult {
    Done,
    Canceled,
    Timeout,
    Failed,
    Dependency,
    Skipped,
}

/// A word that names no variant.
#[derive(Clone, Copy, Debug, PartialEq, Eq, Structural)]
pub enum ParseError {
    VariantNotFound,
}

/// What parsing gives for a word that names `found`, or nothing.
pub open spec fn parsed<T>(found: Option<T>) -> Result<T, ParseError> {
    match found {
        Some(value) => Ok(value),
        None => Err(ParseError::VariantNotFound),
    }
}

impl Urgency {
    /// The word for this urgency in a configuration file.
    pub open spec fn token(self) -> Seq<char> {
        match self {
            Urgency::Low => "low"@,
            Urgency::Normal => "normal"@,
            Urgency::Critical => "critical"@,
        }
    }

    /// The urgency that a word names, if any.
    pub open spec fn from_token(word: Seq<char>) -> Option<Urgency> {
        if word == "low"@ {
            Some(Urgency::Low)
        } else if word == "normal"@ {
            Some(Urgency::Normal)
        } else if word == "critical"@ {
            Some(Urgency::Critical)
        } else {
            None
        }
    }

    /// The number by which notification services know this urgency.
    pub open spec fn level_spec(self) -> u8 {
        match self {
            Urgency::Low => 0,
            Urgency::Normal => 1,
            Urgency::Critical => 2,
        }
    }

    /// The word for this urgency.
    pub fn as_str(self) -> (word: &'static str)
        ensures
            word@ == self.token(),
    {
        match self {
            Urgency::Low => "low",
            Urgency::Normal => "normal",
            Urgency::Critical => "critical",
        }
    }

    /// The urgency that `word` names, if it names one.
    pub fn parse(word: &str) -> (r: Option<Urgency>)
        ensures
            r == Urgency::from_token(word@),
    {
        if str_eq(word, "low") {
            Some(Urgency::Low)
        } else if str_eq(word, "normal") {
            Some(Urgency::Normal)
        } else if str_eq(word, "critical") {
            Some(Urgency::Critical)
        } else {
            None
        }
    }

    /// The number by which notification services know this urgency.
    #[verifier::when_used_as_spec(level_spec)]
    pub fn level(self) -> (n: u8)
        ensures
            n == self.level_spec(),
    {
        match self {
            Urgency::Low => 0,
            Urgency::Normal => 1,
            Urgency::Critical => 2,
        }
    }
}

impl std::str::FromStr for Urgency {
    type Err = ParseError;

    fn from_str(word: &str) -> (r: Result<Urgency, ParseError>)
        ensures
            r == parsed(Urgency::from_token(word@)),
    {
        match Urgency::parse(word) {
            Some(u) => Ok(u),
            None => Err(ParseError::VariantNotFound),
        }
    }
}

impl JobResult {
    /// The word for this result, as the service manager sends it and as a
    /// configuration file writes it.
    pub open spec fn token(self) -> Seq<char> {
        match self {
            JobResult::Done => "done"@,
            JobResult::Canceled => "canceled"@,
            JobResult::Timeout => "timeout"@,
            JobResult::Failed => "failed"@,
            JobResult::Dependency => "dependency"@,
            JobResult::Skipped => "skipped"@,
        }
    }

    /// The result that a word names, if any.
    pub open spec fn from_token(word: Seq<char>) -> Option<JobResult> {
        if word == "done"@ {
            Some(JobResult::Done)
        } else if word == "canceled"@ {
            Some(JobResult::Canceled)
        } else if word == "timeout"@ {
            Some(JobResult::Timeout)
        } else if word == "failed"@ {
            Some(JobResult::Failed)
        } else if word == "dependency"@ {
            Some(JobResult::Dependency)
        } else if word == "skipped"@ {
            Some(JobResult::Skipped)
        } else {
            None
        }
    }

    /// The word for this result.
    pub fn as_str(self) -> (word: &'static str)
        ensures
            word@ == self.token(),
    {
        match self {
            JobResult::Done => "done",
            JobResult::Canceled => "canceled",
            JobResult::Timeout => "timeout",
            JobResult::Failed => "failed",
            JobResult::Dependency => "dependency",
            JobResult::Skipped => "skipped",
        }
    }

    /// The result that `word` names, if it names one.
    pub fn parse(word: &str) -> (r: Option<JobResult>)
        ensures
            r == JobResult::from_token(word@),
    {
        if str_eq(word, "done") {
            Some(JobResult::Done)
        } else if str_eq(word, "canceled") {
            Some(JobResult::Canceled)
        } else if str_eq(word, "timeout") {
            Some(JobResult::Timeout)
        } else if str_eq(word, "failed") {
            Some(JobResult::Failed)
        } else if str_eq(word, "dependency") {
            Some(JobResult::Dependency)
        } else if str_eq(word, "skipped") {
            Some(JobResult::Skipped)
        } else {
            None
        }
    }
}

impl std::str::FromStr for JobResult {
    type Err = ParseError;

    fn from_str(word: &str) -> (r: Result<JobResult, ParseError>)
        ensures
            r == parsed(JobResult::from_token(word@)),
    {
        match JobResult::parse(word) {
            Some(k) => Ok(k),
            None => Err(ParseError::VariantNotFound),
        }
    }
}

/// Every urgency is named by its own word and by no other's.
pub proof fn lemma_urgency_token_round_trip(u: Urgency)
    ensures
        Urgency::from_token(u.token()) == Some(u),
{
    reveal_strlit("low");
    reveal_strlit("normal");
    reveal_strlit("critical");
    assert("low"@.len() == 3 && "normal"@.len() == 6 && "critical"@.len() == 8);
}

/// Every job result is named by its own word and by no other's.
pub proof fn lemma_job_result_token_round_trip(k: JobResult)
    ensures
        JobResult::from_token(k.token()) == Some(k),
{
    reveal_strlit("done");
    reveal_strlit("canceled");
    reveal_strlit("timeout");
    reveal_strlit("failed");
    reveal_strlit("dependency");
    reveal_strlit("skipped");
    assert("done"@.len() == 4 && "canceled"@.len() == 8 && "timeout"@.len() == 7);
    assert("failed"@.len() == 6 && "dependency"@.len() == 10 && "skipped"@.len() == 7);
    assert("timeout"@[0] == 't' && "skipped"@[0] == 's');
}

/// A word that names a job result is that result's word.
pub proof fn lemma_job_result_word_is_token(word: Seq<char>)
    ensures
        JobResult::from_token(word) matches Some(k) ==> k.token() == word,
{
}

/// A word that names an urgency is that urgency's word.
pub proof fn lemma_urgency_word_is_token(word: Seq<char>)
    ensures
        Urgency::from_token(word) matches Some(u) ==> u.token() == word,
{
}

/// What governs the notifications about a service: how long one is shown,
/// how insistently, and after which job results one is shown at all.
pub struct Policy {
    pub timeout: u32,
    pub urgency: Urgency,
    pub notify_on: Seq<JobResult>,
}

impl Policy {
    /// Whether a job that ended with `result` is notified about.
    pub open spec fn accepts(self, result: JobResult) -> bool {
        self.notify_on.contains(result)
    }

    /// The policy of one that names nothing: five seconds, normal urgency,
    /// failures only.
    pub open spec fn library_default() -> Policy {
        Policy { timeout: 5000, urgency: Urgency::Normal, notify_on: seq![JobResult::Failed] }
    }
}

/// A pattern for service names and the policy for the names it matches.
pub struct Rule {
    pub pattern: Seq<char>,
    pub policy: Policy,
}

/// What a `Config` holds.
pub struct ConfigView {
    pub check_on_startup: bool,
    pub defaults: Policy,
    pub rules: Seq<Rule>,
}

impl ConfigView {
    /// Whether every rule has a pattern of at least one character.
    pub open spec fn well_formed(self) -> bool {
        forall|i: int| 0 <= i < self.rules.len() ==> (#[trigger] self.rules[i]).pattern.len() > 0
    }
}

/// The policy for services that no rule matches.
#[derive(Clone, Debug, PartialEq, Eq)]
pub struct Defaults {
    /// Milliseconds.
    pub timeout: u32,
    pub urgency: Urgency,
    pub notify_on: Vec<JobResult>,
}

/// One rule: the policy for the services whose names `name` matches.
#[derive(Clone, Debug, PartialEq, Eq)]
pub struct Service {
    pub name: String,
    /// Milliseconds.
    pub timeout: u32,
    pub urgency: Urgency,
    pub notify_on: Vec<JobResult>,
}

/// The whole configuration. The order of `services` counts: of the rules
/// that match a name the first one applies.
#[derive(Clone, Debug, PartialEq, Eq)]
pub struct Config {
    pub check_on_startup: bool,
    pub defaults: Defaults,
    pub services: Vec<Service>,
}

impl View for Defaults {
    type V = Policy;

    open spec fn view(&self) -> Policy {
        Policy { timeout: self.timeout, urgency: self.urgency, notify_on: self.notify_on@ }
    }
}

impl View for Service {
    type V = Rule;

    open spec fn view(&self) -> Rule {
        Rule {
            pattern: self.name@,
            policy: Policy {
                timeout: self.timeout,
                urgency: self.urgency,
                notify_on: self.notify_on@,
            },
        }
    }
}

/// The rules that a list of services stands for, in the same order.
pub open spec fn rules_of(services: Seq<Service>) -> Seq<Rule> {
    Seq::new(services.len(), |i: int| services[i]@)
}

impl View for Config {
    type V = ConfigView;

    open spec fn view(&self) -> ConfigView {
        ConfigView {
            check_on_startup: self.check_on_startup,
            defaults: self.defaults@,
            rules: rules_of(self.services@),
        }
    }
}

/// A copy of a list of job results.
pub fn copy_results(list: &Vec<JobResult>) -> (copy: Vec<JobResult>)
    ensures
        copy@ == list@,
{
    let mut copy: Vec<JobResult> = Vec::new();
    let mut i: usize = 0;
    while i < list.len()
        invariant
            i <= list.len(),
            copy@ == list@.subrange(0, i as int),
        decreases list.len() - i,
    {
        copy.push(list[i]);
        proof {
            assert(copy@ =~= list@.subrange(0, i + 1));
        }
        i += 1;
    }
    proof {
        assert(list@.subrange(0, list.len() as int) =~= list@);
    }
    copy
}

/// Whether `result` is one of `list`.
pub fn has_result(list: &Vec<JobResult>, result: JobResult) -> (found: bool)
    ensures
        found == list@.contains(result),
{
    let mut i: usize = 0;
    while i < list.len()
        invariant
            i <= list.len(),
            forall|j: int| 0 <= j < i ==> list@[j] != result,
        decreases list.len() - i,
    {
        if list[i] == result {
            return true;
        }
        i += 1;
    }
    false
}

/// Whether an absent `check_on_startup` means yes.
pub fn default_true() -> (yes: bool)
    ensures
        yes,
{
    true
}

/// The timeout, in milliseconds, of a policy that names none.
pub fn default_timeout() -> (ms: u32)
    ensures
        ms == 5000,
{
    5000
}

/// The urgency of a policy that names none.
pub fn default_urgency() -> (urgency: Urgency)
    ensures
        urgency == Urgency::Normal,
{
    Urgency::Normal
}

/// The job results that a policy notifies about if it names none.
pub fn default_notify_on() -> (list: Vec<JobResult>)
    ensures
        list@ == seq![JobResult::Failed],
{
    let mut list: Vec<JobResult> = Vec::new();
    list.push(JobResult::Failed);
    proof {
        assert(list@ =~= seq![JobResult::Failed]);
    }
    list
}

/// The defaults of a configuration that states none.
pub fn default_defaults() -> (defaults: Defaults)
    ensures
        defaults@ == Policy::library_default(),
{
    Defaults {
        timeout: default_timeout(),
        urgency: default_urgency(),
        notify_on: default_notify_on(),
    }
}

/// The rules of a configuration that states none.
pub fn default_services() -> (services: Vec<Service>)
    ensures
        services@.len() == 0,
{
    Vec::new()
}

} // verus!
