//! A configuration as its author wrote it, where every field may have been
//! left out, and the configuration that it stands for.

use vstd::prelude::*;
use vstd::string::*;
use crate::config::{
    copy_results, default_defaults, default_notify_on, default_services, default_timeout,
    default_true, default_urgency, Config, ConfigView, Defaults, JobResult, Policy,
    Rule, Service, Urgency,
};

verus! {

/// The `defaults` section as written.
#[derive(Clone, Debug, PartialEq, Eq)]
pub struct DefaultsEntry {
    pub timeout: Option<u32>,
    pub urgency: Option<Urgency>,
    pub notify_on: Option<Vec<JobResult>>,
}

/// One entry of `services` as written.
#[derive(Clone, Debug, PartialEq, Eq)]
pub struct ServiceEntry {
    pub name: Option<String>,
    pub timeout: Option<u32>,
    pub urgency: Option<Urgency>,
    pub notify_on: Option<Vec<JobResult>>,
}

/// A whole configuration as written.
#[derive(Clone, Debug, PartialEq, Eq)]
pub struct Document {
    pub check_on_startup: Option<bool>,
    pub defaults: Option<DefaultsEntry>,
    pub services: Option<Vec<ServiceEntry>>,
}

/// Why a document stands for no configuration.
#[derive(Clone, Copy, Debug, PartialEq, Eq, Structural)]
pub enum ConfigError {
    /// The entry of `services` at `index`, counted from 0, has no `name`.
    MissingName { index: usize },
    /// The entry of `services` at `index`, counted from 0, has a `name`
    /// without a character in it.
    EmptyName { index: usize },
}

impl ConfigError {
    /// The error in words.
    pub open spec fn message_text(self) -> Seq<char> {
        match self {
            ConfigError::MissingName { .. } => "missing field `name`"@,
            ConfigError::EmptyName { .. } => "empty field `name`"@,
        }
    }

    /// The error in words.
    pub fn message(&self) -> (text: String)
        ensures
            text@ == self.message_text(),
    {
        match self {
            ConfigError::MissingName { .. } => String::from_str("missing field `name`"),
            ConfigError::EmptyName { .. } => String::from_str("empty field `name`"),
        }
    }
}

/// The policy that three fields as written stand for: each one that was
/// left out takes the library's value for it, whatever the others hold.
pub open spec fn merged(
    timeout: Option<u32>,
    urgency: Option<Urgency>,
    notify_on: Option<Vec<JobResult>>,
) -> Policy {
    Policy {
        timeout: match timeout {
            Some(ms) => ms,
            None => Policy::library_default().timeout,
        },
        urgency: match urgency {
            Some(u) => u,
            None => Policy::library_default().urgency,
        },
        notify_on: match notify_on {
            Some(list) => list@,
            None => Policy::library_default().notify_on,
        },
    }
}

impl DefaultsEntry {
    /// The policy that this section stands for.
    pub open spec fn policy(self) -> Policy {
        merged(self.timeout, self.urgency, self.notify_on)
    }
}

impl ServiceEntry {
    /// Whether the entry has a name of at least one character.
    pub open spec fn named(self) -> bool {
        self.name matches Some(name) && name@.len() > 0
    }

    /// The rule that this entry stands for, if it is named. An entry takes
    /// nothing from the `defaults` section.
    pub open spec fn rule(self) -> Rule
        recommends
            self.named(),
    {
        Rule {
            pattern: self.name->0@,
            policy: merged(self.timeout, self.urgency, self.notify_on),
        }
    }
}

/// Whether the entry at `index` is not named and all before it are.
pub open spec fn first_unnamed(entries: Seq<ServiceEntry>, index: int) -> bool {
    &&& 0 <= index < entries.len()
    &&& !entries[index].named()
    &&& forall|j: int| 0 <= j < index ==> (#[trigger] entries[j]).named()
}

/// Whether every entry is named.
pub open spec fn all_named(entries: Seq<ServiceEntry>) -> bool {
    forall|j: int| 0 <= j < entries.len() ==> (#[trigger] entries[j]).named()
}

impl Document {
    /// The entries of `services`; none if the list was left out.
    pub open spec fn entries(self) -> Seq<ServiceEntry> {
        match self.services {
            Some(list) => list@,
            None => Seq::empty(),
        }
    }

    /// The configuration that this document stands for, if all its entries
    /// are named.
    pub open spec fn config(self) -> ConfigView
        recommends
            all_named(self.entries()),
    {
        ConfigView {
            check_on_startup: match self.check_on_startup {
                Some(b) => b,
                None => true,
            },
            defaults: match self.defaults {
                Some(section) => section.policy(),
                None => Policy::library_default(),
            },
            rules: Seq::new(self.entries().len(), |i: int| self.entries()[i].rule()),
        }
    }
}

fn timeout_or_default(timeout: Option<u32>) -> (ms: u32)
    ensures
        ms == merged(timeout, None, None).timeout,
{
    match timeout {
        Some(ms) => ms,
        None => default_timeout(),
    }
}

fn urgency_or_default(urgency: Option<Urgency>) -> (u: Urgency)
    ensures
        u == merged(None, urgency, None).urgency,
{
    match urgency {
        Some(u) => u,
        None => default_urgency(),
    }
}

fn notify_on_or_default(notify_on: &Option<Vec<JobResult>>) -> (list: Vec<JobResult>)
    ensures
        list@ == merged(None, None, *notify_on).notify_on,
{
    match notify_on {
        Some(list) => copy_results(list),
        None => default_notify_on(),
    }
}

impl Defaults {
    /// The defaults that a `defaults` section stands for.
    pub fn from_entry(entry: &DefaultsEntry) -> (defaults: Defaults)
        ensures
            defaults@ == entry.policy(),
    {
        Defaults {
            timeout: timeout_or_default(entry.timeout),
            urgency: urgency_or_default(entry.urgency),
            notify_on: notify_on_or_default(&entry.notify_on),
        }
    }
}

impl Service {
    /// The rule that an entry stands for; none if the entry is not named.
    pub fn from_entry(entry: &ServiceEntry) -> (service: Option<Service>)
        ensures
            service is Some <==> entry.named(),
            service matches Some(s) ==> s@ == entry.rule(),
    {
        match &entry.name {
            None => None,
            Some(name) => {
                if name.as_str().is_empty() {
                    None
                } else {
                    Some(
                        Service {
                            name: name.clone(),
                            timeout: timeout_or_default(entry.timeout),
                            urgency: urgency_or_default(entry.urgency),
                            notify_on: notify_on_or_default(&entry.notify_on),
                        },
                    )
                }
            },
        }
    }
}

impl Config {
    /// The configuration that a document stands for.
    ///
    /// A document stands for one exactly if each of its `services` entries
    /// has a `name` of at least one character. Otherwise the first entry
    /// that has none is reported: as missing its name, or as having an
    /// empty one. Every field that the document states is taken as stated.
    pub fn from_document(document: &Document) -> (r: Result<Config, ConfigError>)
        ensures
            r is Ok <==> all_named(document.entries()),
            r matches Ok(config) ==> config@ == document.config() && config@.well_formed(),
            r matches Err(ConfigError::MissingName { index }) ==> first_unnamed(
                document.entries(),
                index as int,
            ) && document.entries()[index as int].name is None,
            r matches Err(ConfigError::EmptyName { index }) ==> first_unnamed(
                document.entries(),
                index as int,
            ) && document.entries()[index as int].name is Some,
    {
        let check_on_startup = match document.check_on_startup {
            Some(b) => b,
            None => default_true(),
        };
        let defaults = match &document.defaults {
            Some(section) => Defaults::from_entry(section),
            None => default_defaults(),
        };
        let mut services = default_services();
        match &document.services {
            None => {},
            Some(entries) => {
                let mut i: usize = 0;
                while i < entries.len()
                    invariant
                        i <= entries.len(),
                        entries@ == document.entries(),
                        services@.len() == i,
                        forall|j: int| 0 <= j < i ==> (#[trigger] entries@[j]).named(),
                        forall|j: int| 0 <= j < i ==> (#[trigger] services@[j])@ == entries@[j].rule(),
                    decreases entries.len() - i,
                {
                    match Service::from_entry(&entries[i]) {
                        None => {
                            return match &entries[i].name {
                                None => Err(ConfigError::MissingName { index: i }),
                                Some(_) => Err(ConfigError::EmptyName { index: i }),
                            };
                        },
                        Some(service) => {
                            services.push(service);
                        },
                    }
                    i += 1;
                }
            },
        }
        let config = Config { check_on_startup, defaults, services };
        proof {
            assert(config@.rules =~= document.config().rules);
        }
        Ok(config)
    }
}

/// A document that states every field stands for exactly what it states:
/// nothing of it is replaced by a default.
pub proof fn lemma_stated_values_are_kept(document: Document)
    requires
        document.check_on_startup is Some,
        document.defaults is Some,
        document.defaults->0.timeout is Some,
        document.defaults->0.urgency is Some,
        document.defaults->0.notify_on is Some,
        document.services is Some,
        forall|i: int|
            0 <= i < document.entries().len() ==> {
                let e = #[trigger] document.entries()[i];
                e.named() && e.timeout is Some && e.urgency is Some && e.notify_on is Some
            },
    ensures
        all_named(document.entries()),
        document.config().check_on_startup == document.check_on_startup->0,
        document.config().defaults == (Policy {
            timeout: document.defaults->0.timeout->0,
            urgency: document.defaults->0.urgency->0,
            notify_on: document.defaults->0.notify_on->0@,
        }),
        document.config().rules.len() == document.services->0@.len(),
        forall|i: int|
            0 <= i < document.entries().len() ==> {
                let e = document.entries()[i];
                #[trigger] document.config().rules[i] == (Rule {
                    pattern: e.name->0@,
                    policy: Policy {
                        timeout: e.timeout->0,
                        urgency: e.urgency->0,
                        notify_on: e.notify_on->0@,
                    },
                })
            },
{
}

/// A field that was left out of a `services` entry takes the library's
/// value, not the one of the `defaults` section.
pub proof fn lemma_entries_ignore_defaults_section(document: Document, other: Option<DefaultsEntry>)
    ensures
        (Document { defaults: other, ..document }).config().rules == document.config().rules,
{
    let changed = Document { defaults: other, ..document };
    assert(changed.entries() == document.entries());
    assert(changed.config().rules =~= document.config().rules);
}

/// The empty document stands for the library's defaults and no rules.
pub proof fn lemma_empty_document()
    ensures
        ({
            let empty = Document { check_on_startup: None, defaults: None, services: None };
            &&& all_named(empty.entries())
            &&& empty.config().check_on_startup
            &&& empty.config().defaults == Policy::library_default()
            &&& empty.config().rules.len() == 0
        }),
{
}

} // verus!
