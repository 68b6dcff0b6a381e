use std::str::FromStr;

use sdshout::config::{Config, Defaults, JobResult, Service, Urgency};
use sdshout::document::{ConfigError, DefaultsEntry, Document, ServiceEntry};

fn key<'a>(table: &'a toml::Table, underscored: &str) -> Option<&'a toml::Value> {
    table.get(underscored).or_else(|| table.get(&underscored.replace('_', "-")))
}

fn results(value: &toml::Value) -> Vec<JobResult> {
    value
        .as_array()
        .unwrap()
        .iter()
        .map(|word| JobResult::from_str(word.as_str().unwrap()).unwrap())
        .collect()
}

fn timeout(table: &toml::Table) -> Option<u32> {
    key(table, "timeout").map(|v| u32::try_from(v.as_integer().unwrap()).unwrap())
}

fn urgency(table: &toml::Table) -> Option<Urgency> {
    key(table, "urgency").map(|v| Urgency::from_str(v.as_str().unwrap()).unwrap())
}

/// The document that a text in TOML holds.
fn read(text: &str) -> Document {
    let table: toml::Table = toml::from_str(text).unwrap();
    Document {
        check_on_startup: key(&table, "check_on_startup").map(|v| v.as_bool().unwrap()),
        defaults: key(&table, "defaults").map(|v| {
            let section = v.as_table().unwrap();
            DefaultsEntry {
                timeout: timeout(section),
                urgency: urgency(section),
                notify_on: key(section, "notify_on").map(results),
            }
        }),
        services: key(&table, "services").map(|v| {
            v.as_array()
                .unwrap()
                .iter()
                .map(|entry| {
                    let entry = entry.as_table().unwrap();
                    ServiceEntry {
                        name: key(entry, "name").map(|v| String::from(v.as_str().unwrap())),
                        timeout: timeout(entry),
                        urgency: urgency(entry),
                        notify_on: key(entry, "notify_on").map(results),
                    }
                })
                .collect()
        }),
    }
}

fn load(text: &str) -> Result<Config, ConfigError> {
    Config::from_document(&read(text))
}

#[test]
fn empty() {
    let config: Config = load("").unwrap();
    assert!(config.check_on_startup);
    assert_eq!(
        config.defaults,
        Defaults {
            timeout: 5000,
            urgency: Urgency::Normal,
            notify_on: vec![JobResult::Failed],
        }
    );
}

#[test]
fn partial_defaults_section() {
    let config: Config = load(
        r#"
            [defaults]
            timeout = 200
        "#,
    )
    .unwrap();
    assert_eq!(
        config.defaults,
        Defaults {
            timeout: 200,
            urgency: Urgency::Normal,
            notify_on: vec![JobResult::Failed],
        }
    );
}

#[test]
fn defaults_urgency() {
    let config: Config = load(
        r#"
            [defaults]
            urgency = "critical"
        "#,
    )
    .unwrap();
    assert_eq!(config.defaults.urgency, Urgency::Critical);
}

#[test]
fn minimal_service() {
    let config: Config = load(
        r#"
            [[services]]
            name = "foo"
        "#,
    )
    .unwrap();
    assert_eq!(config.services.len(), 1);
    let service = config.services.first().unwrap();
    assert_eq!(
        service,
        &Service {
            name: String::from("foo"),
            timeout: 5000,
            urgency: Urgency::Normal,
            notify_on: vec![JobResult::Failed],
        }
    )
}

#[test]
fn maximal_service() {
    let config: Config = load(
        r#"
            [[services]]
            name = "foo"
            timeout = 123
            urgency = "low"
            notify_on = ["done", "skipped"]
        "#,
    )
    .unwrap();
    assert_eq!(config.services.len(), 1);
    let service = config.services.first().unwrap();
    assert_eq!(
        service,
        &Service {
            name: String::from("foo"),
            timeout: 123,
            urgency: Urgency::Low,
            notify_on: vec![JobResult::Done, JobResult::Skipped],
        }
    )
}

#[test]
fn three_services() {
    let config: Config = load(
        r#"
            [[services]]
            name = "one"

            [[services]]
            name = "two"

            [[services]]
            name = "three"
        "#,
    )
    .unwrap();

    let names: Vec<String> = config.services.into_iter().map(|s| s.name).collect();
    assert_eq!(names, vec!["one", "two", "three"]);
}

#[test]
fn service_without_name() {
    let err = load(
        r#"
            [[services]]
        "#,
    )
    .unwrap_err();
    assert_eq!(err.message(), "missing field `name`");
}

#[test]
fn the_first_entry_without_a_name_is_reported() {
    let text = r#"
        [[services]]
        name = "one"

        [[services]]
        timeout = 1

        [[services]]
        name = "three"

        [[services]]
        urgency = "low"
    "#;
    assert_eq!(load(text), Err(ConfigError::MissingName { index: 1 }));
    assert_eq!(load("[[services]]"), Err(ConfigError::MissingName { index: 0 }));
}

#[test]
fn an_empty_name_is_rejected() {
    let err = load("[[services]]\nname = \"\"").unwrap_err();
    assert_eq!(err, ConfigError::EmptyName { index: 0 });
    assert_eq!(err.message(), "empty field `name`");
    let text = r#"
        [[services]]
        name = "*"

        [[services]]
        name = ""

        [[services]]
    "#;
    assert_eq!(load(text), Err(ConfigError::EmptyName { index: 1 }));
    let text = r#"
        [[services]]

        [[services]]
        name = ""
    "#;
    assert_eq!(load(text), Err(ConfigError::MissingName { index: 0 }));
}

#[test]
fn every_stated_value_is_kept() {
    let text = r#"
        check-on-startup = false

        [defaults]
        timeout = 0
        urgency = "critical"
        notify-on = []

        [[services]]
        name = "postfix"
        timeout = 4294967295
        urgency = "low"
        notify-on = ["done", "canceled", "timeout", "failed", "dependency", "skipped"]

        [[services]]
        name = "*"
        timeout = 5000
        urgency = "normal"
        notify-on = ["failed"]
    "#;
    let expected = Config {
        check_on_startup: false,
        defaults: Defaults { timeout: 0, urgency: Urgency::Critical, notify_on: vec![] },
        services: vec![
            Service {
                name: String::from("postfix"),
                timeout: 4294967295,
                urgency: Urgency::Low,
                notify_on: vec![
                    JobResult::Done,
                    JobResult::Canceled,
                    JobResult::Timeout,
                    JobResult::Failed,
                    JobResult::Dependency,
                    JobResult::Skipped,
                ],
            },
            Service {
                name: String::from("*"),
                timeout: 5000,
                urgency: Urgency::Normal,
                notify_on: vec![JobResult::Failed],
            },
        ],
    };
    assert_eq!(load(text), Ok(expected));
}

#[test]
fn an_entry_takes_nothing_from_the_defaults_section() {
    let text = r#"
        [defaults]
        timeout = 1
        urgency = "critical"
        notify_on = ["done"]

        [[services]]
        name = "sshd"
    "#;
    let config = load(text).unwrap();
    assert_eq!(
        config.defaults,
        Defaults { timeout: 1, urgency: Urgency::Critical, notify_on: vec![JobResult::Done] }
    );
    assert_eq!(
        config.services,
        vec![Service {
            name: String::from("sshd"),
            timeout: 5000,
            urgency: Urgency::Normal,
            notify_on: vec![JobResult::Failed],
        }]
    );
}

#[test]
fn an_empty_list_is_not_a_missing_list() {
    let config = load("[[services]]\nname = \"a\"\nnotify_on = []").unwrap();
    assert_eq!(config.services[0].notify_on, vec![]);
    let config = load("services = []").unwrap();
    assert!(config.services.is_empty());
}

#[test]
fn check_on_startup_as_stated() {
    assert!(load("check_on_startup = true").unwrap().check_on_startup);
    assert!(!load("check_on_startup = false").unwrap().check_on_startup);
}

#[test]
fn defaults_from_a_section() {
    let section = DefaultsEntry { timeout: None, urgency: Some(Urgency::Low), notify_on: None };
    assert_eq!(
        Defaults::from_entry(&section),
        Defaults { timeout: 5000, urgency: Urgency::Low, notify_on: vec![JobResult::Failed] }
    );
}

#[test]
fn a_service_from_an_entry() {
    let unnamed = ServiceEntry { name: None, timeout: Some(1), urgency: None, notify_on: None };
    assert_eq!(Service::from_entry(&unnamed), None);
    let nameless = ServiceEntry { name: Some(String::new()), ..unnamed };
    assert_eq!(Service::from_entry(&nameless), None);
    let named = ServiceEntry {
        name: Some(String::from("foo*")),
        timeout: None,
        urgency: None,
        notify_on: Some(vec![]),
    };
    assert_eq!(
        Service::from_entry(&named),
        Some(Service {
            name: String::from("foo*"),
            timeout: 5000,
            urgency: Urgency::Normal,
            notify_on: vec![],
        })
    );
}
