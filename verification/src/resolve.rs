//! From a service name to the policy that applies to it.

use vstd::prelude::*;
use crate::config::{copy_results, Config, ConfigView, JobResult, Policy, Rule, Urgency};
use crate::pattern::{matches_name, pattern_matches};

verus! {

/// The policy found for one service name.
#[derive(Clone, Debug, PartialEq, Eq)]
pub struct ResolvedPolicy {
    /// Milliseconds.
    pub timeout: u32,
    pub urgency: Urgency,
    pub notify_on: Vec<JobResult>,
}

impl View for ResolvedPolicy {
    type V = Policy;

    open spec fn view(&self) -> Policy {
        Policy { timeout: self.timeout, urgency: self.urgency, notify_on: self.notify_on@ }
    }
}

/// Whether the rule at `index` matches `name` and none before it does.
pub open spec fn is_first_match(rules: Seq<Rule>, name: Seq<char>, index: int) -> bool {
    &&& 0 <= index < rules.len()
    &&& pattern_matches(rules[index].pattern, name)
    &&& forall|j: int| 0 <= j < index ==> !pattern_matches(#[trigger] rules[j].pattern, name)
}

/// Whether no rule matches `name`.
pub open spec fn no_match(rules: Seq<Rule>, name: Seq<char>) -> bool {
    forall|j: int| 0 <= j < rules.len() ==> !pattern_matches(#[trigger] rules[j].pattern, name)
}

/// The place of the first rule that matches `name`, if any does.
pub open spec fn first_match(rules: Seq<Rule>, name: Seq<char>) -> Option<int> {
    if exists|i: int| is_first_match(rules, name, i) {
        Some(choose|i: int| is_first_match(rules, name, i))
    } else {
        None
    }
}

/// The policy for `name`: that of the first rule that matches it, as the
/// rule states it; the defaults if no rule matches. Nothing but their order
/// ranks the rules.
pub open spec fn resolve_policy(config: ConfigView, name: Seq<char>) -> Policy {
    match first_match(config.rules, name) {
        Some(i) => config.rules[i].policy,
        None => config.defaults,
    }
}

/// The rules with those at `i` and `j` in each other's places.
pub open spec fn swapped(rules: Seq<Rule>, i: int, j: int) -> Seq<Rule>
    recommends
        0 <= i < rules.len(),
        0 <= j < rules.len(),
{
    rules.update(i, rules[j]).update(j, rules[i])
}

/// At most one place is that of the first match, and it is the one that
/// `first_match` gives.
pub proof fn lemma_first_match_is_unique(rules: Seq<Rule>, name: Seq<char>, index: int)
    requires
        is_first_match(rules, name, index),
    ensures
        first_match(rules, name) == Some(index),
{
    let k = choose|i: int| is_first_match(rules, name, i);
    if k < index {
        assert(!pattern_matches(rules[k].pattern, name));
    }
    if index < k {
        assert(!pattern_matches(rules[index].pattern, name));
    }
}

/// Where no rule matches, there is no first match; where one matches,
/// there is.
pub proof fn lemma_first_match_exists(rules: Seq<Rule>, name: Seq<char>)
    ensures
        first_match(rules, name) is None <==> no_match(rules, name),
        first_match(rules, name) matches Some(i) ==> is_first_match(rules, name, i),
{
    if exists|i: int| is_first_match(rules, name, i) {
        let i = choose|i: int| is_first_match(rules, name, i);
        assert(pattern_matches(rules[i].pattern, name));
    } else if !no_match(rules, name) {
        let j = choose|j: int|
            0 <= j < rules.len() && pattern_matches(#[trigger] rules[j].pattern, name);
        lemma_some_match_has_a_first(rules, name, j);
    }
}

/// If the rule at `upto` matches, some rule at or before it is the first to.
proof fn lemma_some_match_has_a_first(rules: Seq<Rule>, name: Seq<char>, upto: int)
    requires
        0 <= upto < rules.len(),
        pattern_matches(rules[upto].pattern, name),
    ensures
        exists|i: int| is_first_match(rules, name, i),
    decreases upto,
{
    if exists|j: int| 0 <= j < upto && pattern_matches(#[trigger] rules[j].pattern, name) {
        let j = choose|j: int| 0 <= j < upto && pattern_matches(#[trigger] rules[j].pattern, name);
        lemma_some_match_has_a_first(rules, name, j);
    } else {
        assert(is_first_match(rules, name, upto));
    }
}

/// The policy that applies to the service `unit_name`.
pub fn resolve(config: &Config, unit_name: &str) -> (policy: ResolvedPolicy)
    ensures
        policy@ == resolve_policy(config@, unit_name@),
{
    let mut i: usize = 0;
    while i < config.services.len()
        invariant
            i <= config.services.len(),
            forall|j: int|
                0 <= j < i ==> !pattern_matches(#[trigger] config@.rules[j].pattern, unit_name@),
        decreases config.services.len() - i,
    {
        let service = &config.services[i];
        if matches_name(service.name.as_str(), unit_name) {
            proof {
                assert(config@.rules[i as int] == service@);
                lemma_first_match_is_unique(config@.rules, unit_name@, i as int);
            }
            return ResolvedPolicy {
                timeout: service.timeout,
                urgency: service.urgency,
                notify_on: copy_results(&service.notify_on),
            };
        }
        proof {
            assert(config@.rules[i as int] == service@);
        }
        i += 1;
    }
    proof {
        lemma_first_match_exists(config@.rules, unit_name@);
    }
    ResolvedPolicy {
        timeout: config.defaults.timeout,
        urgency: config.defaults.urgency,
        notify_on: copy_results(&config.defaults.notify_on),
    }
}

/// With no rules at all, every name gets the defaults.
pub proof fn lemma_no_rules_gives_defaults(config: ConfigView, name: Seq<char>)
    requires
        config.rules.len() == 0,
    ensures
        resolve_policy(config, name) == config.defaults,
{
    lemma_first_match_exists(config.rules, name);
}

/// A name that no rule matches gets the defaults.
pub proof fn lemma_unmatched_gives_defaults(config: ConfigView, name: Seq<char>)
    requires
        no_match(config.rules, name),
    ensures
        resolve_policy(config, name) == config.defaults,
{
    lemma_first_match_exists(config.rules, name);
}

/// A name gets the policy of the first rule that matches it, whatever the
/// rules after that one say and whatever the defaults are.
pub proof fn lemma_first_match_wins(config: ConfigView, name: Seq<char>, index: int)
    requires
        is_first_match(config.rules, name, index),
    ensures
        resolve_policy(config, name) == config.rules[index].policy,
{
    lemma_first_match_is_unique(config.rules, name, index);
}

/// What stands after the first rule that matches a name, and what the
/// defaults are, has no bearing on the policy that the name gets.
pub proof fn lemma_rules_after_a_match_are_hidden(
    config: ConfigView,
    other: ConfigView,
    name: Seq<char>,
    index: int,
)
    requires
        is_first_match(config.rules, name, index),
        index < other.rules.len(),
        forall|j: int| 0 <= j <= index ==> other.rules[j] == config.rules[j],
    ensures
        resolve_policy(other, name) == resolve_policy(config, name),
{
    assert(is_first_match(other.rules, name, index));
    lemma_first_match_is_unique(config.rules, name, index);
    lemma_first_match_is_unique(other.rules, name, index);
}

/// Two rules change places and a name matches at most one of them: the
/// name gets the policy it got before, provided that, where one of the two
/// is matched and no rule before them is, no rule between them is either.
pub proof fn lemma_swap_of_disjoint_rules(config: ConfigView, name: Seq<char>, i: int, j: int)
    requires
        0 <= i < j < config.rules.len(),
        !(pattern_matches(config.rules[i].pattern, name) && pattern_matches(
            config.rules[j].pattern,
            name,
        )),
        (pattern_matches(config.rules[i].pattern, name) || pattern_matches(
            config.rules[j].pattern,
            name,
        )) && (forall|k: int| 0 <= k < i ==> !pattern_matches(
            #[trigger] config.rules[k].pattern,
            name,
        )) ==> forall|k: int|
            i < k < j ==> !pattern_matches(#[trigger] config.rules[k].pattern, name),
    ensures
        resolve_policy(ConfigView { rules: swapped(config.rules, i, j), ..config }, name)
            == resolve_policy(config, name),
{
    let rules = config.rules;
    let after = swapped(rules, i, j);
    let moved = ConfigView { rules: after, ..config };
    lemma_first_match_exists(rules, name);
    match first_match(rules, name) {
        None => {
            assert forall|k: int| 0 <= k < after.len() implies !pattern_matches(
                #[trigger] after[k].pattern,
                name,
            ) by {
                let from = if k == i {
                    j
                } else if k == j {
                    i
                } else {
                    k
                };
                assert(after[k] == rules[from]);
                assert(!pattern_matches(rules[from].pattern, name));
            }
            lemma_unmatched_gives_defaults(moved, name);
        },
        Some(f) => {
            // Where the rule that won stands after the exchange.
            let g = if f == i {
                j
            } else if f == j {
                i
            } else {
                f
            };
            assert(after[g] == rules[f]);
            assert forall|k: int| 0 <= k < g implies !pattern_matches(
                #[trigger] after[k].pattern,
                name,
            ) by {
                // Where the rule at `k` stood before the exchange.
                let from = if k == i {
                    j
                } else if k == j {
                    i
                } else {
                    k
                };
                assert(after[k] == rules[from]);
                assert(!pattern_matches(rules[from].pattern, name));
            }
            assert(is_first_match(after, name, g));
            lemma_first_match_wins(moved, name, g);
        },
    }
}

/// Two rules that both match a name change places, and no rule before them
/// matches it: before the exchange the name gets the policy of the one,
/// after it that of the other.
pub proof fn lemma_swap_of_overlapping_rules(config: ConfigView, name: Seq<char>, i: int, j: int)
    requires
        0 <= i < j < config.rules.len(),
        pattern_matches(config.rules[i].pattern, name),
        pattern_matches(config.rules[j].pattern, name),
        forall|k: int| 0 <= k < i ==> !pattern_matches(#[trigger] config.rules[k].pattern, name),
    ensures
        resolve_policy(config, name) == config.rules[i].policy,
        resolve_policy(ConfigView { rules: swapped(config.rules, i, j), ..config }, name)
            == config.rules[j].policy,
{
    let after = swapped(config.rules, i, j);
    let moved = ConfigView { rules: after, ..config };
    lemma_first_match_wins(config, name, i);
    assert(after[i] == config.rules[j]);
    assert forall|k: int| 0 <= k < i implies !pattern_matches(
        #[trigger] after[k].pattern,
        name,
    ) by {
        assert(after[k] == config.rules[k]);
    }
    lemma_first_match_wins(moved, name, i);
}

} // verus!
