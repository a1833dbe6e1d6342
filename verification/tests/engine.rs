//! Scenario tests for the evaluation engine: trigger gating, exact
//! failure messages, relation matching, determinism, and the report
//! aggregator.

use bundle_lint::juju::AppEntry;
use bundle_lint::juju::Application;
use bundle_lint::juju::Bundle;
use bundle_lint::juju::EndpointPair;
use bundle_lint::juju::Machine;
use bundle_lint::juju::MachineEntry;
use bundle_lint::juju::OptionEntry;
use bundle_lint::rule::verify;
use bundle_lint::rule::Config;
use bundle_lint::rule::ConfigDetail;
use bundle_lint::rule::ConfigEntry;
use bundle_lint::rule::ConfigValue;
use bundle_lint::rule::Relation;
use bundle_lint::JujuLintError;
use bundle_lint::Failure;
use bundle_lint::Rule;
use bundle_lint::VerificationResult;

fn application(charm: &str, options: Vec<(&str, &str)>) -> Application {
    Application {
        charm: charm.to_string(),
        num_units: 1,
        to: vec![],
        options: options
            .into_iter()
            .map(|(name, value)| OptionEntry {
                name: name.to_string(),
                value: value.to_string(),
            })
            .collect(),
    }
}

fn pair(first: &str, second: &str) -> EndpointPair {
    EndpointPair {
        first: first.to_string(),
        second: second.to_string(),
    }
}

/// Topology: `app-a{opt=on}`, `app-b{opt2=yes}`, one relation
/// `{a:x, b:y}`.
fn topology() -> Bundle {
    Bundle {
        series: Some("focal".to_string()),
        applications: vec![
            AppEntry {
                name: "app-a".to_string(),
                application: application("cs:app-a", vec![("opt", "on")]),
            },
            AppEntry {
                name: "app-b".to_string(),
                application: application("cs:app-b", vec![("opt2", "yes")]),
            },
        ],
        machines: vec![],
        relations: vec![pair("a:x", "b:y")],
    }
}

fn triggered_rule(requires: Vec<ConfigEntry>, forbids: Vec<ConfigEntry>) -> Rule {
    Rule {
        charm_name: "app-a".to_string(),
        config: Config {
            config_name: "opt".to_string(),
            config_value: "on".to_string(),
            requires,
            forbids,
        },
        relations: vec![],
    }
}

fn entry(application: &str, name: &str, value: Option<&str>) -> ConfigEntry {
    ConfigEntry {
        application: application.to_string(),
        check: ConfigValue {
            name: name.to_string(),
            value: value.map(|v| v.to_string()),
        },
    }
}

fn relation_rule(relation: Relation) -> Rule {
    Rule {
        charm_name: "app-a".to_string(),
        config: Config {
            config_name: "opt".to_string(),
            config_value: "on".to_string(),
            requires: vec![],
            forbids: vec![],
        },
        relations: vec![relation],
    }
}

#[test]
fn forbids_matching_value_fails_with_invalid_message() {
    let rule = triggered_rule(vec![], vec![entry("app-b", "opt2", Some("yes"))]);
    assert_eq!(
        rule.verify(&topology()),
        VerificationResult::Fail {
            reason: "app-b / opt2 has an invalid config value (yes), forbids yes".into()
        }
    );
}

#[test]
fn forbids_existence_only_fails_with_extra_message() {
    let rule = triggered_rule(vec![], vec![entry("app-b", "opt2", None)]);
    assert_eq!(
        rule.verify(&topology()),
        VerificationResult::Fail {
            reason: "app-b / opt2 has an extra config value, forbids yes".into()
        }
    );
}

#[test]
fn forbids_other_value_passes() {
    let rule = triggered_rule(vec![], vec![entry("app-b", "opt2", Some("no"))]);
    assert_eq!(rule.verify(&topology()), VerificationResult::Pass);
}

#[test]
fn requires_on_absent_application_passes() {
    let rule = triggered_rule(vec![entry("app-c", "opt3", None)], vec![]);
    assert_eq!(rule.verify(&topology()), VerificationResult::Pass);
}

#[test]
fn forbids_on_absent_application_passes() {
    let rule = triggered_rule(vec![], vec![entry("app-c", "opt3", None)]);
    assert_eq!(rule.verify(&topology()), VerificationResult::Pass);
}

#[test]
fn requires_missing_option_fails_with_missing_message() {
    let rule = triggered_rule(vec![entry("app-b", "opt3", None)], vec![]);
    assert_eq!(
        rule.verify(&topology()),
        VerificationResult::Fail {
            reason: "app-b / opt3 has a missing config value".into()
        }
    );
}

#[test]
fn requires_existing_option_without_value_passes() {
    let rule = triggered_rule(vec![entry("app-b", "opt2", None)], vec![]);
    assert_eq!(rule.verify(&topology()), VerificationResult::Pass);
}

#[test]
fn requires_mismatched_value_fails_with_invalid_message() {
    let rule = triggered_rule(vec![entry("app-b", "opt2", Some("no"))], vec![]);
    assert_eq!(
        rule.verify(&topology()),
        VerificationResult::Fail {
            reason: "app-b / opt2 has an invalid config value (yes), requires no".into()
        }
    );
}

#[test]
fn rule_with_absent_trigger_application_passes() {
    let mut rule = triggered_rule(vec![], vec![entry("app-b", "opt2", None)]);
    rule.charm_name = "app-z".to_string();
    assert_eq!(rule.verify(&topology()), VerificationResult::Pass);
}

#[test]
fn rule_with_other_trigger_value_passes() {
    let mut rule = triggered_rule(vec![], vec![entry("app-b", "opt2", None)]);
    rule.config.config_value = "off".to_string();
    assert_eq!(rule.verify(&topology()), VerificationResult::Pass);
}

#[test]
fn rule_with_absent_trigger_option_passes() {
    let mut rule = triggered_rule(vec![], vec![entry("app-b", "opt2", None)]);
    rule.config.config_name = "nope".to_string();
    assert_eq!(rule.verify(&topology()), VerificationResult::Pass);
}

#[test]
fn required_relation_present_passes() {
    let rule = relation_rule(Relation {
        config: None,
        requires: vec![pair("a:x", "b:y")],
        forbids: vec![],
    });
    assert_eq!(rule.verify(&topology()), VerificationResult::Pass);
}

#[test]
fn required_relation_endpoint_order_is_insignificant() {
    let rule = relation_rule(Relation {
        config: None,
        requires: vec![pair("b:y", "a:x")],
        forbids: vec![],
    });
    assert_eq!(rule.verify(&topology()), VerificationResult::Pass);
}

#[test]
fn required_relation_absent_fails_with_missing_message() {
    let rule = relation_rule(Relation {
        config: None,
        requires: vec![pair("a:x", "c:z")],
        forbids: vec![],
    });
    assert_eq!(
        rule.verify(&topology()),
        VerificationResult::Fail {
            reason: "Required relation(s) missing: [a:x, c:z]".into()
        }
    );
}

#[test]
fn forbidden_relation_present_fails_with_present_message() {
    let rule = relation_rule(Relation {
        config: None,
        requires: vec![],
        forbids: vec![pair("b:y", "a:x")],
    });
    assert_eq!(
        rule.verify(&topology()),
        VerificationResult::Fail {
            reason: "Forbidden relation(s) present: [a:x, b:y]".into()
        }
    );
}

#[test]
fn forbidden_relation_lists_every_match() {
    let mut bundle = topology();
    bundle.relations.push(pair("b:y", "a:x"));
    let rule = relation_rule(Relation {
        config: None,
        requires: vec![],
        forbids: vec![pair("a:x", "b:y")],
    });
    assert_eq!(
        rule.verify(&bundle),
        VerificationResult::Fail {
            reason: "Forbidden relation(s) present: [a:x, b:y], [b:y, a:x]".into()
        }
    );
}

#[test]
fn forbidden_relation_absent_passes() {
    let rule = relation_rule(Relation {
        config: None,
        requires: vec![],
        forbids: vec![pair("a:x", "c:z")],
    });
    assert_eq!(rule.verify(&topology()), VerificationResult::Pass);
}

#[test]
fn gated_relation_with_matching_gate_runs_checks() {
    let rule = relation_rule(Relation {
        config: Some(ConfigDetail {
            name: "opt".to_string(),
            value: "on".to_string(),
        }),
        requires: vec![pair("a:x", "c:z")],
        forbids: vec![],
    });
    assert_eq!(
        rule.verify(&topology()),
        VerificationResult::Fail {
            reason: "Required relation(s) missing: [a:x, c:z]".into()
        }
    );
}

#[test]
fn gated_relation_with_other_gate_value_is_skipped() {
    let rule = relation_rule(Relation {
        config: Some(ConfigDetail {
            name: "opt".to_string(),
            value: "off".to_string(),
        }),
        requires: vec![pair("a:x", "c:z")],
        forbids: vec![],
    });
    assert_eq!(rule.verify(&topology()), VerificationResult::Pass);
}

#[test]
fn gated_relation_with_absent_gate_option_is_skipped() {
    let rule = relation_rule(Relation {
        config: Some(ConfigDetail {
            name: "nope".to_string(),
            value: "on".to_string(),
        }),
        requires: vec![pair("a:x", "c:z")],
        forbids: vec![],
    });
    assert_eq!(rule.verify(&topology()), VerificationResult::Pass);
}

#[test]
fn evaluation_is_idempotent() {
    let bundle = topology();
    let failing = triggered_rule(vec![], vec![entry("app-b", "opt2", Some("yes"))]);
    let passing = triggered_rule(vec![entry("app-b", "opt2", None)], vec![]);
    assert_eq!(failing.verify(&bundle), failing.verify(&bundle));
    assert_eq!(passing.verify(&bundle), passing.verify(&bundle));

    let rules = vec![failing, passing];
    let first = verify(&bundle, &rules);
    let second = verify(&bundle, &rules);
    assert_eq!(first.passing, second.passing);
    assert_eq!(first.failures.len(), second.failures.len());
    for (a, b) in first.failures.iter().zip(second.failures.iter()) {
        assert_eq!(a.charm_name, b.charm_name);
        assert_eq!(a.reason, b.reason);
    }
}

#[test]
fn report_collects_failures_in_rule_order() {
    let bundle = topology();
    let rules = vec![
        triggered_rule(vec![], vec![entry("app-b", "opt2", Some("yes"))]),
        triggered_rule(vec![entry("app-b", "opt2", None)], vec![]),
        triggered_rule(vec![entry("app-b", "opt3", None)], vec![]),
    ];
    let report = verify(&bundle, &rules);
    assert!(!report.passing);
    assert_eq!(report.failures.len(), 2);
    assert_eq!(report.failures[0].charm_name, "app-a");
    assert_eq!(
        report.failures[0].reason,
        "app-b / opt2 has an invalid config value (yes), forbids yes"
    );
    assert_eq!(
        report.failures[1].reason,
        "app-b / opt3 has a missing config value"
    );
}

#[test]
fn report_on_all_passing_rules_passes() {
    let bundle = topology();
    let rules = vec![
        triggered_rule(vec![entry("app-b", "opt2", None)], vec![]),
        triggered_rule(vec![], vec![entry("app-b", "opt2", Some("no"))]),
    ];
    let report = verify(&bundle, &rules);
    assert!(report.passing);
    assert_eq!(report.failures.len(), 0);
}

#[test]
fn report_on_empty_rule_list_passes() {
    let report = verify(&topology(), &vec![]);
    assert!(report.passing);
    assert_eq!(report.failures.len(), 0);
}

#[test]
fn failure_line_has_the_printed_form() {
    let failure = Failure {
        charm_name: "app-a".to_string(),
        reason: "app-b / opt2 has an extra config value, forbids yes".into(),
    };
    assert_eq!(
        failure.line(),
        "app-a rule failed: app-b / opt2 has an extra config value, forbids yes"
    );
}

#[test]
fn lint_error_message() {
    assert_eq!(JujuLintError::LintFailure.message(), "Bundle failed lint");
    assert_eq!(JujuLintError::LintFailure, JujuLintError::LintFailure);
}

#[test]
fn application_option_looks_values_up() {
    let app = application("cs:app-a", vec![("opt", "on"), ("other", "off")]);
    assert_eq!(app.option("opt"), Some(&"on".to_string()));
    assert_eq!(app.option("other"), Some(&"off".to_string()));
    assert_eq!(app.option("missing"), None);
}

#[test]
fn bundle_application_looks_applications_up() {
    let bundle = topology();
    assert!(bundle.application("app-a").is_some());
    assert_eq!(bundle.application("app-a").unwrap().charm, "cs:app-a");
    assert!(bundle.application("app-z").is_none());
}

#[test]
fn machines_round_trip_through_the_bundle() {
    let mut bundle = topology();
    bundle.machines.push(MachineEntry {
        id: "0".to_string(),
        machine: Machine {
            series: Some("focal".to_string()),
            constraints: Some("virt-type=kvm".to_string()),
        },
    });
    assert_eq!(
        bundle.machines[0].machine.constraints.as_deref(),
        Some("virt-type=kvm")
    );
}
