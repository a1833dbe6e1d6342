//! Config constraints: a rule's trigger block together with the
//! requires/forbids option checks it imposes on other applications.

use vstd::prelude::*;

use crate::juju::Application;
use crate::juju::Bundle;

use super::VerificationResult;
use super::outcome_of;

verus! {

/// One requires/forbids entry: the option name to check on the named
/// other application, and the optional exact value expected of it. With
/// no value the check is existence-only.
pub struct ConfigValue {
    pub name: String,
    pub value: Option<String>,
}

/// One constraint of a requires/forbids mapping: the name of the
/// application the check targets, and the check itself. The mapping is
/// kept as a sequence sorted by application name, so evaluation order,
/// and with it the first failure reported, is deterministic.
pub struct ConfigEntry {
    pub application: String,
    pub check: ConfigValue,
}

/// The reason reported when a required option is absent.
pub open spec fn reason_missing(app: Seq<char>, name: Seq<char>) -> Seq<char> {
    app + " / "@ + name + " has a missing config value"@
}

/// The reason reported when a required option holds a value other than
/// the expected one.
pub open spec fn reason_invalid_requires(
    app: Seq<char>,
    name: Seq<char>,
    actual: Seq<char>,
    expected: Seq<char>,
) -> Seq<char> {
    app + " / "@ + name + " has an invalid config value ("@ + actual + "), requires "@ + expected
}

/// The reason reported when a forbidden option holds exactly the
/// forbidden value.
pub open spec fn reason_invalid_forbids(
    app: Seq<char>,
    name: Seq<char>,
    actual: Seq<char>,
    expected: Seq<char>,
) -> Seq<char> {
    app + " / "@ + name + " has an invalid config value ("@ + actual + "), forbids "@ + expected
}

/// The reason reported when an existence-only forbidden option exists.
pub open spec fn reason_extra_forbids(app: Seq<char>, name: Seq<char>, actual: Seq<char>) -> Seq<
    char,
> {
    app + " / "@ + name + " has an extra config value, forbids "@ + actual
}

/// One *requires* check against the topology: `None` for a pass, `Some`
/// of the failure reason otherwise. An application absent from the
/// topology never fails a check: the check is not applicable.
pub open spec fn spec_check_requires(bundle: Bundle, app_name: Seq<char>, cv: ConfigValue) -> Option<
    Seq<char>,
> {
    match bundle.spec_application(app_name) {
        None => None,
        Some(app) => match app.spec_option(cv.name@) {
            None => Some(reason_missing(app_name, cv.name@)),
            Some(actual) => match cv.value {
                None => None,
                Some(expected) => if actual == expected@ {
                    None
                } else {
                    Some(reason_invalid_requires(app_name, cv.name@, actual, expected@))
                },
            },
        },
    }
}

/// One *forbids* check against the topology: `None` for a pass, `Some`
/// of the failure reason otherwise. An absent application, or an absent
/// option, leaves nothing to forbid.
pub open spec fn spec_check_forbids(bundle: Bundle, app_name: Seq<char>, cv: ConfigValue) -> Option<
    Seq<char>,
> {
    match bundle.spec_application(app_name) {
        None => None,
        Some(app) => match app.spec_option(cv.name@) {
            None => None,
            Some(actual) => match cv.value {
                None => Some(reason_extra_forbids(app_name, cv.name@, actual)),
                Some(expected) => if actual == expected@ {
                    Some(reason_invalid_forbids(app_name, cv.name@, actual, expected@))
                } else {
                    None
                },
            },
        },
    }
}

/// Short-circuiting fold of *requires* checks: the first failing entry's
/// reason, or `None` when every entry passes.
pub open spec fn spec_check_requires_list(bundle: Bundle, entries: Seq<ConfigEntry>) -> Option<
    Seq<char>,
>
    decreases entries.len(),
{
    if entries.len() == 0 {
        None
    } else {
        match spec_check_requires(bundle, entries[0].application@, entries[0].check) {
            Some(m) => Some(m),
            None => spec_check_requires_list(bundle, entries.skip(1)),
        }
    }
}

/// Short-circuiting fold of *forbids* checks: the first failing entry's
/// reason, or `None` when every entry passes.
pub open spec fn spec_check_forbids_list(bundle: Bundle, entries: Seq<ConfigEntry>) -> Option<
    Seq<char>,
>
    decreases entries.len(),
{
    if entries.len() == 0 {
        None
    } else {
        match spec_check_forbids(bundle, entries[0].application@, entries[0].check) {
            Some(m) => Some(m),
            None => spec_check_forbids_list(bundle, entries.skip(1)),
        }
    }
}

/// A rule's trigger block: the option on the triggering application and
/// the exact value that activates the checks, together with the nested
/// requires/forbids constraints on other applications.
pub struct Config {
    pub config_name: String,
    pub config_value: String,
    pub requires: Vec<ConfigEntry>,
    pub forbids: Vec<ConfigEntry>,
}

fn fail_missing(app: &String, name: &String) -> (r: String)
    ensures
        r@ == reason_missing(app@, name@),
{
    let mut s = app.clone();
    s.append(" / ");
    s.append(name.as_str());
    s.append(" has a missing config value");
    s
}

fn fail_invalid_requires(app: &String, name: &String, actual: &String, expected: &String) -> (r:
    String)
    ensures
        r@ == reason_invalid_requires(app@, name@, actual@, expected@),
{
    let mut s = app.clone();
    s.append(" / ");
    s.append(name.as_str());
    s.append(" has an invalid config value (");
    s.append(actual.as_str());
    s.append("), requires ");
    s.append(expected.as_str());
    s
}

fn fail_invalid_forbids(app: &String, name: &String, actual: &String, expected: &String) -> (r:
    String)
    ensures
        r@ == reason_invalid_forbids(app@, name@, actual@, expected@),
{
    let mut s = app.clone();
    s.append(" / ");
    s.append(name.as_str());
    s.append(" has an invalid config value (");
    s.append(actual.as_str());
    s.append("), forbids ");
    s.append(expected.as_str());
    s
}

fn fail_extra_forbids(app: &String, name: &String, actual: &String) -> (r: String)
    ensures
        r@ == reason_extra_forbids(app@, name@, actual@),
{
    let mut s = app.clone();
    s.append(" / ");
    s.append(name.as_str());
    s.append(" has an extra config value, forbids ");
    s.append(actual.as_str());
    s
}

impl Config {
    /// What the trigger block concludes: `None` unless the trigger option of
    /// `application` holds exactly `config_value` and one of the nested
    /// checks fails, in which case the first failure's reason.
    pub open spec fn spec_verify(self, application: Application, bundle: Bundle) -> Option<
        Seq<char>,
    > {
        match application.spec_option(self.config_name@) {
            None => None,
            Some(v) => if v == self.config_value@ {
                match spec_check_requires_list(bundle, self.requires@) {
                    Some(m) => Some(m),
                    None => spec_check_forbids_list(bundle, self.forbids@),
                }
            } else {
                None
            },
        }
    }

    /// Runs every *requires* entry, in order, against the topology,
    /// stopping at the first failure.
    fn verify_required(&self, bundle: &Bundle) -> (r: VerificationResult)
        ensures
            outcome_of(r) == spec_check_requires_list(*bundle, self.requires@),
    {
        let n = self.requires.len();
        let mut i: usize = 0;
        proof {
            assert(self.requires@.skip(0) =~= self.requires@);
        }
        while i < n
            invariant
                n == self.requires@.len(),
                i <= n,
                spec_check_requires_list(*bundle, self.requires@) == spec_check_requires_list(
                    *bundle,
                    self.requires@.skip(i as int),
                ),
            decreases n - i,
        {
            let entry = &self.requires[i];
            if let Some(other_app) = bundle.application(entry.application.as_str()) {
                match other_app.option(entry.check.name.as_str()) {
                    Some(value) => {
                        if let Some(expected) = &entry.check.value {
                            if !(*value == *expected) {
                                return VerificationResult::Fail {
                                    reason: fail_invalid_requires(
                                        &entry.application,
                                        &entry.check.name,
                                        value,
                                        expected,
                                    ),
                                };
                            }
                        }
                    },
                    None => {
                        return VerificationResult::Fail {
                            reason: fail_missing(&entry.application, &entry.check.name),
                        };
                    },
                }
            }
            proof {
                assert(self.requires@.skip(i as int).skip(1) =~= self.requires@.skip(i as int + 1));
            }
            i = i + 1;
        }
        VerificationResult::Pass
    }

    /// Runs every *forbids* entry, in order, against the topology,
    /// stopping at the first failure.
    fn verify_forbids(&self, bundle: &Bundle) -> (r: VerificationResult)
        ensures
            outcome_of(r) == spec_check_forbids_list(*bundle, self.forbids@),
    {
        let n = self.forbids.len();
        let mut i: usize = 0;
        proof {
            assert(self.forbids@.skip(0) =~= self.forbids@);
        }
        while i < n
            invariant
                n == self.forbids@.len(),
                i <= n,
                spec_check_forbids_list(*bundle, self.forbids@) == spec_check_forbids_list(
                    *bundle,
                    self.forbids@.skip(i as int),
                ),
            decreases n - i,
        {
            let entry = &self.forbids[i];
            if let Some(other_app) = bundle.application(entry.application.as_str()) {
                if let Some(value) = other_app.option(entry.check.name.as_str()) {
                    match &entry.check.value {
                        Some(expected) => {
                            if *value == *expected {
                                return VerificationResult::Fail {
                                    reason: fail_invalid_forbids(
                                        &entry.application,
                                        &entry.check.name,
                                        value,
                                        expected,
                                    ),
                                };
                            }
                        },
                        None => {
                            return VerificationResult::Fail {
                                reason: fail_extra_forbids(
                                    &entry.application,
                                    &entry.check.name,
                                    value,
                                ),
                            };
                        },
                    }
                }
            }
            proof {
                assert(self.forbids@.skip(i as int).skip(1) =~= self.forbids@.skip(i as int + 1));
            }
            i = i + 1;
        }
        VerificationResult::Pass
    }

    /// Evaluates this trigger block against `application` (the rule's
    /// triggering application) and the topology: a pass unless the
    /// trigger option holds exactly `config_value`, in which case all
    /// nested requires checks run, then all forbids checks, in order,
    /// stopping at the first failure.
    pub fn verify(&self, application: &Application, bundle: &Bundle) -> (r: VerificationResult)
        ensures
            outcome_of(r) == self.spec_verify(*application, *bundle),
    {
        let value = match application.option(self.config_name.as_str()) {
            Some(v) => v,
            None => {
                return VerificationResult::Pass;
            },
        };
        if !(*value == self.config_value) {
            return VerificationResult::Pass;
        }
        match self.verify_required(bundle) {
            VerificationResult::Fail { reason } => {
                return VerificationResult::Fail { reason };
            },
            VerificationResult::Pass => {},
        }
        self.verify_forbids(bundle)
    }
}

/// A *requires* constraint on an option that exists, with no expected
/// value, always passes: existence alone satisfies it.
pub proof fn requires_existing_option_passes(
    bundle: Bundle,
    app_name: Seq<char>,
    cv: ConfigValue,
    app: Application,
    actual: Seq<char>,
)
    requires
        cv.value is None,
        bundle.spec_application(app_name) == Some(app),
        app.spec_option(cv.name@) == Some(actual),
    ensures
        spec_check_requires(bundle, app_name, cv) is None,
{
}

/// A *requires* constraint on an option that exists with a value other
/// than the expected one always fails, with the invalid-config reason.
pub proof fn requires_mismatched_value_fails(
    bundle: Bundle,
    app_name: Seq<char>,
    cv: ConfigValue,
    app: Application,
    actual: Seq<char>,
    expected: String,
)
    requires
        cv.value == Some(expected),
        bundle.spec_application(app_name) == Some(app),
        app.spec_option(cv.name@) == Some(actual),
        actual != expected@,
    ensures
        spec_check_requires(bundle, app_name, cv) == Some(
            reason_invalid_requires(app_name, cv.name@, actual, expected@),
        ),
{
}

/// An existence-only *forbids* constraint fails whenever the option
/// exists, whatever value it holds.
pub proof fn forbids_existing_option_fails(
    bundle: Bundle,
    app_name: Seq<char>,
    cv: ConfigValue,
    app: Application,
    actual: Seq<char>,
)
    requires
        cv.value is None,
        bundle.spec_application(app_name) == Some(app),
        app.spec_option(cv.name@) == Some(actual),
    ensures
        spec_check_forbids(bundle, app_name, cv) == Some(
            reason_extra_forbids(app_name, cv.name@, actual),
        ),
{
}

} // verus!
