//! The rule model and the evaluation engine: config constraints, relation
//! constraints, the per-rule evaluator, and the report aggregator.

mod config;
mod relation;

pub use config::Config;
pub use config::ConfigEntry;
pub use config::ConfigValue;
pub use config::spec_check_forbids;
pub use config::spec_check_forbids_list;
pub use config::spec_check_requires;
pub use config::spec_check_requires_list;
pub use relation::ConfigDetail;
pub use relation::Relation;
pub use relation::matching;
pub use relation::pair_contains;
pub use relation::pair_matches;
pub use relation::spec_forbidden_list;
pub use relation::spec_pair_forbidden;
pub use relation::spec_pair_required;
pub use relation::spec_required_list;
pub use relation::swapped;

use vstd::prelude::*;

use crate::juju::Application;
use crate::juju::Bundle;

verus! {

/// The outcome of one check or of one whole rule: a topology either
/// passes, or fails with a human-readable reason.
#[derive(Debug)]
pub enum VerificationResult {
    Pass,
    Fail { reason: String },
}

/// The outcome as its mathematical model: `None` for a pass, `Some` of
/// the reason's character sequence for a failure.
pub open spec fn outcome_of(r: VerificationResult) -> Option<Seq<char>> {
    match r {
        VerificationResult::Pass => None,
        VerificationResult::Fail { reason } => Some(reason@),
    }
}

impl PartialEq for VerificationResult {
    fn eq(&self, other: &Self) -> (r: bool) {
        match (self, other) {
            (VerificationResult::Pass, VerificationResult::Pass) => true,
            (
                VerificationResult::Fail { reason: a },
                VerificationResult::Fail { reason: b },
            ) => *a == *b,
            _ => false,
        }
    }
}

impl vstd::std_specs::cmp::PartialEqSpecImpl for VerificationResult {
    open spec fn obeys_eq_spec() -> bool {
        true
    }

    open spec fn eq_spec(&self, other: &Self) -> bool {
        match (self, other) {
            (VerificationResult::Pass, VerificationResult::Pass) => true,
            (
                VerificationResult::Fail { reason: a },
                VerificationResult::Fail { reason: b },
            ) => a@ == b@,
            _ => false,
        }
    }
}

/// Short-circuiting fold of a rule's relation constraints: the first
/// failing constraint's reason, or `None` when every one passes.
pub open spec fn spec_relations_list(
    application: Application,
    bundle: Bundle,
    rels: Seq<Relation>,
) -> Option<Seq<char>>
    decreases rels.len(),
{
    if rels.len() == 0 {
        None
    } else {
        match rels[0].spec_verify(application, bundle) {
            Some(m) => Some(m),
            None => spec_relations_list(application, bundle, rels.skip(1)),
        }
    }
}

/// One rule: when the trigger application's trigger option holds exactly
/// the trigger value, the nested config constraints and then the
/// relation constraints must all hold of the topology.
pub struct Rule {
    pub charm_name: String,
    pub config: Config,
    pub relations: Vec<Relation>,
}

impl Rule {
    /// Whether the rule's checks are active for `application`, the
    /// application the topology maps `charm_name` to: its trigger
    /// option must hold exactly the trigger value.
    pub open spec fn spec_triggered(self, application: Application) -> bool {
        application.spec_option(self.config.config_name@) == Some(self.config.config_value@)
    }

    /// The rule's verdict against a topology: `None` (a pass) when the
    /// trigger application is absent or the rule is not triggered;
    /// otherwise the first failure among the config constraints, then
    /// the relation constraints, in declared order — or `None` when
    /// every constraint passes.
    pub open spec fn spec_verify(self, bundle: Bundle) -> Option<Seq<char>> {
        match bundle.spec_application(self.charm_name@) {
            None => None,
            Some(app) => if self.spec_triggered(app) {
                match spec_check_requires_list(bundle, self.config.requires@) {
                    Some(m) => Some(m),
                    None => match spec_check_forbids_list(bundle, self.config.forbids@) {
                        Some(m) => Some(m),
                        None => spec_relations_list(app, bundle, self.relations@),
                    },
                }
            } else {
                None
            },
        }
    }

    /// Evaluates the rule against a topology. An inapplicable rule — a
    /// trigger application absent from the topology, or a trigger option
    /// that is absent or holds another value — is never a failure.
    pub fn verify(&self, bundle: &Bundle) -> (r: VerificationResult)
        ensures
            outcome_of(r) == self.spec_verify(*bundle),
    {
        let application = match bundle.application(self.charm_name.as_str()) {
            Some(a) => a,
            None => {
                return VerificationResult::Pass;
            },
        };
        let triggered = match application.option(self.config.config_name.as_str()) {
            Some(value) => *value == self.config.config_value,
            None => false,
        };
        if !triggered {
            return VerificationResult::Pass;
        }
        match self.config.verify(application, bundle) {
            VerificationResult::Fail { reason } => {
                return VerificationResult::Fail { reason };
            },
            VerificationResult::Pass => {},
        }
        let n = self.relations.len();
        let mut i: usize = 0;
        proof {
            assert(self.relations@.skip(0) =~= self.relations@);
        }
        while i < n
            invariant
                n == self.relations@.len(),
                i <= n,
                bundle.spec_application(self.charm_name@) == Some(*application),
                self.spec_triggered(*application),
                spec_check_requires_list(*bundle, self.config.requires@) is None,
                spec_check_forbids_list(*bundle, self.config.forbids@) is None,
                spec_relations_list(*application, *bundle, self.relations@)
                    == spec_relations_list(
                    *application,
                    *bundle,
                    self.relations@.skip(i as int),
                ),
            decreases n - i,
        {
            let relation = &self.relations[i];
            match relation.verify(application, bundle) {
                VerificationResult::Fail { reason } => {
                    return VerificationResult::Fail { reason };
                },
                VerificationResult::Pass => {},
            }
            proof {
                assert(self.relations@.skip(i as int).skip(1) =~= self.relations@.skip(
                    i as int + 1,
                ));
            }
            i = i + 1;
        }
        VerificationResult::Pass
    }
}

/// One failing rule of a report: the failing rule's charm name and the
/// failure reason.
pub struct Failure {
    pub charm_name: String,
    pub reason: String,
}

impl Failure {
    /// The line a report prints for this failure.
    pub fn line(&self) -> (r: String)
        ensures
            r@ == self.charm_name@ + " rule failed: "@ + self.reason@,
    {
        let mut s = self.charm_name.clone();
        s.append(" rule failed: ");
        s.append(self.reason.as_str());
        s
    }
}

/// The outcome of a whole run: every failing rule, in rule order, and
/// whether the topology passed all rules.
pub struct Report {
    pub passing: bool,
    pub failures: Vec<Failure>,
}

/// The failures among the first `n` rules, in rule order: the charm name
/// and reason of each rule whose verdict is a failure.
pub open spec fn spec_failures_upto(bundle: Bundle, rules: Seq<Rule>, n: int) -> Seq<
    (Seq<char>, Seq<char>),
>
    decreases n,
{
    if n <= 0 {
        Seq::empty()
    } else {
        let prev = spec_failures_upto(bundle, rules, n - 1);
        match rules[n - 1].spec_verify(bundle) {
            None => prev,
            Some(m) => prev.push((rules[n - 1].charm_name@, m)),
        }
    }
}

/// The failures of a whole run, in rule order.
pub open spec fn spec_failures(bundle: Bundle, rules: Seq<Rule>) -> Seq<(Seq<char>, Seq<char>)> {
    spec_failures_upto(bundle, rules, rules.len() as int)
}

/// Evaluates every rule independently against the topology — no rule's
/// outcome affects another, and no rule is skipped — collecting the
/// failures in rule order. The run passes exactly when no rule failed.
pub fn verify(bundle: &Bundle, rules: &Vec<Rule>) -> (r: Report)
    ensures
        r.failures@.len() == spec_failures(*bundle, rules@).len(),
        forall|i: int|
            0 <= i < r.failures@.len() ==> (#[trigger] r.failures@[i]).charm_name@
                == spec_failures(*bundle, rules@)[i].0 && r.failures@[i].reason@ == spec_failures(
                *bundle,
                rules@,
            )[i].1,
        r.passing == (spec_failures(*bundle, rules@).len() == 0),
{
    let n = rules.len();
    let mut i: usize = 0;
    let mut failures: Vec<Failure> = Vec::new();
    while i < n
        invariant
            n == rules@.len(),
            i <= n,
            failures@.len() == spec_failures_upto(*bundle, rules@, i as int).len(),
            forall|j: int|
                0 <= j < failures@.len() ==> (#[trigger] failures@[j]).charm_name@
                    == spec_failures_upto(*bundle, rules@, i as int)[j].0
                    && failures@[j].reason@ == spec_failures_upto(*bundle, rules@, i as int)[j].1,
        decreases n - i,
    {
        let rule = &rules[i];
        match rule.verify(bundle) {
            VerificationResult::Pass => {},
            VerificationResult::Fail { reason } => {
                failures.push(Failure { charm_name: rule.charm_name.clone(), reason });
            },
        }
        i = i + 1;
    }
    let passing = failures.len() == 0;
    Report { passing, failures }
}

/// A rule whose trigger application is absent from the topology, or
/// whose trigger option is absent or holds a value other than the
/// trigger value, is inert: its verdict is a pass, regardless of its
/// nested config and relation constraints.
pub proof fn rule_inert_when_not_triggered(rule: Rule, bundle: Bundle)
    requires
        match bundle.spec_application(rule.charm_name@) {
            None => true,
            Some(app) => !rule.spec_triggered(app),
        },
    ensures
        rule.spec_verify(bundle) is None,
{
}

/// Evaluation is deterministic: any two results of evaluating the same
/// rule against the same topology agree, both in pass/fail status and
/// in the reported reason — no state is carried between calls.
pub proof fn rule_evaluation_deterministic(
    rule: Rule,
    bundle: Bundle,
    r1: VerificationResult,
    r2: VerificationResult,
)
    requires
        outcome_of(r1) == rule.spec_verify(bundle),
        outcome_of(r2) == rule.spec_verify(bundle),
    ensures
        r1 is Pass <==> r2 is Pass,
        r1 matches VerificationResult::Fail { reason: a } ==> (r2 matches VerificationResult::Fail {
            reason: b,
        } && a@ == b@),
{
}

} // verus!
