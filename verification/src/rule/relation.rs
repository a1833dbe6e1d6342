//! Relation constraints: requires/forbids checks on the topology's set
//! of wired endpoint pairs, optionally gated by a config condition on
//! the rule's triggering application.

use vstd::prelude::*;

use crate::juju::Application;
use crate::juju::Bundle;
use crate::juju::EndpointPair;

use super::VerificationResult;
use super::outcome_of;

verus! {

/// The optional gate of a relation constraint: the relation checks run
/// only while the triggering application's named option holds exactly
/// this value.
pub struct ConfigDetail {
    pub name: String,
    pub value: String,
}

/// One relation constraint of a rule: pairs whose wiring is required,
/// and pairs whose wiring is forbidden, optionally gated by `config`.
pub struct Relation {
    pub config: Option<ConfigDetail>,
    pub requires: Vec<EndpointPair>,
    pub forbids: Vec<EndpointPair>,
}

/// Whether `e` is one of the two endpoints of `p`.
pub open spec fn pair_contains(p: EndpointPair, e: Seq<char>) -> bool {
    p.first@ == e || p.second@ == e
}

/// Whether a bundle relation matches a rule's pair: both endpoints of
/// the rule's pair occur among the bundle relation's endpoints. Order
/// on either side is insignificant.
pub open spec fn pair_matches(bundle_rel: EndpointPair, rule_pair: EndpointPair) -> bool {
    pair_contains(bundle_rel, rule_pair.first@) && pair_contains(bundle_rel, rule_pair.second@)
}

/// The same pair with its two endpoints exchanged.
pub open spec fn swapped(p: EndpointPair) -> EndpointPair {
    EndpointPair { first: p.second, second: p.first }
}

/// The bundle relations among the first `n` that match `pair`, in
/// bundle order.
pub open spec fn matching_upto(rels: Seq<EndpointPair>, pair: EndpointPair, n: int) -> Seq<
    EndpointPair,
>
    decreases n,
{
    if n <= 0 {
        Seq::empty()
    } else {
        let prev = matching_upto(rels, pair, n - 1);
        if pair_matches(rels[n - 1], pair) {
            prev.push(rels[n - 1])
        } else {
            prev
        }
    }
}

/// All bundle relations that match `pair`, in bundle order.
pub open spec fn matching(rels: Seq<EndpointPair>, pair: EndpointPair) -> Seq<EndpointPair> {
    matching_upto(rels, pair, rels.len() as int)
}

/// How one pair is rendered inside a failure reason.
pub open spec fn pair_text(p: EndpointPair) -> Seq<char> {
    "["@ + p.first@ + ", "@ + p.second@ + "]"@
}

/// How a list of pairs is rendered inside a failure reason: each pair's
/// text, joined by a comma.
pub open spec fn pairs_text(s: Seq<EndpointPair>) -> Seq<char>
    decreases s.len(),
{
    if s.len() == 0 {
        Seq::empty()
    } else if s.len() == 1 {
        pair_text(s[0])
    } else {
        pairs_text(s.drop_last()) + ", "@ + pair_text(s.last())
    }
}

/// The reason reported when no bundle relation matches a required pair.
pub open spec fn reason_required_missing(pair: EndpointPair) -> Seq<char> {
    "Required relation(s) missing: "@ + pair_text(pair)
}

/// The reason reported when bundle relations match a forbidden pair.
pub open spec fn reason_forbidden_present(m: Seq<EndpointPair>) -> Seq<char> {
    "Forbidden relation(s) present: "@ + pairs_text(m)
}

/// One required pair checked against the topology: a pass exactly when
/// some bundle relation matches the pair.
pub open spec fn spec_pair_required(bundle: Bundle, pair: EndpointPair) -> Option<Seq<char>> {
    if exists|i: int|
        0 <= i < bundle.relations@.len() && pair_matches(bundle.relations@[i], pair) {
        None
    } else {
        Some(reason_required_missing(pair))
    }
}

/// One forbidden pair checked against the topology: a pass exactly when
/// no bundle relation matches the pair; otherwise the reason lists every
/// matching relation.
pub open spec fn spec_pair_forbidden(bundle: Bundle, pair: EndpointPair) -> Option<Seq<char>> {
    if matching(bundle.relations@, pair).len() == 0 {
        None
    } else {
        Some(reason_forbidden_present(matching(bundle.relations@, pair)))
    }
}

/// Short-circuiting fold of required pairs: the first failing pair's
/// reason, or `None` when every pair is wired.
pub open spec fn spec_required_list(bundle: Bundle, pairs: Seq<EndpointPair>) -> Option<Seq<char>>
    decreases pairs.len(),
{
    if pairs.len() == 0 {
        None
    } else {
        match spec_pair_required(bundle, pairs[0]) {
            Some(m) => Some(m),
            None => spec_required_list(bundle, pairs.skip(1)),
        }
    }
}

/// Short-circuiting fold of forbidden pairs: the first failing pair's
/// reason, or `None` when no forbidden pair is wired.
pub open spec fn spec_forbidden_list(bundle: Bundle, pairs: Seq<EndpointPair>) -> Option<Seq<char>>
    decreases pairs.len(),
{
    if pairs.len() == 0 {
        None
    } else {
        match spec_pair_forbidden(bundle, pairs[0]) {
            Some(m) => Some(m),
            None => spec_forbidden_list(bundle, pairs.skip(1)),
        }
    }
}

fn contains_endpoint(rel: &EndpointPair, e: &String) -> (r: bool)
    ensures
        r == pair_contains(*rel, e@),
{
    *e == rel.first || *e == rel.second
}

fn matches_pair(rel: &EndpointPair, pair: &EndpointPair) -> (r: bool)
    ensures
        r == pair_matches(*rel, *pair),
{
    contains_endpoint(rel, &pair.first) && contains_endpoint(rel, &pair.second)
}

fn pair_to_text(p: &EndpointPair) -> (r: String)
    ensures
        r@ == pair_text(*p),
{
    let mut s = String::from_str("[");
    s.append(p.first.as_str());
    s.append(", ");
    s.append(p.second.as_str());
    s.append("]");
    s
}

fn fail_required_missing(pair: &EndpointPair) -> (r: String)
    ensures
        r@ == reason_required_missing(*pair),
{
    let mut s = String::from_str("Required relation(s) missing: ");
    let t = pair_to_text(pair);
    s.append(t.as_str());
    s
}

/// Whether some bundle relation matches `pair`.
fn has_matching(bundle: &Bundle, pair: &EndpointPair) -> (r: bool)
    ensures
        r == exists|i: int|
            0 <= i < bundle.relations@.len() && pair_matches(bundle.relations@[i], *pair),
{
    let n = bundle.relations.len();
    let mut i: usize = 0;
    while i < n
        invariant
            n == bundle.relations@.len(),
            i <= n,
            forall|j: int| 0 <= j < i ==> !pair_matches(bundle.relations@[j], *pair),
        decreases n - i,
    {
        let rel = &bundle.relations[i];
        if matches_pair(rel, pair) {
            proof {
                assert(pair_matches(bundle.relations@[i as int], *pair));
            }
            return true;
        }
        i = i + 1;
    }
    false
}

/// The failure reason for a forbidden pair, or `None` when no bundle
/// relation matches it.
fn forbidden_reason(bundle: &Bundle, pair: &EndpointPair) -> (r: Option<String>)
    ensures
        match r {
            None => spec_pair_forbidden(*bundle, *pair) is None,
            Some(s) => spec_pair_forbidden(*bundle, *pair) == Some(s@),
        },
{
    let n = bundle.relations.len();
    let mut i: usize = 0;
    let mut count: usize = 0;
    let mut text = String::new();
    while i < n
        invariant
            n == bundle.relations@.len(),
            i <= n,
            count <= i,
            count as int == matching_upto(bundle.relations@, *pair, i as int).len(),
            text@ == pairs_text(matching_upto(bundle.relations@, *pair, i as int)),
        decreases n - i,
    {
        let ghost m_prev = matching_upto(bundle.relations@, *pair, i as int);
        let rel = &bundle.relations[i];
        if matches_pair(rel, pair) {
            let t = pair_to_text(rel);
            if count == 0 {
                text = t;
            } else {
                text.append(", ");
                text.append(t.as_str());
            }
            count = count + 1;
            proof {
                let m_next = matching_upto(bundle.relations@, *pair, i as int + 1);
                assert(m_next == m_prev.push(bundle.relations@[i as int]));
                if m_prev.len() == 0 {
                    assert(m_next[0] == bundle.relations@[i as int]);
                } else {
                    assert(m_next.drop_last() =~= m_prev);
                    assert(m_next.last() == bundle.relations@[i as int]);
                }
            }
        }
        i = i + 1;
    }
    if count == 0 {
        None
    } else {
        let mut s = String::from_str("Forbidden relation(s) present: ");
        s.append(text.as_str());
        Some(s)
    }
}

impl Relation {
    /// Whether this constraint's checks are active: always, when it has
    /// no gate; with a gate, only while the triggering application's
    /// named option holds exactly the configured value.
    pub open spec fn spec_gate_met(self, application: Application) -> bool {
        match self.config {
            None => true,
            Some(cd) => application.spec_option(cd.name@) == Some(cd.value@),
        }
    }

    /// What this constraint concludes: `None` when its checks are inactive or every
    /// pair check passes; otherwise the first failure's reason, required
    /// pairs first.
    pub open spec fn spec_verify(self, application: Application, bundle: Bundle) -> Option<
        Seq<char>,
    > {
        if self.spec_gate_met(application) {
            match spec_required_list(bundle, self.requires@) {
                Some(m) => Some(m),
                None => spec_forbidden_list(bundle, self.forbids@),
            }
        } else {
            None
        }
    }

    /// Checks every required pair, in order, against the topology,
    /// stopping at the first that no bundle relation matches.
    fn verify_required(&self, bundle: &Bundle) -> (r: VerificationResult)
        ensures
            outcome_of(r) == spec_required_list(*bundle, self.requires@),
    {
        let n = self.requires.len();
        let mut i: usize = 0;
        proof {
            assert(self.requires@.skip(0) =~= self.requires@);
        }
        while i < n
            invariant
                n == self.requires@.len(),
                i <= n,
                spec_required_list(*bundle, self.requires@) == spec_required_list(
                    *bundle,
                    self.requires@.skip(i as int),
                ),
            decreases n - i,
        {
            let pair = &self.requires[i];
            if !has_matching(bundle, pair) {
                return VerificationResult::Fail { reason: fail_required_missing(pair) };
            }
            proof {
                assert(self.requires@.skip(i as int).skip(1) =~= self.requires@.skip(i as int + 1));
            }
            i = i + 1;
        }
        VerificationResult::Pass
    }

    /// Checks every forbidden pair, in order, against the topology,
    /// stopping at the first that some bundle relation matches.
    fn verify_forbids(&self, bundle: &Bundle) -> (r: VerificationResult)
        ensures
            outcome_of(r) == spec_forbidden_list(*bundle, self.forbids@),
    {
        let n = self.forbids.len();
        let mut i: usize = 0;
        proof {
            assert(self.forbids@.skip(0) =~= self.forbids@);
        }
        while i < n
            invariant
                n == self.forbids@.len(),
                i <= n,
                spec_forbidden_list(*bundle, self.forbids@) == spec_forbidden_list(
                    *bundle,
                    self.forbids@.skip(i as int),
                ),
            decreases n - i,
        {
            let pair = &self.forbids[i];
            if let Some(reason) = forbidden_reason(bundle, pair) {
                return VerificationResult::Fail { reason };
            }
            proof {
                assert(self.forbids@.skip(i as int).skip(1) =~= self.forbids@.skip(i as int + 1));
            }
            i = i + 1;
        }
        VerificationResult::Pass
    }

    /// Evaluates this relation constraint for the rule's triggering
    /// application against the topology: unless the config condition leaves the
    /// checks skipped, every required pair must be wired and no
    /// forbidden pair may be, with the first failure reported.
    pub fn verify(&self, application: &Application, bundle: &Bundle) -> (r: VerificationResult)
        ensures
            outcome_of(r) == self.spec_verify(*application, *bundle),
    {
        if let Some(cd) = &self.config {
            match application.option(cd.name.as_str()) {
                Some(value) => {
                    if !(*value == cd.value) {
                        return VerificationResult::Pass;
                    }
                },
                None => {
                    return VerificationResult::Pass;
                },
            }
        }
        match self.verify_required(bundle) {
            VerificationResult::Fail { reason } => {
                return VerificationResult::Fail { reason };
            },
            VerificationResult::Pass => {},
        }
        self.verify_forbids(bundle)
    }
}

impl Default for Relation {
    /// The inert relation constraint: no gate and no pairs, so its
    /// verdict is always a pass.
    fn default() -> (r: Self)
        ensures
            r.config is None,
            r.requires@ == Seq::<EndpointPair>::empty(),
            r.forbids@ == Seq::<EndpointPair>::empty(),
    {
        Relation { config: None, requires: Vec::new(), forbids: Vec::new() }
    }
}

/// Matching is insensitive to endpoint order: swapping the endpoints of
/// the rule's pair, or of the bundle relation, never changes whether
/// they match.
pub proof fn pair_match_order_insensitive(bundle_rel: EndpointPair, rule_pair: EndpointPair)
    ensures
        pair_matches(bundle_rel, swapped(rule_pair)) == pair_matches(bundle_rel, rule_pair),
        pair_matches(swapped(bundle_rel), rule_pair) == pair_matches(bundle_rel, rule_pair),
{
}

/// A *requires* relation constraint passes exactly when some topology
/// relation's endpoint set contains both endpoints of the rule's pair,
/// and the order of the endpoints within the rule's pair does not
/// affect that outcome.
pub proof fn required_relation_iff(bundle: Bundle, pair: EndpointPair)
    ensures
        (spec_pair_required(bundle, pair) is None) <==> exists|i: int|
            0 <= i < bundle.relations@.len() && pair_matches(bundle.relations@[i], pair),
        (spec_pair_required(bundle, pair) is None) <==> (spec_pair_required(
            bundle,
            swapped(pair),
        ) is None),
{
    if spec_pair_required(bundle, pair) is None {
        let i = choose|i: int|
            0 <= i < bundle.relations@.len() && pair_matches(bundle.relations@[i], pair);
        assert(pair_matches(bundle.relations@[i], swapped(pair)));
    }
    if spec_pair_required(bundle, swapped(pair)) is None {
        let i = choose|i: int|
            0 <= i < bundle.relations@.len() && pair_matches(bundle.relations@[i], swapped(pair));
        assert(pair_matches(bundle.relations@[i], pair));
    }
}

} // verus!
