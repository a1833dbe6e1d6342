//! A linter for deployment topologies ("bundles"): a set of named
//! application instances with string-valued configuration options and
//! relations between them, checked against a declarative rule set.
//!
//! The heart of the crate is the rule evaluation engine in [`rule`]: given
//! an in-memory [`juju::Bundle`] and a list of [`Rule`]s, it decides for
//! each rule whether the topology passes, and if not, produces an exact,
//! human-readable failure reason. All of that logic is verified; loading
//! bundles and rule files from disk or from a repository is left to the
//! surrounding (unverified) binary.

pub mod juju;
pub mod rule;

pub use rule::Failure;
pub use rule::Report;
pub use rule::Rule;
pub use rule::VerificationResult;

use vstd::prelude::*;

verus! {

/// The error a lint run ends with when at least one rule failed.
#[derive(Debug, PartialEq, Eq, Structural)]
pub enum JujuLintError {
    LintFailure,
}

impl JujuLintError {
    /// The message shown for this error.
    pub fn message(&self) -> (r: String)
        ensures
            r@ == "Bundle failed lint"@,
    {
        String::from_str("Bundle failed lint")
    }
}

/// Relies on `str`'s `==` (its `PartialEq` impl): two string slices are
/// equal exactly when their character sequences are equal.
#[verifier::external_body]
pub(crate) fn str_eq(a: &str, b: &str) -> (r: bool)
    ensures
        r == (a@ == b@),
{
    a == b
}

} // verus!
