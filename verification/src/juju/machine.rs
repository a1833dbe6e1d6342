//! A machine of a topology. Machines only round-trip through topology
//! descriptions; the rule engine never consults them.

use vstd::prelude::*;

verus! {

/// One machine: an optional series and an optional constraint string.
pub struct Machine {
    pub series: Option<String>,
    pub constraints: Option<String>,
}

} // verus!
