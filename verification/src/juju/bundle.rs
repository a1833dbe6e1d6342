//! The topology snapshot ("bundle") that rules are checked against:
//! named applications, machines, and the relations between applications.

use vstd::prelude::*;

use super::application::Application;
use super::machine::Machine;

verus! {

/// One named application of a bundle.
pub struct AppEntry {
    pub name: String,
    pub application: Application,
}

/// One named machine of a bundle.
pub struct MachineEntry {
    pub id: String,
    pub machine: Machine,
}

/// An unordered pair of relation endpoints. Each endpoint is a string of
/// the form `app-name:interface-name`; the order of the two fields never
/// matters to matching.
pub struct EndpointPair {
    pub first: String,
    pub second: String,
}

/// First-match lookup of an application name in a sequence of entries.
/// Application names are unique within a bundle, so this is the
/// application the bundle maps `name` to, or `None` when no application
/// of that name exists.
pub open spec fn app_lookup(apps: Seq<AppEntry>, name: Seq<char>) -> Option<Application>
    decreases apps.len(),
{
    if apps.len() == 0 {
        None
    } else if apps[0].name@ == name {
        Some(apps[0].application)
    } else {
        app_lookup(apps.skip(1), name)
    }
}

/// A topology snapshot. `applications` is a mapping from application name
/// to application, represented as a sequence of entries with unique
/// names; `relations` is the set of wired endpoint pairs.
pub struct Bundle {
    pub series: Option<String>,
    pub applications: Vec<AppEntry>,
    pub machines: Vec<MachineEntry>,
    pub relations: Vec<EndpointPair>,
}

impl Bundle {
    /// The application the bundle maps `name` to, or `None` when absent.
    pub open spec fn spec_application(&self, name: Seq<char>) -> Option<Application> {
        app_lookup(self.applications@, name)
    }

    /// Looks the named application up in this bundle.
    pub fn application(&self, application_name: &str) -> (r: Option<&Application>)
        ensures
            match r {
                Some(a) => self.spec_application(application_name@) == Some(*a),
                None => self.spec_application(application_name@) is None,
            },
    {
        let n = self.applications.len();
        let mut i: usize = 0;
        proof {
            assert(self.applications@.skip(0) =~= self.applications@);
        }
        while i < n
            invariant
                n == self.applications@.len(),
                i <= n,
                app_lookup(self.applications@, application_name@) == app_lookup(
                    self.applications@.skip(i as int),
                    application_name@,
                ),
            decreases n - i,
        {
            let entry = &self.applications[i];
            if crate::str_eq(entry.name.as_str(), application_name) {
                return Some(&entry.application);
            }
            proof {
                assert(self.applications@.skip(i as int).skip(1) =~= self.applications@.skip(
                    i as int + 1,
                ));
            }
            i = i + 1;
        }
        None
    }
}

} // verus!
