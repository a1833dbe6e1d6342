//! One named application instance of a topology: a charm identifier,
//! a unit count, placement directives, and its configuration options.

use vstd::prelude::*;

verus! {

/// One configuration option of an application: an option name bound to a
/// string value.
pub struct OptionEntry {
    pub name: String,
    pub value: String,
}

/// First-match lookup of an option name in a sequence of entries. Option
/// names are unique within an application, so this is the value the
/// option mapping gives `name`, or `None` when the name is unbound.
pub open spec fn opt_lookup(opts: Seq<OptionEntry>, name: Seq<char>) -> Option<Seq<char>>
    decreases opts.len(),
{
    if opts.len() == 0 {
        None
    } else if opts[0].name@ == name {
        Some(opts[0].value@)
    } else {
        opt_lookup(opts.skip(1), name)
    }
}

/// An application instance. `options` is a mapping from option name to
/// option value, represented as a sequence of entries with unique names.
pub struct Application {
    pub charm: String,
    pub num_units: usize,
    pub to: Vec<String>,
    pub options: Vec<OptionEntry>,
}

impl Application {
    /// The value of the named option, or `None` when the application does
    /// not carry it.
    pub open spec fn spec_option(&self, name: Seq<char>) -> Option<Seq<char>> {
        opt_lookup(self.options@, name)
    }

    /// Looks the named option up in this application's option mapping.
    pub fn option(&self, option: &str) -> (r: Option<&String>)
        ensures
            match r {
                Some(v) => self.spec_option(option@) == Some(v@),
                None => self.spec_option(option@) is None,
            },
    {
        let n = self.options.len();
        let mut i: usize = 0;
        proof {
            assert(self.options@.skip(0) =~= self.options@);
        }
        while i < n
            invariant
                n == self.options@.len(),
                i <= n,
                opt_lookup(self.options@, option@) == opt_lookup(
                    self.options@.skip(i as int),
                    option@,
                ),
            decreases n - i,
        {
            let entry = &self.options[i];
            if crate::str_eq(entry.name.as_str(), option) {
                return Some(&entry.value);
            }
            proof {
                assert(self.options@.skip(i as int).skip(1) =~= self.options@.skip(
                    i as int + 1,
                ));
            }
            i = i + 1;
        }
        None
    }
}

} // verus!
