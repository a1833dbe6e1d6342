//! The topology model: applications, their options, machines, and the
//! relations wired between applications. Everything here is plain data,
//! held read-only by the rule engine.

mod application;
mod bundle;
mod machine;

pub use application::Application;
pub use application::OptionEntry;
pub use application::opt_lookup;
pub use bundle::AppEntry;
pub use bundle::Bundle;
pub use bundle::EndpointPair;
pub use bundle::MachineEntry;
pub use bundle::app_lookup;
pub use machine::Machine;
