//! Inspecting and changing the enforcement mode of mandatory-access-control
//! profiles: parsing the status tool's report, keeping the profile registry
//! and its selection, and deciding which external command runs next.

pub mod control;
pub mod laws;
pub mod mode;
pub mod policy;
pub mod registry;
pub mod status;
pub mod text;

pub use control::{Action, ActionError, Command, Controller, Directive, Exit, Stage};
pub use mode::Mode;
pub use policy::{policy_path, POLICY_ROOT};
pub use registry::Registry;
pub use status::{parse_status, Profile};
