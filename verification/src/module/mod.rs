//! One module of the chain each: the requests it takes, bound to the
//! identifiers under which the chain routes them.
//!
//! A request that the library has no type for is taken encoded; the module
//! binds it to its identifier and leaves the bytes as they are.

pub mod adminmodule;
pub mod bank;
pub mod contractmanager;
pub mod dex;
pub mod gov;
pub mod gov_run;
pub mod marketmap;
pub mod oracle;
pub mod slinky;
pub mod tokenfactory;

pub use adminmodule::Admin;
pub use bank::Bank;
pub use contractmanager::Contractmanager;
pub use dex::Dex;
pub use gov::{
    Gov, GovWithAppAccess, ProposalWorkflow, WorkflowAction, WorkflowEvent, WorkflowFault,
    WorkflowStep,
};
pub use marketmap::Marketmap;
pub use oracle::Oracle;
pub use slinky::Slinky;
pub use tokenfactory::TokenFactory;
