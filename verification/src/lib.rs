//! A typed client for a simulated Neutron chain.
//!
//! The library turns requests into the envelopes that the chain simulator
//! takes, reads its replies back into results and faults, keeps each
//! account's sequence number, and sequences the governance workflow. It
//! performs no I/O itself: every operation comes as a function that builds
//! what is to be handed to the simulator and a function that takes the
//! simulator's reply.

pub mod account;
pub mod error;
pub mod module;
pub mod proto;
pub mod result;
pub mod runner;

pub use account::{Coin, FeeSetting, SigningAccount};
pub use error::{DecodeError, EncodeError, Encoded, RunnerError};
pub use module::{
    Admin, Bank, Contractmanager, Dex, Gov, GovWithAppAccess, Marketmap, Oracle, ProposalWorkflow,
    Slinky, TokenFactory, WorkflowAction, WorkflowEvent, WorkflowFault, WorkflowStep,
};
pub use proto::{
    Any, MsgSubmitProposal, MsgSubmitProposalResponse, MsgVote, MsgVoteResponse, VoteOption,
};
pub use result::{Attribute, Delivery, Event, ExecuteResponse, GasInfo, TxResult};
pub use runner::app::NeutronTestApp;
pub use runner::{QueryRequest, TxRequest};
