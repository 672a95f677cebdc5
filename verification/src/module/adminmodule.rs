//! The admin module of the chain: who administers it, and their proposals.

use vstd::prelude::*;
use crate::account::SigningAccount;
use crate::error::{encoded_view, result_view, Encoded, RunnerError};
use crate::module::gov::{submit_proposal_tx, Gov};
use crate::proto::MsgSubmitProposal;
use crate::runner::app::{NeutronTestApp, NeutronTestAppView};
use crate::runner::{query_request, single_tx, QueryRequest, TxRequest};

verus! {

/// The admin module of the chain: who administers it, and their proposals.
pub struct Admin<'a> {
    runner: &'a NeutronTestApp,
}

impl<'a> Admin<'a> {
    /// The chain that this module belongs to.
    pub closed spec fn app(&self) -> NeutronTestAppView {
        self.runner@
    }

    pub fn new(runner: &'a NeutronTestApp) -> (module: Self)
        ensures
            module.app() == runner@,
    {
        Admin { runner }
    }

    pub fn add_admin(&self, msg: Encoded, signer: &SigningAccount) -> (r: Result<
        TxRequest,
        RunnerError,
    >)
        ensures
            result_view(r) == single_tx(
                self.app().chain_id,
                encoded_view(msg),
                "/cosmos.adminmodule.adminmodule.MsgAddAdmin"@,
                signer@,
            ),
    {
        self.runner.execute(msg, "/cosmos.adminmodule.adminmodule.MsgAddAdmin", signer)
    }

    pub fn delete_admin(&self, msg: Encoded, signer: &SigningAccount) -> (r: Result<
        TxRequest,
        RunnerError,
    >)
        ensures
            result_view(r) == single_tx(
                self.app().chain_id,
                encoded_view(msg),
                "/cosmos.adminmodule.adminmodule.MsgDeleteAdmin"@,
                signer@,
            ),
    {
        self.runner.execute(msg, "/cosmos.adminmodule.adminmodule.MsgDeleteAdmin", signer)
    }

    pub fn submit_proposal(&self, msg: MsgSubmitProposal, signer: &SigningAccount) -> (tx: TxRequest)
        ensures
            tx@ == submit_proposal_tx(self.app().chain_id, msg@, signer@),
    {
        Gov::new(self.runner).submit_proposal(msg, signer)
    }

    pub fn query_admins(&self, msg: Encoded) -> (r: Result<QueryRequest, RunnerError>)
        ensures
            result_view(r) == query_request(
                "/cosmos.adminmodule.adminmodule.Query/Admins"@,
                encoded_view(msg),
            ),
    {
        self.runner.query("/cosmos.adminmodule.adminmodule.Query/Admins", msg)
    }
}

} // verus!
