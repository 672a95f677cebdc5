//! The bank module of the chain: transfers, balances and supply.

use vstd::prelude::*;
use crate::account::SigningAccount;
use crate::error::{encoded_view, result_view, Encoded, RunnerError};
use crate::runner::app::{NeutronTestApp, NeutronTestAppView};
use crate::runner::{query_request, single_tx, QueryRequest, TxRequest};

verus! {

/// The bank module of the chain: transfers, balances and supply.
pub struct Bank<'a> {
    runner: &'a NeutronTestApp,
}

impl<'a> Bank<'a> {
    /// The chain that this module belongs to.
    pub closed spec fn app(&self) -> NeutronTestAppView {
        self.runner@
    }

    pub fn new(runner: &'a NeutronTestApp) -> (module: Self)
        ensures
            module.app() == runner@,
    {
        Bank { runner }
    }

    pub fn send(&self, msg: Encoded, signer: &SigningAccount) -> (r: Result<
        TxRequest,
        RunnerError,
    >)
        ensures
            result_view(r) == single_tx(
                self.app().chain_id,
                encoded_view(msg),
                "/cosmos.bank.v1beta1.MsgSend"@,
                signer@,
            ),
    {
        self.runner.execute(msg, "/cosmos.bank.v1beta1.MsgSend", signer)
    }

    pub fn query_balance(&self, msg: Encoded) -> (r: Result<QueryRequest, RunnerError>)
        ensures
            result_view(r) == query_request(
                "/cosmos.bank.v1beta1.Query/Balance"@,
                encoded_view(msg),
            ),
    {
        self.runner.query("/cosmos.bank.v1beta1.Query/Balance", msg)
    }

    pub fn query_all_balances(&self, msg: Encoded) -> (r: Result<QueryRequest, RunnerError>)
        ensures
            result_view(r) == query_request(
                "/cosmos.bank.v1beta1.Query/AllBalances"@,
                encoded_view(msg),
            ),
    {
        self.runner.query("/cosmos.bank.v1beta1.Query/AllBalances", msg)
    }

    pub fn query_total_supply(&self, msg: Encoded) -> (r: Result<QueryRequest, RunnerError>)
        ensures
            result_view(r) == query_request(
                "/cosmos.bank.v1beta1.Query/TotalSupply"@,
                encoded_view(msg),
            ),
    {
        self.runner.query("/cosmos.bank.v1beta1.Query/TotalSupply", msg)
    }
}

} // verus!
