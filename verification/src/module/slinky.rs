//! The oracle and the market map of the chain, side by side.

use vstd::prelude::*;
use crate::account::SigningAccount;
use crate::error::{encoded_view, result_view, Encoded, RunnerError};
use crate::runner::app::{NeutronTestApp, NeutronTestAppView};
use crate::runner::{query_request, single_tx, QueryRequest, TxRequest};

verus! {

/// The oracle and the market map of the chain, side by side.
pub struct Slinky<'a> {
    runner: &'a NeutronTestApp,
}

impl<'a> Slinky<'a> {
    /// The chain that this module belongs to.
    pub closed spec fn app(&self) -> NeutronTestAppView {
        self.runner@
    }

    pub fn new(runner: &'a NeutronTestApp) -> (module: Self)
        ensures
            module.app() == runner@,
    {
        Slinky { runner }
    }

    pub fn create_markets(&self, msg: Encoded, signer: &SigningAccount) -> (r: Result<
        TxRequest,
        RunnerError,
    >)
        ensures
            result_view(r) == single_tx(
                self.app().chain_id,
                encoded_view(msg),
                "/slinky.marketmap.v1.MsgCreateMarkets"@,
                signer@,
            ),
    {
        self.runner.execute(msg, "/slinky.marketmap.v1.MsgCreateMarkets", signer)
    }

    pub fn get_all_currency_pairs(&self, msg: Encoded) -> (r: Result<QueryRequest, RunnerError>)
        ensures
            result_view(r) == query_request(
                "/slinky.oracle.v1.Query/GetAllCurrencyPairs"@,
                encoded_view(msg),
            ),
    {
        self.runner.query("/slinky.oracle.v1.Query/GetAllCurrencyPairs", msg)
    }

    pub fn get_price(&self, msg: Encoded) -> (r: Result<QueryRequest, RunnerError>)
        ensures
            result_view(r) == query_request(
                "/slinky.oracle.v1.Query/GetPrice"@,
                encoded_view(msg),
            ),
    {
        self.runner.query("/slinky.oracle.v1.Query/GetPrice", msg)
    }

    pub fn get_prices(&self, msg: Encoded) -> (r: Result<QueryRequest, RunnerError>)
        ensures
            result_view(r) == query_request(
                "/slinky.oracle.v1.Query/GetPrices"@,
                encoded_view(msg),
            ),
    {
        self.runner.query("/slinky.oracle.v1.Query/GetPrices", msg)
    }

    pub fn get_currency_pair_mapping(&self, msg: Encoded) -> (r: Result<QueryRequest, RunnerError>)
        ensures
            result_view(r) == query_request(
                "/slinky.oracle.v1.Query/GetCurrencyPairMapping"@,
                encoded_view(msg),
            ),
    {
        self.runner.query("/slinky.oracle.v1.Query/GetCurrencyPairMapping", msg)
    }

    pub fn get_params(&self, msg: Encoded) -> (r: Result<QueryRequest, RunnerError>)
        ensures
            result_view(r) == query_request(
                "/slinky.marketmap.v1.Query/Params"@,
                encoded_view(msg),
            ),
    {
        self.runner.query("/slinky.marketmap.v1.Query/Params", msg)
    }
}

} // verus!
