//! The market map module of the chain: which markets the oracle follows.

use vstd::prelude::*;
use crate::account::SigningAccount;
use crate::error::{encoded_view, result_view, Encoded, RunnerError};
use crate::runner::app::{NeutronTestApp, NeutronTestAppView};
use crate::runner::{query_request, single_tx, QueryRequest, TxRequest};

verus! {

/// The market map module of the chain: which markets the oracle follows.
pub struct Marketmap<'a> {
    runner: &'a NeutronTestApp,
}

impl<'a> Marketmap<'a> {
    /// The chain that this module belongs to.
    pub closed spec fn app(&self) -> NeutronTestAppView {
        self.runner@
    }

    pub fn new(runner: &'a NeutronTestApp) -> (module: Self)
        ensures
            module.app() == runner@,
    {
        Marketmap { runner }
    }

    pub fn create_markets(&self, msg: Encoded, signer: &SigningAccount) -> (r: Result<
        TxRequest,
        RunnerError,
    >)
        ensures
            result_view(r) == single_tx(
                self.app().chain_id,
                encoded_view(msg),
                "/slinky.marketmap.v1.MsgCreateMarkets"@,
                signer@,
            ),
    {
        self.runner.execute(msg, "/slinky.marketmap.v1.MsgCreateMarkets", signer)
    }

    pub fn update_markets(&self, msg: Encoded, signer: &SigningAccount) -> (r: Result<
        TxRequest,
        RunnerError,
    >)
        ensures
            result_view(r) == single_tx(
                self.app().chain_id,
                encoded_view(msg),
                "/slinky.marketmap.v1.MsgUpdateMarkets"@,
                signer@,
            ),
    {
        self.runner.execute(msg, "/slinky.marketmap.v1.MsgUpdateMarkets", signer)
    }

    pub fn remove_market_authorities(&self, msg: Encoded, signer: &SigningAccount) -> (r: Result<
        TxRequest,
        RunnerError,
    >)
        ensures
            result_view(r) == single_tx(
                self.app().chain_id,
                encoded_view(msg),
                "/slinky.marketmap.v1.MsgRemoveMarketAuthorities"@,
                signer@,
            ),
    {
        self.runner.execute(msg, "/slinky.marketmap.v1.MsgRemoveMarketAuthorities", signer)
    }

    pub fn market_map(&self, msg: Encoded) -> (r: Result<QueryRequest, RunnerError>)
        ensures
            result_view(r) == query_request(
                "/slinky.marketmap.v1.Query/MarketMap"@,
                encoded_view(msg),
            ),
    {
        self.runner.query("/slinky.marketmap.v1.Query/MarketMap", msg)
    }

    pub fn market(&self, msg: Encoded) -> (r: Result<QueryRequest, RunnerError>)
        ensures
            result_view(r) == query_request(
                "/slinky.marketmap.v1.Query/Market"@,
                encoded_view(msg),
            ),
    {
        self.runner.query("/slinky.marketmap.v1.Query/Market", msg)
    }

    pub fn last_updated(&self, msg: Encoded) -> (r: Result<QueryRequest, RunnerError>)
        ensures
            result_view(r) == query_request(
                "/slinky.marketmap.v1.Query/LastUpdated"@,
                encoded_view(msg),
            ),
    {
        self.runner.query("/slinky.marketmap.v1.Query/LastUpdated", msg)
    }

    pub fn params(&self, msg: Encoded) -> (r: Result<QueryRequest, RunnerError>)
        ensures
            result_view(r) == query_request(
                "/slinky.marketmap.v1.Query/Params"@,
                encoded_view(msg),
            ),
    {
        self.runner.query("/slinky.marketmap.v1.Query/Params", msg)
    }
}

} // verus!
