//! The exchange module of the chain: deposits, swaps and limit orders.

use vstd::prelude::*;
use crate::account::SigningAccount;
use crate::error::{encoded_view, result_view, Encoded, RunnerError};
use crate::runner::app::{NeutronTestApp, NeutronTestAppView};
use crate::runner::{query_request, single_tx, QueryRequest, TxRequest};

verus! {

/// The exchange module of the chain: deposits, swaps and limit orders.
pub struct Dex<'a> {
    runner: &'a NeutronTestApp,
}

impl<'a> Dex<'a> {
    /// The chain that this module belongs to.
    pub closed spec fn app(&self) -> NeutronTestAppView {
        self.runner@
    }

    pub fn new(runner: &'a NeutronTestApp) -> (module: Self)
        ensures
            module.app() == runner@,
    {
        Dex { runner }
    }

    pub fn cancel_filled_limit_order(&self, msg: Encoded, signer: &SigningAccount) -> (r: Result<
        TxRequest,
        RunnerError,
    >)
        ensures
            result_view(r) == single_tx(
                self.app().chain_id,
                encoded_view(msg),
                "/neutron.dex.MsgCancelLimitOrder"@,
                signer@,
            ),
    {
        self.runner.execute(msg, "/neutron.dex.MsgCancelLimitOrder", signer)
    }

    pub fn deposit(&self, msg: Encoded, signer: &SigningAccount) -> (r: Result<
        TxRequest,
        RunnerError,
    >)
        ensures
            result_view(r) == single_tx(
                self.app().chain_id,
                encoded_view(msg),
                "/neutron.dex.MsgDeposit"@,
                signer@,
            ),
    {
        self.runner.execute(msg, "/neutron.dex.MsgDeposit", signer)
    }

    pub fn multi_hop_swap(&self, msg: Encoded, signer: &SigningAccount) -> (r: Result<
        TxRequest,
        RunnerError,
    >)
        ensures
            result_view(r) == single_tx(
                self.app().chain_id,
                encoded_view(msg),
                "/neutron.dex.MsgMultiHopSwap"@,
                signer@,
            ),
    {
        self.runner.execute(msg, "/neutron.dex.MsgMultiHopSwap", signer)
    }

    pub fn place_limit_order(&self, msg: Encoded, signer: &SigningAccount) -> (r: Result<
        TxRequest,
        RunnerError,
    >)
        ensures
            result_view(r) == single_tx(
                self.app().chain_id,
                encoded_view(msg),
                "/neutron.dex.MsgPlaceLimitOrder"@,
                signer@,
            ),
    {
        self.runner.execute(msg, "/neutron.dex.MsgPlaceLimitOrder", signer)
    }

    pub fn withdrawal(&self, msg: Encoded, signer: &SigningAccount) -> (r: Result<
        TxRequest,
        RunnerError,
    >)
        ensures
            result_view(r) == single_tx(
                self.app().chain_id,
                encoded_view(msg),
                "/neutron.dex.MsgWithdrawal"@,
                signer@,
            ),
    {
        self.runner.execute(msg, "/neutron.dex.MsgWithdrawal", signer)
    }

    pub fn withdraw_filled_limit_order(&self, msg: Encoded, signer: &SigningAccount) -> (r: Result<
        TxRequest,
        RunnerError,
    >)
        ensures
            result_view(r) == single_tx(
                self.app().chain_id,
                encoded_view(msg),
                "/neutron.dex.MsgWithdrawFilledLimitOrder"@,
                signer@,
            ),
    {
        self.runner.execute(msg, "/neutron.dex.MsgWithdrawFilledLimitOrder", signer)
    }

    pub fn params(&self, msg: Encoded) -> (r: Result<QueryRequest, RunnerError>)
        ensures
            result_view(r) == query_request(
                "/neutron.dex.Query/Params"@,
                encoded_view(msg),
            ),
    {
        self.runner.query("/neutron.dex.Query/Params", msg)
    }

    pub fn limit_order_tranche_user(&self, msg: Encoded) -> (r: Result<QueryRequest, RunnerError>)
        ensures
            result_view(r) == query_request(
                "/neutron.dex.Query/LimitOrderTrancheUser"@,
                encoded_view(msg),
            ),
    {
        self.runner.query("/neutron.dex.Query/LimitOrderTrancheUser", msg)
    }

    pub fn limit_order_tranche_user_all(&self, msg: Encoded) -> (r: Result<QueryRequest, RunnerError>)
        ensures
            result_view(r) == query_request(
                "/neutron.dex.Query/LimitOrderTrancheUserAll"@,
                encoded_view(msg),
            ),
    {
        self.runner.query("/neutron.dex.Query/LimitOrderTrancheUserAll", msg)
    }

    pub fn limit_order_tranche_user_all_by_address(&self, msg: Encoded) -> (r: Result<QueryRequest, RunnerError>)
        ensures
            result_view(r) == query_request(
                "/neutron.dex.Query/LimitOrderTrancheUserAllByAddress"@,
                encoded_view(msg),
            ),
    {
        self.runner.query("/neutron.dex.Query/LimitOrderTrancheUserAllByAddress", msg)
    }

    pub fn limit_order_tranche(&self, msg: Encoded) -> (r: Result<QueryRequest, RunnerError>)
        ensures
            result_view(r) == query_request(
                "/neutron.dex.Query/LimitOrderTranche"@,
                encoded_view(msg),
            ),
    {
        self.runner.query("/neutron.dex.Query/LimitOrderTranche", msg)
    }

    pub fn limit_order_tranche_all(&self, msg: Encoded) -> (r: Result<QueryRequest, RunnerError>)
        ensures
            result_view(r) == query_request(
                "/neutron.dex.Query/LimitOrderTrancheAll"@,
                encoded_view(msg),
            ),
    {
        self.runner.query("/neutron.dex.Query/LimitOrderTrancheAll", msg)
    }

    pub fn user_deposits_all(&self, msg: Encoded) -> (r: Result<QueryRequest, RunnerError>)
        ensures
            result_view(r) == query_request(
                "/neutron.dex.Query/UserDepositsAll"@,
                encoded_view(msg),
            ),
    {
        self.runner.query("/neutron.dex.Query/UserDepositsAll", msg)
    }

    pub fn tick_liquidity_all(&self, msg: Encoded) -> (r: Result<QueryRequest, RunnerError>)
        ensures
            result_view(r) == query_request(
                "/neutron.dex.Query/TickLiquidityAll"@,
                encoded_view(msg),
            ),
    {
        self.runner.query("/neutron.dex.Query/TickLiquidityAll", msg)
    }

    pub fn inactive_limit_order_tranche(&self, msg: Encoded) -> (r: Result<QueryRequest, RunnerError>)
        ensures
            result_view(r) == query_request(
                "/neutron.dex.Query/GetInactiveLimitOrder"@,
                encoded_view(msg),
            ),
    {
        self.runner.query("/neutron.dex.Query/GetInactiveLimitOrder", msg)
    }

    pub fn inactive_limit_order_tranche_all(&self, msg: Encoded) -> (r: Result<QueryRequest, RunnerError>)
        ensures
            result_view(r) == query_request(
                "/neutron.dex.Query/AllInactiveLimitOrderTranche"@,
                encoded_view(msg),
            ),
    {
        self.runner.query("/neutron.dex.Query/AllInactiveLimitOrderTranche", msg)
    }

    pub fn pool_reserves_all(&self, msg: Encoded) -> (r: Result<QueryRequest, RunnerError>)
        ensures
            result_view(r) == query_request(
                "/neutron.dex.Query/AllPoolReserves"@,
                encoded_view(msg),
            ),
    {
        self.runner.query("/neutron.dex.Query/AllPoolReserves", msg)
    }

    pub fn pool_reserves(&self, msg: Encoded) -> (r: Result<QueryRequest, RunnerError>)
        ensures
            result_view(r) == query_request(
                "/neutron.dex.Query/GetPoolReserves"@,
                encoded_view(msg),
            ),
    {
        self.runner.query("/neutron.dex.Query/GetPoolReserves", msg)
    }

    pub fn estimate_multi_hop_swap(&self, msg: Encoded) -> (r: Result<QueryRequest, RunnerError>)
        ensures
            result_view(r) == query_request(
                "/neutron.dex.Query/EstimateMultiHopSwap"@,
                encoded_view(msg),
            ),
    {
        self.runner.query("/neutron.dex.Query/EstimateMultiHopSwap", msg)
    }

    pub fn estimate_place_limit_order(&self, msg: Encoded) -> (r: Result<QueryRequest, RunnerError>)
        ensures
            result_view(r) == query_request(
                "/neutron.dex.Query/EstimatePlaceLimitOrder"@,
                encoded_view(msg),
            ),
    {
        self.runner.query("/neutron.dex.Query/EstimatePlaceLimitOrder", msg)
    }

    pub fn pool(&self, msg: Encoded) -> (r: Result<QueryRequest, RunnerError>)
        ensures
            result_view(r) == query_request(
                "/neutron.dex.Query/Pool"@,
                encoded_view(msg),
            ),
    {
        self.runner.query("/neutron.dex.Query/Pool", msg)
    }

    pub fn pool_by_id(&self, msg: Encoded) -> (r: Result<QueryRequest, RunnerError>)
        ensures
            result_view(r) == query_request(
                "/neutron.dex.Query/PoolById"@,
                encoded_view(msg),
            ),
    {
        self.runner.query("/neutron.dex.Query/PoolById", msg)
    }

    pub fn pool_metadata(&self, msg: Encoded) -> (r: Result<QueryRequest, RunnerError>)
        ensures
            result_view(r) == query_request(
                "/neutron.dex.Query/GetPoolMetadata"@,
                encoded_view(msg),
            ),
    {
        self.runner.query("/neutron.dex.Query/GetPoolMetadata", msg)
    }

    pub fn pool_metadata_all(&self, msg: Encoded) -> (r: Result<QueryRequest, RunnerError>)
        ensures
            result_view(r) == query_request(
                "/neutron.dex.Query/AllPoolMetadata"@,
                encoded_view(msg),
            ),
    {
        self.runner.query("/neutron.dex.Query/AllPoolMetadata", msg)
    }
}

} // verus!
