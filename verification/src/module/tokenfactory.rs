//! The token factory module of the chain: denominations that accounts create.

use vstd::prelude::*;
use crate::account::SigningAccount;
use crate::error::{encoded_view, result_view, Encoded, RunnerError};
use crate::runner::app::{NeutronTestApp, NeutronTestAppView};
use crate::runner::{query_request, single_tx, QueryRequest, TxRequest};

verus! {

/// The token factory module of the chain: denominations that accounts create.
pub struct TokenFactory<'a> {
    runner: &'a NeutronTestApp,
}

impl<'a> TokenFactory<'a> {
    /// The chain that this module belongs to.
    pub closed spec fn app(&self) -> NeutronTestAppView {
        self.runner@
    }

    pub fn new(runner: &'a NeutronTestApp) -> (module: Self)
        ensures
            module.app() == runner@,
    {
        TokenFactory { runner }
    }

    pub fn create_denom(&self, msg: Encoded, signer: &SigningAccount) -> (r: Result<
        TxRequest,
        RunnerError,
    >)
        ensures
            result_view(r) == single_tx(
                self.app().chain_id,
                encoded_view(msg),
                "/osmosis.tokenfactory.v1beta1.MsgCreateDenom"@,
                signer@,
            ),
    {
        self.runner.execute(msg, "/osmosis.tokenfactory.v1beta1.MsgCreateDenom", signer)
    }

    pub fn mint(&self, msg: Encoded, signer: &SigningAccount) -> (r: Result<
        TxRequest,
        RunnerError,
    >)
        ensures
            result_view(r) == single_tx(
                self.app().chain_id,
                encoded_view(msg),
                "/osmosis.tokenfactory.v1beta1.MsgMint"@,
                signer@,
            ),
    {
        self.runner.execute(msg, "/osmosis.tokenfactory.v1beta1.MsgMint", signer)
    }

    pub fn burn(&self, msg: Encoded, signer: &SigningAccount) -> (r: Result<
        TxRequest,
        RunnerError,
    >)
        ensures
            result_view(r) == single_tx(
                self.app().chain_id,
                encoded_view(msg),
                "/osmosis.tokenfactory.v1beta1.MsgBurn"@,
                signer@,
            ),
    {
        self.runner.execute(msg, "/osmosis.tokenfactory.v1beta1.MsgBurn", signer)
    }

    pub fn change_admin(&self, msg: Encoded, signer: &SigningAccount) -> (r: Result<
        TxRequest,
        RunnerError,
    >)
        ensures
            result_view(r) == single_tx(
                self.app().chain_id,
                encoded_view(msg),
                "/osmosis.tokenfactory.v1beta1.MsgChangeAdmin"@,
                signer@,
            ),
    {
        self.runner.execute(msg, "/osmosis.tokenfactory.v1beta1.MsgChangeAdmin", signer)
    }

    pub fn set_denom_metadata(&self, msg: Encoded, signer: &SigningAccount) -> (r: Result<
        TxRequest,
        RunnerError,
    >)
        ensures
            result_view(r) == single_tx(
                self.app().chain_id,
                encoded_view(msg),
                "/osmosis.tokenfactory.v1beta1.MsgSetDenomMetadata"@,
                signer@,
            ),
    {
        self.runner.execute(msg, "/osmosis.tokenfactory.v1beta1.MsgSetDenomMetadata", signer)
    }

    pub fn query_params(&self, msg: Encoded) -> (r: Result<QueryRequest, RunnerError>)
        ensures
            result_view(r) == query_request(
                "/osmosis.tokenfactory.v1beta1.Query/Params"@,
                encoded_view(msg),
            ),
    {
        self.runner.query("/osmosis.tokenfactory.v1beta1.Query/Params", msg)
    }

    pub fn query_denom_authority_metadata(&self, msg: Encoded) -> (r: Result<QueryRequest, RunnerError>)
        ensures
            result_view(r) == query_request(
                "/osmosis.tokenfactory.v1beta1.Query/DenomAuthorityMetadata"@,
                encoded_view(msg),
            ),
    {
        self.runner.query("/osmosis.tokenfactory.v1beta1.Query/DenomAuthorityMetadata", msg)
    }

    pub fn query_denoms_from_creator(&self, msg: Encoded) -> (r: Result<QueryRequest, RunnerError>)
        ensures
            result_view(r) == query_request(
                "/osmosis.tokenfactory.v1beta1.Query/DenomsFromCreator"@,
                encoded_view(msg),
            ),
    {
        self.runner.query("/osmosis.tokenfactory.v1beta1.Query/DenomsFromCreator", msg)
    }
}

} // verus!
