//! The oracle module of the chain: prices of currency pairs.

use vstd::prelude::*;
use crate::error::{encoded_view, result_view, Encoded, RunnerError};
use crate::runner::app::{NeutronTestApp, NeutronTestAppView};
use crate::runner::{query_request, QueryRequest};

verus! {

/// The oracle module of the chain: prices of currency pairs.
pub struct Oracle<'a> {
    runner: &'a NeutronTestApp,
}

impl<'a> Oracle<'a> {
    /// The chain that this module belongs to.
    pub closed spec fn app(&self) -> NeutronTestAppView {
        self.runner@
    }

    pub fn new(runner: &'a NeutronTestApp) -> (module: Self)
        ensures
            module.app() == runner@,
    {
        Oracle { runner }
    }

    pub fn get_price(&self, msg: Encoded) -> (r: Result<QueryRequest, RunnerError>)
        ensures
            result_view(r) == query_request(
                "/slinky.oracle.v1.Query/GetPrice"@,
                encoded_view(msg),
            ),
    {
        self.runner.query("/slinky.oracle.v1.Query/GetPrice", msg)
    }

    pub fn get_prices(&self, msg: Encoded) -> (r: Result<QueryRequest, RunnerError>)
        ensures
            result_view(r) == query_request(
                "/slinky.oracle.v1.Query/GetPrices"@,
                encoded_view(msg),
            ),
    {
        self.runner.query("/slinky.oracle.v1.Query/GetPrices", msg)
    }
}

} // verus!
