//! The contract manager module of the chain.

use vstd::prelude::*;
use crate::error::{encoded_view, result_view, Encoded, RunnerError};
use crate::runner::app::{NeutronTestApp, NeutronTestAppView};
use crate::runner::{query_request, QueryRequest};

verus! {

/// The contract manager module of the chain.
pub struct Contractmanager<'a> {
    runner: &'a NeutronTestApp,
}

impl<'a> Contractmanager<'a> {
    /// The chain that this module belongs to.
    pub closed spec fn app(&self) -> NeutronTestAppView {
        self.runner@
    }

    pub fn new(runner: &'a NeutronTestApp) -> (module: Self)
        ensures
            module.app() == runner@,
    {
        Contractmanager { runner }
    }

    pub fn query_params(&self, msg: Encoded) -> (r: Result<QueryRequest, RunnerError>)
        ensures
            result_view(r) == query_request(
                "/neutron.contractmanager.Query/Params"@,
                encoded_view(msg),
            ),
    {
        self.runner.query("/neutron.contractmanager.Query/Params", msg)
    }
}

} // verus!
