//! Governance: proposals, votes, and the workflow that submits a proposal
//! and has the chain's first validator vote for it.

use vstd::prelude::*;
use vstd::string::*;
use crate::account::{SigningAccount, SigningAccountView};
use crate::error::{
    encoded_view, result_view, EncodeError, Encoded, RunnerError, RunnerErrorView,
};
use crate::proto::{
    msg_submit_proposal_type_url, msg_submit_proposal_v1beta1_type_url, msg_vote_type_url,
    submit_proposal_response_of, submit_proposal_response_read, submit_proposal_wire,
    vote_response_of, vote_response_read, vote_wire, Any, AnyView, MsgSubmitProposal,
    MsgSubmitProposalResponse, MsgSubmitProposalView, MsgVote, MsgVoteResponse, MsgVoteView,
    VoteOption,
};
use crate::result::{Delivery, DeliveryView, ExecuteResponse, ExecuteResponseView};
use crate::runner::app::{execute_outcome, NeutronTestApp, NeutronTestAppView};
use crate::runner::{
    account_after, envelope, query_request, single_tx, tx_request, typed_outcome, typed_response,
    QueryRequest, TxRequest, TxRequestView,
};

verus! {

/// The transaction that submits the proposal `msg` for `signer`.
pub open spec fn submit_proposal_tx(
    chain_id: Seq<char>,
    msg: MsgSubmitProposalView,
    signer: SigningAccountView,
) -> TxRequestView {
    tx_request(
        chain_id,
        seq![
            envelope(submit_proposal_wire(msg), "/cosmos.adminmodule.adminmodule.MsgSubmitProposal"@),
        ],
        signer,
    )
}

/// The transaction that casts the vote `msg` for `signer`.
pub open spec fn vote_tx(
    chain_id: Seq<char>,
    msg: MsgVoteView,
    signer: SigningAccountView,
) -> TxRequestView {
    tx_request(chain_id, seq![envelope(vote_wire(msg), "/cosmos.gov.v1.MsgVote"@)], signer)
}

/// The proposal that holds the one encoded message `msg` of type
/// `msg_type_url`, to execute if the proposal passes.
pub open spec fn executable_proposal(
    msg_type_url: Seq<char>,
    msg: Seq<u8>,
    proposer: Seq<char>,
) -> MsgSubmitProposalView {
    MsgSubmitProposalView {
        messages: seq![AnyView { type_url: msg_type_url, value: msg }],
        proposer,
    }
}

/// What the chain's reply to a proposal submission comes to.
pub open spec fn submit_proposal_outcome(delivery: DeliveryView) -> Result<
    ExecuteResponseView<MsgSubmitProposalResponse>,
    RunnerErrorView,
> {
    match execute_outcome(delivery) {
        Ok(response) => typed_outcome(
            response,
            submit_proposal_response_of(submit_proposal_response_read(response.data)),
        ),
        Err(e) => Err(e),
    }
}

/// What the chain's reply to a vote comes to.
pub open spec fn vote_outcome(delivery: DeliveryView) -> Result<
    ExecuteResponseView<MsgVoteResponse>,
    RunnerErrorView,
> {
    match execute_outcome(delivery) {
        Ok(response) => typed_outcome(response, vote_response_of(vote_response_read(response.data))),
        Err(e) => Err(e),
    }
}

/// What submitting an executable proposal comes to before anything is sent:
/// the transaction, or an encoding fault where the inner message could not
/// be encoded.
pub open spec fn executable_proposal_tx(
    chain_id: Seq<char>,
    msg_type_url: Seq<char>,
    msg: Result<Seq<u8>, EncodeError>,
    proposer: Seq<char>,
    signer: SigningAccountView,
) -> Result<TxRequestView, RunnerErrorView> {
    match msg {
        Ok(bytes) => Ok(
            submit_proposal_tx(chain_id, executable_proposal(msg_type_url, bytes, proposer), signer),
        ),
        Err(e) => Err(RunnerErrorView::EncodeError(e)),
    }
}

/// The governance module of the chain.
pub struct Gov<'a> {
    runner: &'a NeutronTestApp,
}

impl<'a> Gov<'a> {
    /// The chain that this module belongs to.
    pub closed spec fn app(&self) -> NeutronTestAppView {
        self.runner@
    }

    pub fn new(runner: &'a NeutronTestApp) -> (gov: Self)
        ensures
            gov.app() == runner@,
    {
        Gov { runner }
    }

    pub fn submit_proposal(&self, msg: MsgSubmitProposal, signer: &SigningAccount) -> (tx: TxRequest)
        ensures
            tx@ == submit_proposal_tx(self.app().chain_id, msg@, signer@),
    {
        let type_url = String::from_str(msg_submit_proposal_type_url());
        let msgs = vec![Any { type_url, value: msg.to_bytes() }];
        assert(msgs.deep_view() =~= seq![
            envelope(
                submit_proposal_wire(msg@),
                "/cosmos.adminmodule.adminmodule.MsgSubmitProposal"@,
            ),
        ]);
        self.runner.execute_multiple_raw(msgs, signer)
    }

    /// Submits a proposal in the older form.
    pub fn submit_proposal_v1beta1(&self, msg: Encoded, signer: &SigningAccount) -> (r: Result<
        TxRequest,
        RunnerError,
    >)
        ensures
            result_view(r) == single_tx(
                self.app().chain_id,
                encoded_view(msg),
                "/cosmos.gov.v1beta1.MsgSubmitProposal"@,
                signer@,
            ),
    {
        self.runner.execute(msg, msg_submit_proposal_v1beta1_type_url(), signer)
    }

    pub fn vote(&self, msg: MsgVote, signer: &SigningAccount) -> (tx: TxRequest)
        ensures
            tx@ == vote_tx(self.app().chain_id, msg@, signer@),
    {
        let type_url = String::from_str(msg_vote_type_url());
        let msgs = vec![Any { type_url, value: msg.to_bytes() }];
        assert(msgs.deep_view() =~= seq![envelope(vote_wire(msg@), "/cosmos.gov.v1.MsgVote"@)]);
        self.runner.execute_multiple_raw(msgs, signer)
    }

    pub fn query_proposal(&self, msg: Encoded) -> (r: Result<QueryRequest, RunnerError>)
        ensures
            result_view(r) == query_request(
                "/cosmos.gov.v1beta1.Query/Proposal"@,
                encoded_view(msg),
            ),
    {
        self.runner.query("/cosmos.gov.v1beta1.Query/Proposal", msg)
    }

    pub fn query_proposals(&self, msg: Encoded) -> (r: Result<QueryRequest, RunnerError>)
        ensures
            result_view(r) == query_request(
                "/cosmos.gov.v1beta1.Query/Proposals"@,
                encoded_view(msg),
            ),
    {
        self.runner.query("/cosmos.gov.v1beta1.Query/Proposals", msg)
    }

    pub fn query_params(&self, msg: Encoded) -> (r: Result<QueryRequest, RunnerError>)
        ensures
            result_view(r) == query_request("/cosmos.gov.v1beta1.Query/Params"@, encoded_view(msg)),
    {
        self.runner.query("/cosmos.gov.v1beta1.Query/Params", msg)
    }

    /// Wraps the encoded message `msg` of type `msg_type_url` as the one
    /// message of a proposal by `proposer`, and builds the transaction that
    /// submits it. Where `msg` holds the fault of a failed encoding, that
    /// fault is the result and there is nothing to send.
    pub fn submit_executable_proposal(
        &self,
        msg_type_url: String,
        msg: Encoded,
        proposer: String,
        signer: &SigningAccount,
    ) -> (r: Result<TxRequest, RunnerError>)
        ensures
            result_view(r) == executable_proposal_tx(
                self.app().chain_id,
                msg_type_url@,
                encoded_view(msg),
                proposer@,
                signer@,
            ),
    {
        match msg {
            Ok(value) => {
                let messages = vec![Any { type_url: msg_type_url, value }];
                assert(messages.deep_view() =~= seq![
                    AnyView { type_url: msg_type_url@, value: value@ },
                ]);
                Ok(self.submit_proposal(MsgSubmitProposal { messages, proposer }, signer))
            },
            Err(e) => Err(RunnerError::EncodeError(e)),
        }
    }

    /// Reads the outcome of a proposal submission from the chain's reply.
    pub fn read_submit_proposal(&self, delivery: Delivery) -> (r: Result<
        ExecuteResponse<MsgSubmitProposalResponse>,
        RunnerError,
    >)
        ensures
            result_view(r) == submit_proposal_outcome(delivery@),
    {
        match self.runner.read_delivery(delivery) {
            Ok(response) => {
                let data = MsgSubmitProposalResponse::decode(response.data.as_slice());
                typed_response(response, data)
            },
            Err(e) => Err(e),
        }
    }

    /// Reads the outcome of a vote from the chain's reply.
    pub fn read_vote(&self, delivery: Delivery) -> (r: Result<
        ExecuteResponse<MsgVoteResponse>,
        RunnerError,
    >)
        ensures
            result_view(r) == vote_outcome(delivery@),
    {
        match self.runner.read_delivery(delivery) {
            Ok(response) => {
                let data = MsgVoteResponse::decode(response.data.as_slice());
                typed_response(response, data)
            },
            Err(e) => Err(e),
        }
    }

    /// Takes the chain's reply to a proposal submission of `signer`.
    pub fn finish_submit_proposal(&self, signer: &mut SigningAccount, delivery: Delivery) -> (r:
        Result<ExecuteResponse<MsgSubmitProposalResponse>, RunnerError>)
        requires
            delivery@.included() ==> old(signer)@.sequence < u64::MAX,
        ensures
            final(signer)@ == account_after(old(signer)@, delivery@),
            result_view(r) == submit_proposal_outcome(delivery@),
    {
        if delivery.included() {
            signer.advance_sequence();
        }
        self.read_submit_proposal(delivery)
    }

    /// Takes the chain's reply to a vote of `signer`.
    pub fn finish_vote(&self, signer: &mut SigningAccount, delivery: Delivery) -> (r: Result<
        ExecuteResponse<MsgVoteResponse>,
        RunnerError,
    >)
        requires
            delivery@.included() ==> old(signer)@.sequence < u64::MAX,
        ensures
            final(signer)@ == account_after(old(signer)@, delivery@),
            result_view(r) == vote_outcome(delivery@),
    {
        if delivery.included() {
            signer.advance_sequence();
        }
        self.read_vote(delivery)
    }
}

/// The steps of the workflow that a fault can come from.
#[derive(Clone, Copy, Debug, PartialEq, Eq, Structural)]
pub enum WorkflowStep {
    /// Building and submitting the proposal.
    Submit,
    /// Finding the account that is to vote.
    SelectAuthority,
    /// Casting the vote.
    Vote,
}

/// A fault inside the workflow: the fault as the step met it, and the step.
/// What the chain recorded before the fault stays as it is.
#[derive(Clone, Debug, PartialEq, Eq)]
pub struct WorkflowFault {
    pub step: WorkflowStep,
    pub fault: RunnerError,
}

/// Mathematical model of a [`WorkflowFault`].
pub struct WorkflowFaultView {
    pub step: WorkflowStep,
    pub fault: RunnerErrorView,
}

impl View for WorkflowFault {
    type V = WorkflowFaultView;

    open spec fn view(&self) -> WorkflowFaultView {
        WorkflowFaultView { step: self.step, fault: self.fault@ }
    }
}

/// How far the workflow has come.
#[derive(Debug, PartialEq, Eq)]
pub enum ProposalWorkflow {
    /// The proposal is built and its transaction is with the chain.
    Built,
    /// The chain has taken the proposal and given it an id.
    Submitted { submission: ExecuteResponse<MsgSubmitProposalResponse> },
    /// The account that votes is known and its vote is with the chain.
    AuthoritySelected {
        submission: ExecuteResponse<MsgSubmitProposalResponse>,
        authority: SigningAccount,
    },
    /// The vote is cast. Nothing is left to do but to hand the submission
    /// back.
    Voted { submission: ExecuteResponse<MsgSubmitProposalResponse> },
    /// The workflow is over, with the submission or with the fault that
    /// ended it.
    Done { outcome: Result<ExecuteResponse<MsgSubmitProposalResponse>, WorkflowFault> },
}

/// Mathematical model of a [`ProposalWorkflow`].
pub enum ProposalWorkflowView {
    Built,
    Submitted { submission: ExecuteResponseView<MsgSubmitProposalResponse> },
    AuthoritySelected {
        submission: ExecuteResponseView<MsgSubmitProposalResponse>,
        authority: SigningAccountView,
    },
    Voted { submission: ExecuteResponseView<MsgSubmitProposalResponse> },
    Done { outcome: Result<ExecuteResponseView<MsgSubmitProposalResponse>, WorkflowFaultView> },
}

impl View for ProposalWorkflow {
    type V = ProposalWorkflowView;

    open spec fn view(&self) -> ProposalWorkflowView {
        match *self {
            ProposalWorkflow::Built => ProposalWorkflowView::Built,
            ProposalWorkflow::Submitted { submission } => ProposalWorkflowView::Submitted {
                submission: submission@,
            },
            ProposalWorkflow::AuthoritySelected {
                submission,
                authority,
            } => ProposalWorkflowView::AuthoritySelected {
                submission: submission@,
                authority: authority@,
            },
            ProposalWorkflow::Voted { submission } => ProposalWorkflowView::Voted {
                submission: submission@,
            },
            ProposalWorkflow::Done { outcome } => ProposalWorkflowView::Done {
                outcome: match outcome {
                    Ok(submission) => Ok(submission@),
                    Err(fault) => Err(fault@),
                },
            },
        }
    }
}

/// What the workflow asks of whoever drives it.
#[derive(Clone, Debug, PartialEq, Eq)]
pub enum WorkflowAction {
    /// Hand this transaction to the chain and come back with its reply.
    Execute(TxRequest),
    /// Ask the chain for its first validator as an account that pays fees
    /// in `fee_denom`, with the gas adjustment given in thousandths, and
    /// come back with it.
    SelectAuthority { fee_denom: String, gas_adjustment_permille: u64 },
    /// Nothing new: the reply that the workflow waits for has not come.
    Await,
    /// Nothing more: the workflow is over.
    Finish,
}

/// Mathematical model of a [`WorkflowAction`].
pub enum WorkflowActionView {
    Execute(TxRequestView),
    SelectAuthority { fee_denom: Seq<char>, gas_adjustment_permille: u64 },
    Await,
    Finish,
}

impl View for WorkflowAction {
    type V = WorkflowActionView;

    open spec fn view(&self) -> WorkflowActionView {
        match *self {
            WorkflowAction::Execute(tx) => WorkflowActionView::Execute(tx@),
            WorkflowAction::SelectAuthority {
                fee_denom,
                gas_adjustment_permille,
            } => WorkflowActionView::SelectAuthority {
                fee_denom: fee_denom@,
                gas_adjustment_permille,
            },
            WorkflowAction::Await => WorkflowActionView::Await,
            WorkflowAction::Finish => WorkflowActionView::Finish,
        }
    }
}

/// What the driver comes back with.
#[derive(Debug, PartialEq, Eq)]
pub enum WorkflowEvent {
    /// The chain's reply to the transaction of an `Execute`.
    Delivered(Delivery),
    /// The account asked for by a `SelectAuthority`, or why there is none.
    Authority(Result<SigningAccount, RunnerError>),
}

/// Mathematical model of a [`WorkflowEvent`].
pub enum WorkflowEventView {
    Delivered(DeliveryView),
    Authority(Result<SigningAccountView, RunnerErrorView>),
}

impl View for WorkflowEvent {
    type V = WorkflowEventView;

    open spec fn view(&self) -> WorkflowEventView {
        match *self {
            WorkflowEvent::Delivered(delivery) => WorkflowEventView::Delivered(delivery@),
            WorkflowEvent::Authority(authority) => WorkflowEventView::Authority(
                match authority {
                    Ok(account) => Ok(account@),
                    Err(e) => Err(e@),
                },
            ),
        }
    }
}

/// The vote that `voter` casts for the proposal `proposal_id`: a yes,
/// without metadata.
pub open spec fn yes_vote(proposal_id: u64, voter: Seq<char>) -> MsgVoteView {
    MsgVoteView {
        proposal_id,
        voter,
        option: VoteOption::Yes.spec_number(),
        metadata: Seq::<char>::empty(),
    }
}

/// The request for the account that votes: the first validator, paying fees
/// in `untrn`, with a gas adjustment of 1.3.
pub open spec fn select_authority() -> WorkflowActionView {
    WorkflowActionView::SelectAuthority { fee_denom: "untrn"@, gas_adjustment_permille: 1300 }
}

/// The end of the workflow by the fault `fault` in `step`.
pub open spec fn failed(step: WorkflowStep, fault: RunnerErrorView) -> (
    ProposalWorkflowView,
    WorkflowActionView,
) {
    (
        ProposalWorkflowView::Done { outcome: Err(WorkflowFaultView { step, fault }) },
        WorkflowActionView::Finish,
    )
}

/// The end of the workflow once the vote is cast: the submission is handed
/// back as the chain gave it.
pub open spec fn concluded(submission: ExecuteResponseView<MsgSubmitProposalResponse>) -> (
    ProposalWorkflowView,
    WorkflowActionView,
) {
    (ProposalWorkflowView::Done { outcome: Ok(submission) }, WorkflowActionView::Finish)
}

/// Where the workflow begins: with the transaction that submits the
/// proposal, or, where the inner message could not be encoded, at its end
/// with nothing sent.
pub open spec fn workflow_begin(
    chain_id: Seq<char>,
    msg_type_url: Seq<char>,
    msg: Result<Seq<u8>, EncodeError>,
    proposer: Seq<char>,
    signer: SigningAccountView,
) -> (ProposalWorkflowView, WorkflowActionView) {
    match executable_proposal_tx(chain_id, msg_type_url, msg, proposer, signer) {
        Ok(tx) => (ProposalWorkflowView::Built, WorkflowActionView::Execute(tx)),
        Err(e) => failed(WorkflowStep::Submit, e),
    }
}

/// Where the workflow goes from `state` when the driver comes back with
/// `event`, and what it asks next.
///
/// - From `Built`, the reply to the submission leads to `Submitted` and the
///   request for the voting account.
/// - From `Submitted`, the voting account leads to `AuthoritySelected` and
///   its yes vote for the id that the chain gave the proposal.
/// - From `AuthoritySelected`, the reply to the vote leads through `Voted`
///   to the end, with the submission as the chain gave it.
/// - A fault in any reply ends the workflow with that fault and its step.
/// - The end stays the end.
/// - An event that is not the awaited one changes nothing.
pub open spec fn workflow_step(
    chain_id: Seq<char>,
    state: ProposalWorkflowView,
    event: WorkflowEventView,
) -> (ProposalWorkflowView, WorkflowActionView) {
    match (state, event) {
        (ProposalWorkflowView::Built, WorkflowEventView::Delivered(delivery)) => {
            match submit_proposal_outcome(delivery) {
                Ok(submission) => (
                    ProposalWorkflowView::Submitted { submission },
                    select_authority(),
                ),
                Err(e) => failed(WorkflowStep::Submit, e),
            }
        },
        (ProposalWorkflowView::Submitted { submission }, WorkflowEventView::Authority(found)) => {
            match found {
                Ok(authority) => (
                    ProposalWorkflowView::AuthoritySelected { submission, authority },
                    WorkflowActionView::Execute(
                        vote_tx(
                            chain_id,
                            yes_vote(submission.data.proposal_id, authority.address),
                            authority,
                        ),
                    ),
                ),
                Err(e) => failed(WorkflowStep::SelectAuthority, e),
            }
        },
        (
            ProposalWorkflowView::AuthoritySelected { submission, .. },
            WorkflowEventView::Delivered(delivery),
        ) => {
            match vote_outcome(delivery) {
                Ok(_) => concluded(submission),
                Err(e) => failed(WorkflowStep::Vote, e),
            }
        },
        (ProposalWorkflowView::Voted { submission }, _) => concluded(submission),
        (ProposalWorkflowView::Done { outcome }, _) => (
            ProposalWorkflowView::Done { outcome },
            WorkflowActionView::Finish,
        ),
        (state, _) => (state, WorkflowActionView::Await),
    }
}

/// Whether `event` tells, in `state`, that the submission entered a block.
pub open spec fn submission_was_included(
    state: ProposalWorkflowView,
    event: WorkflowEventView,
) -> bool {
    state is Built && event is Delivered && event->Delivered_0.included()
}

/// The signer of the submission after a step: only the reply to the
/// submission itself touches the account.
pub open spec fn workflow_signer_after(
    signer: SigningAccountView,
    state: ProposalWorkflowView,
    event: WorkflowEventView,
) -> SigningAccountView {
    if submission_was_included(state, event) {
        signer.advanced(1)
    } else {
        signer
    }
}

/// The governance module together with the chain, for the workflows that
/// need more of the chain than a module has.
pub struct GovWithAppAccess<'a> {
    gov: Gov<'a>,
    app: &'a NeutronTestApp,
}

impl<'a> GovWithAppAccess<'a> {
    /// The module speaks to the chain that the workflows run against.
    #[verifier::type_invariant]
    spec fn same_chain(self) -> bool {
        self.gov.app() == self.app@
    }

    /// The chain that the workflows run against.
    pub closed spec fn app(&self) -> NeutronTestAppView {
        self.app@
    }

    pub fn new(app: &'a NeutronTestApp) -> (gov: Self)
        ensures
            gov.app() == app@,
    {
        GovWithAppAccess { gov: Gov::new(app), app }
    }

    pub fn to_gov(&self) -> (gov: &Gov<'a>)
        ensures
            gov.app() == self.app(),
    {
        proof {
            use_type_invariant(self);
        }
        &self.gov
    }

    /// The chain that the workflows run against.
    pub fn to_app(&self) -> (app: &'a NeutronTestApp)
        ensures
            app@ == self.app(),
    {
        self.app
    }

    /// Begins the workflow for a proposal by `proposer` that holds the one
    /// encoded message `msg` of type `msg_type_url`, signed by `signer`.
    pub fn propose_and_execute(
        &self,
        msg_type_url: String,
        msg: Encoded,
        proposer: String,
        signer: &SigningAccount,
    ) -> (r: (ProposalWorkflow, WorkflowAction))
        ensures
            (r.0@, r.1@) == workflow_begin(
                self.app().chain_id,
                msg_type_url@,
                encoded_view(msg),
                proposer@,
                signer@,
            ),
    {
        proof {
            use_type_invariant(self);
        }
        match self.gov.submit_executable_proposal(msg_type_url, msg, proposer, signer) {
            Ok(tx) => (ProposalWorkflow::Built, WorkflowAction::Execute(tx)),
            Err(fault) => (
                ProposalWorkflow::Done {
                    outcome: Err(WorkflowFault { step: WorkflowStep::Submit, fault }),
                },
                WorkflowAction::Finish,
            ),
        }
    }

    /// Takes the workflow one step on: from `state`, with the `event` that
    /// the driver comes back with, to the next state and what to do next.
    /// `signer` is the account that signed the submission.
    pub fn advance(
        &self,
        state: ProposalWorkflow,
        event: WorkflowEvent,
        signer: &mut SigningAccount,
    ) -> (r: (ProposalWorkflow, WorkflowAction))
        requires
            submission_was_included(state@, event@) ==> old(signer)@.sequence < u64::MAX,
        ensures
            (r.0@, r.1@) == workflow_step(self.app().chain_id, state@, event@),
            final(signer)@ == workflow_signer_after(old(signer)@, state@, event@),
    {
        proof {
            use_type_invariant(self);
        }
        match (state, event) {
            (ProposalWorkflow::Built, WorkflowEvent::Delivered(delivery)) => {
                match self.gov.finish_submit_proposal(signer, delivery) {
                    Ok(submission) => (
                        ProposalWorkflow::Submitted { submission },
                        WorkflowAction::SelectAuthority {
                            fee_denom: String::from_str("untrn"),
                            gas_adjustment_permille: 1300,
                        },
                    ),
                    Err(fault) => (
                        ProposalWorkflow::Done {
                            outcome: Err(WorkflowFault { step: WorkflowStep::Submit, fault }),
                        },
                        WorkflowAction::Finish,
                    ),
                }
            },
            (ProposalWorkflow::Submitted { submission }, WorkflowEvent::Authority(found)) => {
                match found {
                    Ok(authority) => {
                        let vote = MsgVote {
                            proposal_id: submission.data.proposal_id,
                            voter: authority.address(),
                            option: VoteOption::Yes.number(),
                            metadata: String::new(),
                        };
                        let tx = self.gov.vote(vote, &authority);
                        (
                            ProposalWorkflow::AuthoritySelected { submission, authority },
                            WorkflowAction::Execute(tx),
                        )
                    },
                    Err(fault) => (
                        ProposalWorkflow::Done {
                            outcome: Err(
                                WorkflowFault { step: WorkflowStep::SelectAuthority, fault },
                            ),
                        },
                        WorkflowAction::Finish,
                    ),
                }
            },
            (
                ProposalWorkflow::AuthoritySelected { submission, .. },
                WorkflowEvent::Delivered(delivery),
            ) => {
                match self.gov.read_vote(delivery) {
                    Ok(_) => (
                        ProposalWorkflow::Done { outcome: Ok(submission) },
                        WorkflowAction::Finish,
                    ),
                    Err(fault) => (
                        ProposalWorkflow::Done {
                            outcome: Err(WorkflowFault { step: WorkflowStep::Vote, fault }),
                        },
                        WorkflowAction::Finish,
                    ),
                }
            },
            (ProposalWorkflow::Voted { submission }, _) => (
                ProposalWorkflow::Done { outcome: Ok(submission) },
                WorkflowAction::Finish,
            ),
            (ProposalWorkflow::Done { outcome }, _) => (
                ProposalWorkflow::Done { outcome },
                WorkflowAction::Finish,
            ),
            (state, _) => (state, WorkflowAction::Await),
        }
    }
}

} // verus!
