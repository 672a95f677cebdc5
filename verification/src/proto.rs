//! The messages that the library itself reads and writes, and their wire
//! form.
//!
//! The wire form is protobuf as `prost` writes and reads it for the message
//! types of `margined-neutron-std` and `cosmrs`. It is not restated here:
//! each encoding and decoding has a name, and the contracts speak of the
//! names.

use vstd::prelude::*;
use crate::error::{result_view, DecodeError, DecodeErrorView, RunnerError, RunnerErrorView};
use crate::result::GasInfo;

verus! {

/// A message on the wire: the identifier of its type and its encoded body.
#[derive(Clone, Debug, PartialEq, Eq)]
pub struct Any {
    pub type_url: String,
    pub value: Vec<u8>,
}

/// Mathematical model of an [`Any`].
pub struct AnyView {
    pub type_url: Seq<char>,
    pub value: Seq<u8>,
}

impl View for Any {
    type V = AnyView;

    open spec fn view(&self) -> AnyView {
        AnyView { type_url: self.type_url@, value: self.value@ }
    }
}

impl DeepView for Any {
    type V = AnyView;

    open spec fn deep_view(&self) -> AnyView {
        self@
    }
}

/// The options of a vote on a governance proposal.
#[derive(Clone, Copy, Debug, PartialEq, Eq, Structural)]
pub enum VoteOption {
    Unspecified,
    Yes,
    Abstain,
    No,
    NoWithVeto,
}

impl VoteOption {
    /// The number that stands for the option on the wire.
    pub open spec fn spec_number(self) -> i32 {
        match self {
            VoteOption::Unspecified => 0,
            VoteOption::Yes => 1,
            VoteOption::Abstain => 2,
            VoteOption::No => 3,
            VoteOption::NoWithVeto => 4,
        }
    }

    /// The number that stands for the option on the wire.
    pub fn number(self) -> (n: i32)
        ensures
            n == self.spec_number(),
    {
        vote_option_number(self)
    }
}

/// Submits a proposal: the messages to execute if it passes, in order, and
/// the address of who proposes.
#[derive(Clone, Debug, PartialEq, Eq)]
pub struct MsgSubmitProposal {
    pub messages: Vec<Any>,
    pub proposer: String,
}

/// Mathematical model of a [`MsgSubmitProposal`].
pub struct MsgSubmitProposalView {
    pub messages: Seq<AnyView>,
    pub proposer: Seq<char>,
}

impl View for MsgSubmitProposal {
    type V = MsgSubmitProposalView;

    open spec fn view(&self) -> MsgSubmitProposalView {
        MsgSubmitProposalView { messages: self.messages.deep_view(), proposer: self.proposer@ }
    }
}

/// The chain's reply to a submitted proposal: the id it gave the proposal.
#[derive(Clone, Copy, Debug, PartialEq, Eq, Structural)]
pub struct MsgSubmitProposalResponse {
    pub proposal_id: u64,
}

impl View for MsgSubmitProposalResponse {
    type V = MsgSubmitProposalResponse;

    open spec fn view(&self) -> MsgSubmitProposalResponse {
        *self
    }
}

/// Casts a vote on a proposal.
#[derive(Clone, Debug, PartialEq, Eq)]
pub struct MsgVote {
    pub proposal_id: u64,
    pub voter: String,
    /// The option, as its number on the wire.
    pub option: i32,
    pub metadata: String,
}

/// Mathematical model of a [`MsgVote`].
pub struct MsgVoteView {
    pub proposal_id: u64,
    pub voter: Seq<char>,
    pub option: i32,
    pub metadata: Seq<char>,
}

impl View for MsgVote {
    type V = MsgVoteView;

    open spec fn view(&self) -> MsgVoteView {
        MsgVoteView {
            proposal_id: self.proposal_id,
            voter: self.voter@,
            option: self.option,
            metadata: self.metadata@,
        }
    }
}

/// The chain's reply to a vote. It holds nothing.
#[derive(Clone, Copy, Debug, PartialEq, Eq, Structural)]
pub struct MsgVoteResponse {}

impl View for MsgVoteResponse {
    type V = MsgVoteResponse;

    open spec fn view(&self) -> MsgVoteResponse {
        *self
    }
}

/// The bytes that `prost` writes for a proposal submission with these
/// messages and this proposer.
pub uninterp spec fn submit_proposal_wire(msg: MsgSubmitProposalView) -> Seq<u8>;

/// The bytes that `prost` writes for this vote.
pub uninterp spec fn vote_wire(msg: MsgVoteView) -> Seq<u8>;

/// The proposal id that `prost` reads from `bytes` as the reply to a
/// proposal submission, or `None` where it reads none.
pub uninterp spec fn submit_proposal_response_read(bytes: Seq<u8>) -> Option<u64>;

/// Whether `prost` reads `bytes` as the reply to a vote.
pub uninterp spec fn vote_response_read(bytes: Seq<u8>) -> bool;

/// The gas report that `prost` reads from `bytes`, or `None` where it reads
/// none.
pub uninterp spec fn gas_info_read(bytes: Seq<u8>) -> Option<GasInfo>;

/// The replies of a transaction's messages that `prost` reads from `bytes`,
/// in order, or `None` where it cannot read `bytes` as such a list.
pub uninterp spec fn tx_msg_responses_read(bytes: Seq<u8>) -> Option<Seq<AnyView>>;

/// `i32::from` on `margined_neutron_std`'s `VoteOption`, which gives each
/// option the number that the protobuf definition gives it: 0 for
/// unspecified, 1 for yes, 2 for abstain, 3 for no, 4 for no with veto.
#[verifier::external_body]
fn vote_option_number(option: VoteOption) -> (n: i32)
    ensures
        n == option.spec_number(),
{
    i32::from(
        match option {
            VoteOption::Unspecified => margined_neutron_std::types::cosmos::gov::v1::VoteOption::Unspecified,
            VoteOption::Yes => margined_neutron_std::types::cosmos::gov::v1::VoteOption::Yes,
            VoteOption::Abstain => margined_neutron_std::types::cosmos::gov::v1::VoteOption::Abstain,
            VoteOption::No => margined_neutron_std::types::cosmos::gov::v1::VoteOption::No,
            VoteOption::NoWithVeto => margined_neutron_std::types::cosmos::gov::v1::VoteOption::NoWithVeto,
        },
    )
}

/// The constant `TYPE_URL` of `margined_neutron_std`'s admin module
/// `MsgSubmitProposal`: the identifier under which the chain routes it.
#[verifier::external_body]
pub(crate) fn msg_submit_proposal_type_url() -> (url: &'static str)
    ensures
        url@ == "/cosmos.adminmodule.adminmodule.MsgSubmitProposal"@,
{
    margined_neutron_std::types::cosmos::adminmodule::adminmodule::MsgSubmitProposal::TYPE_URL
}

/// The constant `TYPE_URL` of `margined_neutron_std`'s governance
/// `v1beta1::MsgSubmitProposal`.
#[verifier::external_body]
pub(crate) fn msg_submit_proposal_v1beta1_type_url() -> (url: &'static str)
    ensures
        url@ == "/cosmos.gov.v1beta1.MsgSubmitProposal"@,
{
    margined_neutron_std::types::cosmos::gov::v1beta1::MsgSubmitProposal::TYPE_URL
}

/// The constant `TYPE_URL` of `margined_neutron_std`'s governance
/// `v1::MsgVote`.
#[verifier::external_body]
pub(crate) fn msg_vote_type_url() -> (url: &'static str)
    ensures
        url@ == "/cosmos.gov.v1.MsgVote"@,
{
    margined_neutron_std::types::cosmos::gov::v1::MsgVote::TYPE_URL
}

/// `prost::Message::encode_to_vec` on `margined_neutron_std`'s admin module
/// `MsgSubmitProposal` with the same messages and proposer. The result is a
/// function of the message alone; it is named, not described.
#[verifier::external_body]
fn encode_submit_proposal(msg: &MsgSubmitProposal) -> (bytes: Vec<u8>)
    ensures
        bytes@ == submit_proposal_wire(msg@),
{
    let messages = msg.messages.iter().map(
        |m| margined_neutron_std::shim::Any { type_url: m.type_url.clone(), value: m.value.clone() },
    ).collect();
    prost::Message::encode_to_vec(
        &margined_neutron_std::types::cosmos::adminmodule::adminmodule::MsgSubmitProposal {
            messages,
            proposer: msg.proposer.clone(),
        },
    )
}

/// `prost::Message::encode_to_vec` on `margined_neutron_std`'s governance
/// `v1::MsgVote` with the same fields. The result is a function of the
/// message alone; it is named, not described.
#[verifier::external_body]
fn encode_vote(msg: &MsgVote) -> (bytes: Vec<u8>)
    ensures
        bytes@ == vote_wire(msg@),
{
    prost::Message::encode_to_vec(
        &margined_neutron_std::types::cosmos::gov::v1::MsgVote {
            proposal_id: msg.proposal_id,
            voter: msg.voter.clone(),
            option: msg.option,
            metadata: msg.metadata.clone(),
        },
    )
}

/// `prost::Message::decode` for `margined_neutron_std`'s governance
/// `v1::MsgSubmitProposalResponse`, of which the proposal id is kept. Where
/// `prost` reports an error the result is `None`. The result is a function
/// of the bytes alone; it is named, not described.
#[verifier::external_body]
fn decode_submit_proposal_response(bytes: &[u8]) -> (id: Option<u64>)
    ensures
        id == submit_proposal_response_read(bytes@),
{
    <margined_neutron_std::types::cosmos::gov::v1::MsgSubmitProposalResponse as prost::Message>::decode(
        bytes,
    ).ok().map(|r| r.proposal_id)
}

/// `prost::Message::decode` for `margined_neutron_std`'s governance
/// `v1::MsgVoteResponse`, a message without fields: the result says
/// whether `prost` reported no error. It is a function of the bytes alone;
/// it is named, not described.
#[verifier::external_body]
fn decode_vote_response(bytes: &[u8]) -> (read: bool)
    ensures
        read == vote_response_read(bytes@),
{
    <margined_neutron_std::types::cosmos::gov::v1::MsgVoteResponse as prost::Message>::decode(
        bytes,
    ).is_ok()
}

/// `prost::Message::decode` for `cosmrs`'s `GasInfo`, of which both numbers
/// are kept. Where `prost` reports an error the result is `None`. The
/// result is a function of the bytes alone; it is named, not described.
#[verifier::external_body]
fn decode_gas_info(bytes: &[u8]) -> (info: Option<GasInfo>)
    ensures
        info == gas_info_read(bytes@),
{
    <cosmrs::proto::cosmos::base::abci::v1beta1::GasInfo as prost::Message>::decode(bytes).ok().map(
        |g| GasInfo { gas_wanted: g.gas_wanted, gas_used: g.gas_used },
    )
}

/// `prost::Message::decode` for `cosmrs`'s `TxMsgData`, of which the list
/// `msg_responses` is kept, each entry with its type identifier and its
/// bytes. Where `prost` reports an error the result is `None`. The result
/// is a function of the bytes alone; it is named, not described.
#[verifier::external_body]
fn decode_tx_msg_data(bytes: &[u8]) -> (responses: Option<Vec<Any>>)
    ensures
        responses.deep_view() == tx_msg_responses_read(bytes@),
{
    let data = <cosmrs::proto::cosmos::base::abci::v1beta1::TxMsgData as prost::Message>::decode(
        bytes,
    ).ok()?;
    Some(data.msg_responses.into_iter().map(|a| Any { type_url: a.type_url, value: a.value }).collect())
}

impl MsgSubmitProposal {
    /// The message on the wire.
    pub fn to_bytes(&self) -> (bytes: Vec<u8>)
        ensures
            bytes@ == submit_proposal_wire(self@),
    {
        encode_submit_proposal(self)
    }
}

impl MsgVote {
    /// The message on the wire.
    pub fn to_bytes(&self) -> (bytes: Vec<u8>)
        ensures
            bytes@ == vote_wire(self@),
    {
        encode_vote(self)
    }
}

/// What a reply to a proposal submission is, given what was read from it: a
/// reply with the id that was read, or a decoding fault where none was.
pub open spec fn submit_proposal_response_of(read: Option<u64>) -> Result<
    MsgSubmitProposalResponse,
    RunnerErrorView,
> {
    match read {
        Some(proposal_id) => Ok(MsgSubmitProposalResponse { proposal_id }),
        None => Err(RunnerErrorView::DecodeError(DecodeErrorView::ProtoDecodeError)),
    }
}

impl MsgSubmitProposalResponse {
    /// Makes the reply out of what was read from the wire.
    pub fn from_read(read: Option<u64>) -> (r: Result<MsgSubmitProposalResponse, RunnerError>)
        ensures
            result_view(r) == submit_proposal_response_of(read),
    {
        match read {
            Some(proposal_id) => Ok(MsgSubmitProposalResponse { proposal_id }),
            None => Err(RunnerError::DecodeError(DecodeError::ProtoDecodeError)),
        }
    }

    /// Reads the reply from the wire.
    pub fn decode(bytes: &[u8]) -> (r: Result<MsgSubmitProposalResponse, RunnerError>)
        ensures
            result_view(r) == submit_proposal_response_of(submit_proposal_response_read(bytes@)),
    {
        MsgSubmitProposalResponse::from_read(decode_submit_proposal_response(bytes))
    }
}

/// What a reply to a vote is, given whether it could be read: the reply, or
/// a decoding fault.
pub open spec fn vote_response_of(read: bool) -> Result<MsgVoteResponse, RunnerErrorView> {
    if read {
        Ok(MsgVoteResponse {  })
    } else {
        Err(RunnerErrorView::DecodeError(DecodeErrorView::ProtoDecodeError))
    }
}

impl MsgVoteResponse {
    /// Makes the reply out of whether it could be read from the wire.
    pub fn from_read(read: bool) -> (r: Result<MsgVoteResponse, RunnerError>)
        ensures
            result_view(r) == vote_response_of(read),
    {
        if read {
            Ok(MsgVoteResponse {  })
        } else {
            Err(RunnerError::DecodeError(DecodeError::ProtoDecodeError))
        }
    }

    /// Reads the reply from the wire.
    pub fn decode(bytes: &[u8]) -> (r: Result<MsgVoteResponse, RunnerError>)
        ensures
            result_view(r) == vote_response_of(vote_response_read(bytes@)),
    {
        MsgVoteResponse::from_read(decode_vote_response(bytes))
    }
}

/// What a gas report is, given what was read of it: the report, or a
/// decoding fault where none was read.
pub open spec fn gas_info_of(read: Option<GasInfo>) -> Result<GasInfo, RunnerErrorView> {
    match read {
        Some(info) => Ok(info),
        None => Err(RunnerErrorView::DecodeError(DecodeErrorView::ProtoDecodeError)),
    }
}

impl GasInfo {
    /// Makes the report out of what was read from the wire.
    pub fn from_read(read: Option<GasInfo>) -> (r: Result<GasInfo, RunnerError>)
        ensures
            result_view(r) == gas_info_of(read),
    {
        match read {
            Some(info) => Ok(info),
            None => Err(RunnerError::DecodeError(DecodeError::ProtoDecodeError)),
        }
    }

    /// Reads the report from the wire.
    pub fn decode(bytes: &[u8]) -> (r: Result<GasInfo, RunnerError>)
        ensures
            result_view(r) == gas_info_of(gas_info_read(bytes@)),
    {
        GasInfo::from_read(decode_gas_info(bytes))
    }
}

/// Reads the replies of a transaction's messages from the data that the
/// chain recorded for it.
pub fn read_tx_msg_responses(data: &[u8]) -> (responses: Option<Vec<Any>>)
    ensures
        responses.deep_view() == tx_msg_responses_read(data@),
{
    decode_tx_msg_data(data)
}

} // verus!
