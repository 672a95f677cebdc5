//! Dispatch: what is handed to the chain for a transaction or a query, and
//! what the chain's reply means.

use vstd::prelude::*;
use crate::account::SigningAccountView;
use crate::error::{
    encoded_view, query_fault, result_view, DecodeError, DecodeErrorView, EncodeError, Encoded,
    RunnerError, RunnerErrorView,
};
use crate::proto::{Any, AnyView};
use crate::result::{
    DeliveryView, ExecuteResponse, ExecuteResponseView, GasInfo, TxResult, TxResultView,
};

pub mod app;

verus! {

/// A transaction to hand to the chain: the messages, in order, to apply all
/// or none of, and what its signature binds it to.
#[derive(Clone, Debug, PartialEq, Eq)]
pub struct TxRequest {
    pub chain_id: String,
    /// Address of the account that signs.
    pub signer: String,
    /// Sequence number of the signer that the transaction takes.
    pub sequence: u64,
    pub msgs: Vec<Any>,
}

/// Mathematical model of a [`TxRequest`].
pub struct TxRequestView {
    pub chain_id: Seq<char>,
    pub signer: Seq<char>,
    pub sequence: u64,
    pub msgs: Seq<AnyView>,
}

impl View for TxRequest {
    type V = TxRequestView;

    open spec fn view(&self) -> TxRequestView {
        TxRequestView {
            chain_id: self.chain_id@,
            signer: self.signer@,
            sequence: self.sequence,
            msgs: self.msgs.deep_view(),
        }
    }
}

/// A query to hand to the chain: the route and the encoded request.
#[derive(Clone, Debug, PartialEq, Eq)]
pub struct QueryRequest {
    pub path: String,
    pub data: Vec<u8>,
}

/// Mathematical model of a [`QueryRequest`].
pub struct QueryRequestView {
    pub path: Seq<char>,
    pub data: Seq<u8>,
}

impl View for QueryRequest {
    type V = QueryRequestView;

    open spec fn view(&self) -> QueryRequestView {
        QueryRequestView { path: self.path@, data: self.data@ }
    }
}

/// The one envelope of the encoded message `msg` under `type_url`.
pub open spec fn envelope(msg: Seq<u8>, type_url: Seq<char>) -> AnyView {
    AnyView { type_url, value: msg }
}

/// The envelopes of the messages, each under its type identifier, in the
/// order given; or, where one of them could not be encoded, the fault of
/// the first such.
pub open spec fn envelopes(msgs: Seq<(Result<Seq<u8>, EncodeError>, Seq<char>)>) -> Result<
    Seq<AnyView>,
    EncodeError,
>
    decreases msgs.len(),
{
    if msgs.len() == 0 {
        Ok(Seq::empty())
    } else {
        match envelopes(msgs.drop_last()) {
            Ok(before) => match msgs.last().0 {
                Ok(bytes) => Ok(before.push(envelope(bytes, msgs.last().1))),
                Err(e) => Err(e),
            },
            Err(e) => Err(e),
        }
    }
}

/// The model of a list of encoded messages with their type identifiers.
pub open spec fn encoded_pairs<'a>(msgs: Seq<(Encoded, &'a str)>) -> Seq<
    (Result<Seq<u8>, EncodeError>, Seq<char>),
> {
    Seq::new(msgs.len(), |i: int| (encoded_view(msgs[i].0), msgs[i].1@))
}

/// The transaction that carries `msgs` for `signer` on the chain `chain_id`.
pub open spec fn tx_request(
    chain_id: Seq<char>,
    msgs: Seq<AnyView>,
    signer: SigningAccountView,
) -> TxRequestView {
    TxRequestView { chain_id, signer: signer.address, sequence: signer.sequence, msgs }
}

/// The transaction that carries the envelopes `msgs` for `signer`, or the
/// encoding fault that there is in their place. With an encoding fault
/// there is nothing to send.
pub open spec fn encoded_tx(
    chain_id: Seq<char>,
    msgs: Result<Seq<AnyView>, EncodeError>,
    signer: SigningAccountView,
) -> Result<TxRequestView, RunnerErrorView> {
    match msgs {
        Ok(msgs) => Ok(tx_request(chain_id, msgs, signer)),
        Err(e) => Err(RunnerErrorView::EncodeError(e)),
    }
}

/// The transaction that carries the one message `msg` under `type_url` for
/// `signer`, or the encoding fault that there is in its place.
pub open spec fn single_tx(
    chain_id: Seq<char>,
    msg: Result<Seq<u8>, EncodeError>,
    type_url: Seq<char>,
    signer: SigningAccountView,
) -> Result<TxRequestView, RunnerErrorView> {
    match msg {
        Ok(bytes) => Ok(tx_request(chain_id, seq![envelope(bytes, type_url)], signer)),
        Err(e) => Err(RunnerErrorView::EncodeError(e)),
    }
}

/// The query that asks `path` the request `q`, or the encoding fault that
/// there is in its place.
pub open spec fn query_request(path: Seq<char>, q: Result<Seq<u8>, EncodeError>) -> Result<
    QueryRequestView,
    RunnerErrorView,
> {
    match q {
        Ok(data) => Ok(QueryRequestView { path, data }),
        Err(e) => Err(RunnerErrorView::EncodeError(e)),
    }
}

/// The signer after the chain replied to one of its transactions: a
/// transaction that entered a block took one sequence number, whether or not
/// its messages took effect; one that did not enter a block took none.
pub open spec fn account_after(
    account: SigningAccountView,
    delivery: DeliveryView,
) -> SigningAccountView {
    if delivery.included() {
        account.advanced(1)
    } else {
        account
    }
}

/// The signer after the chain replied to a run of its transactions, one
/// after the other.
pub open spec fn account_after_all(
    account: SigningAccountView,
    deliveries: Seq<DeliveryView>,
) -> SigningAccountView
    decreases deliveries.len(),
{
    if deliveries.len() == 0 {
        account
    } else {
        account_after(account_after_all(account, deliveries.drop_last()), deliveries.last())
    }
}

/// How many of the transactions entered a block.
pub open spec fn count_included(deliveries: Seq<DeliveryView>) -> nat
    decreases deliveries.len(),
{
    if deliveries.len() == 0 {
        0
    } else {
        count_included(deliveries.drop_last()) + if deliveries.last().included() {
            1nat
        } else {
            0nat
        }
    }
}

/// What the result that the chain recorded for a transaction comes to,
/// given the replies of its messages as read from its data:
/// - unreadable data is a decoding fault;
/// - a result without any reply is that of a transaction whose messages did
///   not take effect, and the fault carries the chain's log;
/// - otherwise the first reply's bytes are the data of the response, beside
///   the raw data, the events and the gas as the chain recorded them.
pub open spec fn tx_outcome(tx: TxResultView, responses: Option<Seq<AnyView>>) -> Result<
    ExecuteResponseView<Seq<u8>>,
    RunnerErrorView,
> {
    match responses {
        None => Err(RunnerErrorView::DecodeError(DecodeErrorView::ProtoDecodeError)),
        Some(rs) => if rs.len() == 0 {
            Err(RunnerErrorView::ExecuteError { msg: tx.log })
        } else {
            Ok(
                ExecuteResponseView {
                    data: rs[0].value,
                    raw_data: tx.data,
                    events: tx.events,
                    gas_info: GasInfo { gas_wanted: tx.gas_wanted, gas_used: tx.gas_used },
                },
            )
        },
    }
}

/// What the chain's reply to a query on `path` comes to: the bytes of the
/// answer, or the fault that the chain's text stands for.
pub open spec fn query_outcome(path: Seq<char>, reply: Result<Seq<u8>, Seq<char>>) -> Result<
    Seq<u8>,
    RunnerErrorView,
> {
    match reply {
        Ok(bytes) => Ok(bytes),
        Err(msg) => Err(query_fault(path, msg)),
    }
}

/// The response with the reply of the first message read as `data`, or the
/// fault that reading it ended in.
pub open spec fn typed_outcome<V>(
    response: ExecuteResponseView<Seq<u8>>,
    data: Result<V, RunnerErrorView>,
) -> Result<ExecuteResponseView<V>, RunnerErrorView> {
    match data {
        Ok(data) => Ok(
            ExecuteResponseView {
                data,
                raw_data: response.raw_data,
                events: response.events,
                gas_info: response.gas_info,
            },
        ),
        Err(e) => Err(e),
    }
}

/// Puts what was read from the reply of the first message in the place of
/// its bytes. A fault in reading it is the outcome, though the transaction
/// took effect.
pub fn typed_response<T: View>(
    response: ExecuteResponse<Vec<u8>>,
    data: Result<T, RunnerError>,
) -> (r: Result<ExecuteResponse<T>, RunnerError>)
    ensures
        result_view(r) == typed_outcome(response@, result_view(data)),
{
    match data {
        Ok(data) => Ok(
            ExecuteResponse {
                data,
                raw_data: response.raw_data,
                events: response.events,
                gas_info: response.gas_info,
            },
        ),
        Err(e) => Err(e),
    }
}

/// Reads the outcome of a transaction from the result that the chain
/// recorded for it, given the replies of its messages as read from its data.
pub fn read_tx_result(tx: TxResult, responses: Option<Vec<Any>>) -> (r: Result<
    ExecuteResponse<Vec<u8>>,
    RunnerError,
>)
    ensures
        result_view(r) == tx_outcome(tx@, responses.deep_view()),
{
    match responses {
        None => Err(RunnerError::DecodeError(DecodeError::ProtoDecodeError)),
        Some(mut rs) => {
            if rs.len() == 0 {
                Err(RunnerError::ExecuteError { msg: tx.log })
            } else {
                let ghost all = rs.deep_view();
                let first = rs.swap_remove(0);
                assert(first@ == all[0]);
                Ok(
                    ExecuteResponse {
                        data: first.value,
                        raw_data: tx.data,
                        events: tx.events,
                        gas_info: GasInfo { gas_wanted: tx.gas_wanted, gas_used: tx.gas_used },
                    },
                )
            }
        },
    }
}

/// A message that could not be encoded decides for every longer list that
/// begins alike: the fault of the list is the fault of the beginning.
pub proof fn lemma_first_encoding_fault_wins(
    msgs: Seq<(Result<Seq<u8>, EncodeError>, Seq<char>)>,
    n: int,
)
    requires
        0 <= n <= msgs.len(),
        envelopes(msgs.take(n)) is Err,
    ensures
        envelopes(msgs) == envelopes(msgs.take(n)),
    decreases msgs.len() - n,
{
    if n < msgs.len() {
        assert(msgs.take(n + 1).drop_last() =~= msgs.take(n));
        lemma_first_encoding_fault_wins(msgs, n + 1);
    } else {
        assert(msgs.take(n) =~= msgs);
    }
}

/// After a run of transactions the signer's sequence number has grown by
/// the number of them that entered a block, and by nothing else: a reverted
/// transaction counts, a rejected one does not. Nothing else of the account
/// changes.
pub proof fn lemma_sequence_counts_inclusions(
    account: SigningAccountView,
    deliveries: Seq<DeliveryView>,
)
    requires
        account.sequence + deliveries.len() <= u64::MAX,
    ensures
        account_after_all(account, deliveries) == account.advanced(count_included(deliveries)),
        count_included(deliveries) <= deliveries.len(),
    decreases deliveries.len(),
{
    if deliveries.len() > 0 {
        lemma_sequence_counts_inclusions(account, deliveries.drop_last());
    }
}

/// After `n` transactions that all entered a block the sequence number has
/// grown by exactly `n`.
pub proof fn lemma_sequence_after_n_inclusions(
    account: SigningAccountView,
    deliveries: Seq<DeliveryView>,
)
    requires
        account.sequence + deliveries.len() <= u64::MAX,
        forall|i: int| 0 <= i < deliveries.len() ==> (#[trigger] deliveries[i]).included(),
    ensures
        account_after_all(account, deliveries) == account.advanced(deliveries.len()),
    decreases deliveries.len(),
{
    if deliveries.len() > 0 {
        lemma_sequence_after_n_inclusions(account, deliveries.drop_last());
    }
}

} // verus!
