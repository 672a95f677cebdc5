//! The Neutron test chain as the client sees it.

use vstd::prelude::*;
use vstd::string::*;
use crate::account::{
    Coin, CoinView, FeeSetting, FeeSettingView, SigningAccount, SigningAccountView,
};
use crate::error::{
    encoded_view, result_view, EncodeError, Encoded, RunnerError, RunnerErrorView,
};
use crate::proto::{
    gas_info_of, gas_info_read, read_tx_msg_responses, tx_msg_responses_read, Any, AnyView,
};
use crate::result::{
    Delivery, DeliveryView, ExecuteResponse, ExecuteResponseView, GasInfo, TxResultView,
};
use crate::runner::{
    account_after, encoded_pairs, encoded_tx, envelope, envelopes, lemma_first_encoding_fault_wins,
    query_outcome, query_request, read_tx_result, single_tx, tx_outcome, tx_request, QueryRequest,
    TxRequest, TxRequestView,
};

verus! {

/// The parameters that the Neutron test chain runs with. It is the entry
/// point of every dispatch: it builds what is handed to the chain and reads
/// what the chain hands back.
#[derive(Clone, Debug, PartialEq, Eq)]
pub struct NeutronTestApp {
    fee_denom: String,
    chain_id: String,
    address_prefix: String,
    default_gas_adjustment_permille: u64,
}

/// Mathematical model of a [`NeutronTestApp`].
pub struct NeutronTestAppView {
    pub fee_denom: Seq<char>,
    pub chain_id: Seq<char>,
    pub address_prefix: Seq<char>,
    pub default_gas_adjustment_permille: u64,
}

/// The parameters of the Neutron test chain: fees in `untrn`, chain id
/// `neutron-666`, addresses that begin with `neutron`, and a gas adjustment
/// of 1.2.
pub open spec fn neutron_parameters() -> NeutronTestAppView {
    NeutronTestAppView {
        fee_denom: "untrn"@,
        chain_id: "neutron-666"@,
        address_prefix: "neutron"@,
        default_gas_adjustment_permille: 1200,
    }
}

/// The least gas price that the chain takes, in the smallest unit of the fee
/// denomination.
pub open spec fn min_gas_price() -> u128 {
    2_500
}

/// An account with automatic fees that has sent nothing yet: it pays the
/// least gas price in `denom`.
pub open spec fn fresh_account(
    address: Seq<char>,
    denom: Seq<char>,
    gas_adjustment_permille: u64,
) -> SigningAccountView {
    SigningAccountView {
        address,
        fee_setting: FeeSettingView::Auto {
            gas_price: CoinView { denom, amount: min_gas_price() },
            gas_adjustment_permille,
        },
        sequence: 0,
    }
}

/// What the chain's reply to a simulation comes to: the gas report read
/// from the answer, or the fault that the chain reported.
pub open spec fn simulate_outcome(reply: Result<Seq<u8>, RunnerErrorView>) -> Result<
    GasInfo,
    RunnerErrorView,
> {
    match reply {
        Ok(bytes) => gas_info_of(gas_info_read(bytes)),
        Err(e) => Err(e),
    }
}

/// The constant `NEUTRON_MIN_GAS_PRICE` of `test_tube_ntrn`: the gas price
/// that it gives every account it makes, 2500.
#[verifier::external_body]
fn neutron_min_gas_price() -> (price: u128)
    ensures
        price == min_gas_price(),
{
    test_tube_ntrn::runner::app::NEUTRON_MIN_GAS_PRICE
}

/// Whole seconds of a time in nanoseconds, rounded toward zero.
pub open spec fn seconds_of_nanos(nanos: int) -> int {
    if nanos >= 0 {
        nanos / 1_000_000_000
    } else {
        -((-nanos) / 1_000_000_000)
    }
}

/// What a submitted transaction comes to for its caller: the response read
/// from what the chain recorded, or an execution fault with the chain's
/// text, whether the transaction was rejected or reverted.
pub open spec fn execute_outcome(delivery: DeliveryView) -> Result<
    ExecuteResponseView<Seq<u8>>,
    RunnerErrorView,
> {
    match delivery {
        DeliveryView::Rejected { msg } => Err(RunnerErrorView::ExecuteError { msg }),
        DeliveryView::Reverted { log } => Err(RunnerErrorView::ExecuteError { msg: log }),
        DeliveryView::Executed(tx) => tx_outcome(tx, tx_msg_responses_read(tx.data)),
    }
}

impl View for NeutronTestApp {
    type V = NeutronTestAppView;

    closed spec fn view(&self) -> NeutronTestAppView {
        NeutronTestAppView {
            fee_denom: self.fee_denom@,
            chain_id: self.chain_id@,
            address_prefix: self.address_prefix@,
            default_gas_adjustment_permille: self.default_gas_adjustment_permille,
        }
    }
}

impl Default for NeutronTestApp {
    fn default() -> (app: Self)
        ensures
            app@ == neutron_parameters(),
    {
        NeutronTestApp::new()
    }
}

impl NeutronTestApp {
    pub fn new() -> (app: Self)
        ensures
            app@ == neutron_parameters(),
    {
        NeutronTestApp {
            fee_denom: String::from_str("untrn"),
            chain_id: String::from_str("neutron-666"),
            address_prefix: String::from_str("neutron"),
            default_gas_adjustment_permille: 1200,
        }
    }

    /// Denomination in which fees are paid.
    pub fn fee_denom(&self) -> (denom: &str)
        ensures
            denom@ == self@.fee_denom,
    {
        self.fee_denom.as_str()
    }

    pub fn chain_id(&self) -> (id: &str)
        ensures
            id@ == self@.chain_id,
    {
        self.chain_id.as_str()
    }

    /// What every address of the chain begins with.
    pub fn address_prefix(&self) -> (prefix: &str)
        ensures
            prefix@ == self@.address_prefix,
    {
        self.address_prefix.as_str()
    }

    /// The factor, in thousandths, by which simulated gas is multiplied to
    /// get the gas limit of an account with automatic fees.
    pub fn default_gas_adjustment_permille(&self) -> (permille: u64)
        ensures
            permille == self@.default_gas_adjustment_permille,
    {
        self.default_gas_adjustment_permille
    }

    /// The account that the chain made at `address`, as the client keeps it:
    /// with automatic fees in the chain's fee denomination, at the chain's
    /// default gas adjustment.
    pub fn init_account(&self, address: String) -> (account: SigningAccount)
        ensures
            account@ == fresh_account(
                address@,
                self@.fee_denom,
                self@.default_gas_adjustment_permille,
            ),
    {
        SigningAccount::new(
            address,
            FeeSetting::Auto {
                gas_price: Coin { denom: self.fee_denom.clone(), amount: neutron_min_gas_price() },
                gas_adjustment_permille: self.default_gas_adjustment_permille,
            },
        )
    }

    /// The accounts that the chain made at `addresses`, in their order, each
    /// as `init_account` keeps it.
    pub fn init_accounts(&self, addresses: Vec<String>) -> (accounts: Vec<SigningAccount>)
        ensures
            accounts.len() == addresses.len(),
            forall|i: int|
                0 <= i < addresses.len() ==> (#[trigger] accounts[i])@ == fresh_account(
                    addresses[i]@,
                    self@.fee_denom,
                    self@.default_gas_adjustment_permille,
                ),
    {
        let mut accounts: Vec<SigningAccount> = Vec::new();
        let mut i: usize = 0;
        while i < addresses.len()
            invariant
                i <= addresses.len(),
                accounts.len() == i,
                forall|j: int|
                    0 <= j < i ==> (#[trigger] accounts[j])@ == fresh_account(
                        addresses[j]@,
                        self@.fee_denom,
                        self@.default_gas_adjustment_permille,
                    ),
            decreases addresses.len() - i,
        {
            accounts.push(self.init_account(addresses[i].clone()));
            i = i + 1;
        }
        accounts
    }

    /// The chain's first validator at `address` as an account that pays
    /// fees in `denom`, with the gas adjustment given in thousandths.
    pub fn get_first_validator_signing_account(
        &self,
        address: String,
        denom: String,
        gas_adjustment_permille: u64,
    ) -> (account: SigningAccount)
        ensures
            account@ == fresh_account(address@, denom@, gas_adjustment_permille),
    {
        SigningAccount::new(
            address,
            FeeSetting::Auto {
                gas_price: Coin { denom, amount: neutron_min_gas_price() },
                gas_adjustment_permille,
            },
        )
    }

    /// The block time in whole seconds, given the block time in nanoseconds.
    pub fn get_block_time_seconds(&self, block_time_nanos: i64) -> (seconds: i64)
        ensures
            seconds == seconds_of_nanos(block_time_nanos as int),
    {
        block_time_nanos / 1_000_000_000i64
    }

    /// The transaction that carries the given envelopes, in their order, for
    /// `signer`.
    pub fn execute_multiple_raw(&self, msgs: Vec<Any>, signer: &SigningAccount) -> (tx: TxRequest)
        ensures
            tx@ == tx_request(self@.chain_id, msgs.deep_view(), signer@),
    {
        TxRequest {
            chain_id: self.chain_id.clone(),
            signer: signer.address(),
            sequence: signer.sequence(),
            msgs,
        }
    }

    /// The transaction that carries the given messages, each under its type
    /// identifier, in their order, for `signer`. Where a message could not
    /// be encoded, the fault of the first such is the result and there is
    /// nothing to send.
    pub fn execute_multiple(&self, msgs: &[(Encoded, &str)], signer: &SigningAccount) -> (r: Result<
        TxRequest,
        RunnerError,
    >)
        ensures
            result_view(r) == encoded_tx(
                self@.chain_id,
                envelopes(encoded_pairs(msgs@)),
                signer@,
            ),
    {
        let ghost pairs = encoded_pairs(msgs@);
        let mut wrapped: Vec<Any> = Vec::new();
        let mut i: usize = 0;
        assert(wrapped.deep_view() =~= Seq::<AnyView>::empty());
        assert(pairs.take(0).len() == 0);
        while i < msgs.len()
            invariant
                i <= msgs.len(),
                pairs == encoded_pairs(msgs@),
                envelopes(pairs.take(i as int)) == Ok::<Seq<AnyView>, EncodeError>(wrapped.deep_view()),
            decreases msgs.len() - i,
        {
            proof {
                assert(pairs.take(i + 1).drop_last() =~= pairs.take(i as int));
            }
            match &msgs[i].0 {
                Ok(bytes) => {
                    let ghost before = wrapped.deep_view();
                    let value = bytes.clone();
                    assert(value@ =~= bytes@);
                    wrapped.push(Any { type_url: String::from_str(msgs[i].1), value });
                    assert(wrapped.deep_view() =~= before.push(envelope(bytes@, msgs[i as int].1@)));
                },
                Err(e) => {
                    proof {
                        lemma_first_encoding_fault_wins(pairs, i + 1);
                    }
                    return Err(RunnerError::EncodeError(*e));
                },
            }
            i = i + 1;
        }
        assert(pairs.take(i as int) =~= pairs);
        Ok(self.execute_multiple_raw(wrapped, signer))
    }

    /// The transaction that carries the one message `msg` under `type_url`
    /// for `signer`. Where the message could not be encoded, that fault is
    /// the result and there is nothing to send.
    pub fn execute(&self, msg: Encoded, type_url: &str, signer: &SigningAccount) -> (r: Result<
        TxRequest,
        RunnerError,
    >)
        ensures
            result_view(r) == single_tx(self@.chain_id, encoded_view(msg), type_url@, signer@),
    {
        match msg {
            Ok(value) => {
                let msgs = vec![Any { type_url: String::from_str(type_url), value }];
                assert(msgs.deep_view() =~= seq![envelope(value@, type_url@)]);
                Ok(self.execute_multiple_raw(msgs, signer))
            },
            Err(e) => Err(RunnerError::EncodeError(e)),
        }
    }

    /// The query that asks `path` the request `q`. Where the request could
    /// not be encoded, that fault is the result and there is nothing to
    /// ask.
    pub fn query(&self, path: &str, q: Encoded) -> (r: Result<QueryRequest, RunnerError>)
        ensures
            result_view(r) == query_request(path@, encoded_view(q)),
    {
        match q {
            Ok(data) => Ok(QueryRequest { path: String::from_str(path), data }),
            Err(e) => Err(RunnerError::EncodeError(e)),
        }
    }

    /// The transaction that carries the given envelopes for `signer`, to
    /// have the chain say what gas it would take.
    pub fn simulate_tx(&self, msgs: Vec<Any>, signer: &SigningAccount) -> (tx: TxRequest)
        ensures
            tx@ == tx_request(self@.chain_id, msgs.deep_view(), signer@),
    {
        self.execute_multiple_raw(msgs, signer)
    }

    /// Takes the chain's reply to a simulation: the encoded gas report, or
    /// the fault with which the chain refused.
    pub fn finish_simulate_tx(&self, reply: Result<Vec<u8>, RunnerError>) -> (r: Result<
        GasInfo,
        RunnerError,
    >)
        ensures
            result_view(r) == simulate_outcome(result_view(reply)),
    {
        match reply {
            Ok(bytes) => GasInfo::decode(bytes.as_slice()),
            Err(e) => Err(e),
        }
    }

    /// Reads the outcome of a transaction from the chain's reply to it.
    pub fn read_delivery(&self, delivery: Delivery) -> (r: Result<
        ExecuteResponse<Vec<u8>>,
        RunnerError,
    >)
        ensures
            result_view(r) == execute_outcome(delivery@),
    {
        match delivery {
            Delivery::Rejected { msg } => Err(RunnerError::ExecuteError { msg }),
            Delivery::Reverted { log } => Err(RunnerError::ExecuteError { msg: log }),
            Delivery::Executed(tx) => {
                let responses = read_tx_msg_responses(tx.data.as_slice());
                read_tx_result(tx, responses)
            },
        }
    }

    /// Takes the chain's reply to a transaction of `signer`: records whether
    /// it took a sequence number, and reads the outcome.
    pub fn finish_execute(&self, signer: &mut SigningAccount, delivery: Delivery) -> (r: Result<
        ExecuteResponse<Vec<u8>>,
        RunnerError,
    >)
        requires
            delivery@.included() ==> old(signer)@.sequence < u64::MAX,
        ensures
            final(signer)@ == account_after(old(signer)@, delivery@),
            result_view(r) == execute_outcome(delivery@),
    {
        if delivery.included() {
            signer.advance_sequence();
        }
        self.read_delivery(delivery)
    }

    /// Takes the chain's reply to a query on `path`: the bytes of the
    /// answer, or the text with which the chain refused.
    pub fn finish_query(&self, path: &str, reply: Result<Vec<u8>, String>) -> (r: Result<
        Vec<u8>,
        RunnerError,
    >)
        ensures
            result_view(r) == query_outcome(
                path@,
                match reply {
                    Ok(bytes) => Ok(bytes@),
                    Err(msg) => Err(msg@),
                },
            ),
    {
        match reply {
            Ok(bytes) => Ok(bytes),
            Err(msg) => Err(RunnerError::from_query_failure(path, msg)),
        }
    }
}

/// What goes to the chain is the message as it was encoded, alone and
/// under the identifier given; and what comes back for a transaction that
/// took effect is the first reply as the chain recorded it, beside the raw
/// data, the events and the gas, all unchanged.
pub proof fn lemma_dispatch_hands_bytes_through(
    chain_id: Seq<char>,
    msg: Seq<u8>,
    type_url: Seq<char>,
    signer: SigningAccountView,
    recorded: TxResultView,
    replies: Seq<AnyView>,
)
    requires
        tx_msg_responses_read(recorded.data) == Some(replies),
        replies.len() > 0,
    ensures
        single_tx(chain_id, Ok(msg), type_url, signer) == Ok::<TxRequestView, RunnerErrorView>(
            TxRequestView {
                chain_id,
                signer: signer.address,
                sequence: signer.sequence,
                msgs: seq![AnyView { type_url, value: msg }],
            },
        ),
        execute_outcome(DeliveryView::Executed(recorded)) == Ok::<
            ExecuteResponseView<Seq<u8>>,
            RunnerErrorView,
        >(
            ExecuteResponseView {
                data: replies[0].value,
                raw_data: recorded.data,
                events: recorded.events,
                gas_info: GasInfo {
                    gas_wanted: recorded.gas_wanted,
                    gas_used: recorded.gas_used,
                },
            },
        ),
{
}

/// A transaction that was reverted and one that was rejected come to the
/// same fault for the caller, with the chain's text unchanged; but the
/// reverted one has taken a sequence number of its signer and the rejected
/// one has not.
pub proof fn lemma_revert_takes_a_sequence_number(account: SigningAccountView, text: Seq<char>)
    requires
        account.sequence < u64::MAX,
    ensures
        execute_outcome(DeliveryView::Reverted { log: text }) == execute_outcome(
            DeliveryView::Rejected { msg: text },
        ),
        execute_outcome(DeliveryView::Reverted { log: text }) == Err::<
            ExecuteResponseView<Seq<u8>>,
            RunnerErrorView,
        >(RunnerErrorView::ExecuteError { msg: text }),
        account_after(account, DeliveryView::Reverted { log: text }).sequence == account.sequence
            + 1,
        account_after(account, DeliveryView::Rejected { msg: text }) == account,
{
}

} // verus!
