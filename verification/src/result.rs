//! What the chain hands back for a transaction, raw and read.

use vstd::prelude::*;

verus! {

/// One key and value of an event.
#[derive(Clone, Debug, PartialEq, Eq)]
pub struct Attribute {
    pub key: String,
    pub value: String,
}

/// Mathematical model of an [`Attribute`].
pub struct AttributeView {
    pub key: Seq<char>,
    pub value: Seq<char>,
}

impl View for Attribute {
    type V = AttributeView;

    open spec fn view(&self) -> AttributeView {
        AttributeView { key: self.key@, value: self.value@ }
    }
}

impl DeepView for Attribute {
    type V = AttributeView;

    open spec fn deep_view(&self) -> AttributeView {
        self@
    }
}

/// An event that a transaction emitted: its type and its attributes, in the
/// order in which the chain listed them.
#[derive(Clone, Debug, PartialEq, Eq)]
pub struct Event {
    pub ty: String,
    pub attributes: Vec<Attribute>,
}

/// Mathematical model of an [`Event`].
pub struct EventView {
    pub ty: Seq<char>,
    pub attributes: Seq<AttributeView>,
}

impl View for Event {
    type V = EventView;

    open spec fn view(&self) -> EventView {
        EventView { ty: self.ty@, attributes: self.attributes.deep_view() }
    }
}

impl DeepView for Event {
    type V = EventView;

    open spec fn deep_view(&self) -> EventView {
        self@
    }
}

/// Gas that a transaction asked for and gas that it used.
#[derive(Clone, Copy, Debug, PartialEq, Eq, Structural)]
pub struct GasInfo {
    pub gas_wanted: u64,
    pub gas_used: u64,
}

impl View for GasInfo {
    type V = GasInfo;

    open spec fn view(&self) -> GasInfo {
        *self
    }
}

/// The outcome of a transaction that the chain executed: the raw outcome
/// (`raw_data`, `events`, `gas_info`) and, in `data`, the reply of its first
/// message.
#[derive(Clone, Debug, PartialEq, Eq)]
pub struct ExecuteResponse<R> {
    pub data: R,
    pub raw_data: Vec<u8>,
    pub events: Vec<Event>,
    pub gas_info: GasInfo,
}

/// Mathematical model of an [`ExecuteResponse`].
pub struct ExecuteResponseView<V> {
    pub data: V,
    pub raw_data: Seq<u8>,
    pub events: Seq<EventView>,
    pub gas_info: GasInfo,
}

impl<R: View> View for ExecuteResponse<R> {
    type V = ExecuteResponseView<R::V>;

    open spec fn view(&self) -> ExecuteResponseView<R::V> {
        ExecuteResponseView {
            data: self.data@,
            raw_data: self.raw_data@,
            events: self.events.deep_view(),
            gas_info: self.gas_info,
        }
    }
}

/// What the chain recorded for a transaction that entered a block.
#[derive(Clone, Debug, PartialEq, Eq)]
pub struct TxResult {
    /// The encoded list of the messages' replies.
    pub data: Vec<u8>,
    /// The chain's log text for the transaction.
    pub log: String,
    pub events: Vec<Event>,
    pub gas_wanted: u64,
    pub gas_used: u64,
}

/// Mathematical model of a [`TxResult`].
pub struct TxResultView {
    pub data: Seq<u8>,
    pub log: Seq<char>,
    pub events: Seq<EventView>,
    pub gas_wanted: u64,
    pub gas_used: u64,
}

impl View for TxResult {
    type V = TxResultView;

    open spec fn view(&self) -> TxResultView {
        TxResultView {
            data: self.data@,
            log: self.log@,
            events: self.events.deep_view(),
            gas_wanted: self.gas_wanted,
            gas_used: self.gas_used,
        }
    }
}

/// What became of a submitted transaction.
#[derive(Clone, Debug, PartialEq, Eq)]
pub enum Delivery {
    /// The transaction never entered a block; `msg` says why.
    Rejected { msg: String },
    /// The transaction entered a block and its messages were reverted;
    /// `log` says why.
    Reverted { log: String },
    /// The transaction entered a block and the chain recorded a result for
    /// it.
    Executed(TxResult),
}

/// Mathematical model of a [`Delivery`].
pub enum DeliveryView {
    Rejected { msg: Seq<char> },
    Reverted { log: Seq<char> },
    Executed(TxResultView),
}

impl View for Delivery {
    type V = DeliveryView;

    open spec fn view(&self) -> DeliveryView {
        match *self {
            Delivery::Rejected { msg } => DeliveryView::Rejected { msg: msg@ },
            Delivery::Reverted { log } => DeliveryView::Reverted { log: log@ },
            Delivery::Executed(tx) => DeliveryView::Executed(tx@),
        }
    }
}

impl DeliveryView {
    /// Whether the transaction entered a block, and so took one of the
    /// signer's sequence numbers.
    pub open spec fn included(self) -> bool {
        !(self is Rejected)
    }
}

/// What became of a transaction, told from what the chain says after it:
/// the result that it recorded, or else its refusal, which is a revert
/// where the signer's sequence number on the chain has moved on and a
/// rejection where it has not.
pub open spec fn delivery_of(
    sequence_before: u64,
    sequence_after: u64,
    reply: Result<TxResultView, Seq<char>>,
) -> DeliveryView {
    match reply {
        Ok(tx) => DeliveryView::Executed(tx),
        Err(msg) => if sequence_after > sequence_before {
            DeliveryView::Reverted { log: msg }
        } else {
            DeliveryView::Rejected { msg }
        },
    }
}

impl Delivery {
    /// Tells what became of a transaction from the chain's reply to it and
    /// from the signer's sequence number on the chain before and after.
    pub fn from_reply(
        sequence_before: u64,
        sequence_after: u64,
        reply: Result<TxResult, String>,
    ) -> (delivery: Delivery)
        ensures
            delivery@ == delivery_of(
                sequence_before,
                sequence_after,
                match reply {
                    Ok(tx) => Ok(tx@),
                    Err(msg) => Err(msg@),
                },
            ),
    {
        match reply {
            Ok(tx) => Delivery::Executed(tx),
            Err(msg) => if sequence_after > sequence_before {
                Delivery::Reverted { log: msg }
            } else {
                Delivery::Rejected { msg }
            },
        }
    }

    /// Whether the transaction entered a block, and so took one of the
    /// signer's sequence numbers.
    pub fn included(&self) -> (b: bool)
        ensures
            b == self@.included(),
    {
        match self {
            Delivery::Rejected { .. } => false,
            _ => true,
        }
    }
}

} // verus!
