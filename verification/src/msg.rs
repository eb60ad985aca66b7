//! The external command and query shapes, the query responses, and the
//! payout instruction the engine emits for the settlement collaborator.

use vstd::prelude::*;

verus! {

use crate::curve::Curve;
use crate::state::{Asset, PaymentStream, StreamType, StreamV};

#[derive(Debug, PartialEq)]
pub struct InstantiateMsg {
    pub count: i32,
}

/// A token transfer forwarded to the ledger, with its decoded hook.
#[derive(Debug, PartialEq)]
pub struct Cw20ReceiveMsg {
    pub sender: String,
    pub amount: u128,
    pub msg: Cw20HookMsg,
}

#[derive(Debug, PartialEq)]
pub enum Cw20HookMsg {
    CreateStream {
        recipient: String,
        start_time: u64,
        stop_time: u64,
        stream_type: Option<StreamType>,
        curve: Option<Curve>,
    },
}

#[derive(Debug, PartialEq)]
pub enum ExecuteMsg {
    Receive(Cw20ReceiveMsg),
    CreateStream {
        recipient: String,
        asset: Asset,
        start_time: u64,
        stop_time: u64,
        stream_type: Option<StreamType>,
        curve: Option<Curve>,
    },
    ClaimFromStream {
        recipient: String,
        amount: u128,
        denom: String,
        stream_idx: Option<u64>,
    },
    CancelStream {
        stream_idx: u64,
    },
}

/// Enumeration order for paginated stream queries.
#[derive(Debug, Clone, Copy, PartialEq, Eq, Structural)]
pub enum Order {
    Ascending,
    Descending,
}

#[derive(Debug, PartialEq)]
pub enum QueryMsg {
    LookupStream { payer: String, payee: String },
    StreamCount {},
    StreamsByRecipient { payee: String, reverse: Option<bool>, limit: Option<u128> },
    StreamsBySender { sender: String, reverse: Option<bool>, limit: Option<u128> },
    StreamsByIndex { index: u64 },
    StreamClaimableAmount { index: u64 },
}

#[derive(Debug, PartialEq)]
pub struct CountResponse {
    pub count: i32,
}

#[derive(Debug, PartialEq)]
pub struct LookupStreamResponse {
    pub stream: PaymentStream,
}

#[derive(Debug, PartialEq)]
pub struct StreamsResponse {
    pub streams: Vec<PaymentStream>,
}

impl View for StreamsResponse {
    type V = Seq<StreamV>;

    open spec fn view(&self) -> Seq<StreamV> {
        self.streams@.map_values(|s: PaymentStream| s@)
    }
}

#[derive(Debug, PartialEq)]
pub struct StreamClaimableAmtResponse {
    pub stream: PaymentStream,
    pub amount_available: u128,
    pub amount_streamed: u128,
}

/// One answer per query shape.
#[derive(Debug, PartialEq)]
pub enum QueryAnswer {
    Lookup(LookupStreamResponse),
    Count(CountResponse),
    Streams(StreamsResponse),
    Claimable(StreamClaimableAmtResponse),
}

/// An instruction for the settlement collaborator: pay `amount` of the
/// asset named by `denom` to `to_address`.
#[derive(Debug, PartialEq)]
pub struct Payout {
    pub to_address: String,
    pub denom: String,
    pub amount: u128,
}

/// The mathematical content of a `Payout`.
#[verifier::ext_equal]
pub struct PayoutV {
    pub to_address: Seq<char>,
    pub denom: Seq<char>,
    pub amount: u128,
}

impl View for Payout {
    type V = PayoutV;

    open spec fn view(&self) -> PayoutV {
        PayoutV { to_address: self.to_address@, denom: self.denom@, amount: self.amount }
    }
}

} // verus!
