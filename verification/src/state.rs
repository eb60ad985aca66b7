//! The stream ledger: canonical stream records, sender and recipient
//! secondary views kept consistent with them, a sequential id counter, and
//! the aggregate configuration record.

use vstd::prelude::*;

verus! {

use crate::curve::{Curve, CurveV};

/// The different kinds of payment stream that can be requested.  Only
/// `Basic`, `LinearCurveBased` and `CliffCurveBased` are accepted at
/// creation today; the others are reserved.
#[derive(Debug, Clone, Copy, PartialEq, Eq, Structural)]
pub enum StreamType {
    Basic,
    LinearCurveBased,
    CliffCurveBased,
    DynamicCurveBased,
    ExponentialCurveBased,
    ExponentialCurveBasedWithCliff,
    TraditionalUnlockStepCurve,
}

/// The asset a stream pays out: a native denomination or a token contract.
#[derive(Debug, PartialEq)]
pub enum AssetInfo {
    Native(String),
    Cw20(String),
}

/// The mathematical content of an `AssetInfo`.
#[verifier::ext_equal]
pub enum AssetInfoV {
    Native(Seq<char>),
    Cw20(Seq<char>),
}

impl View for AssetInfo {
    type V = AssetInfoV;

    open spec fn view(&self) -> AssetInfoV {
        match self {
            AssetInfo::Native(d) => AssetInfoV::Native(d@),
            AssetInfo::Cw20(a) => AssetInfoV::Cw20(a@),
        }
    }
}

impl Clone for AssetInfo {
    fn clone(&self) -> (r: Self)
        ensures
            r == *self,
    {
        match self {
            AssetInfo::Native(d) => AssetInfo::Native(d.clone()),
            AssetInfo::Cw20(a) => AssetInfo::Cw20(a.clone()),
        }
    }
}

/// An asset reference together with a quantity of it.
#[derive(Debug, PartialEq)]
pub struct Asset {
    pub info: AssetInfo,
    pub amount: u128,
}

impl Clone for Asset {
    fn clone(&self) -> (r: Self)
        ensures
            r == *self,
    {
        Asset { info: self.info.clone(), amount: self.amount }
    }
}

/// A payment stream between a sender and a recipient: a fixed deposit
/// released over `start_time..stop_time` according to an optional curve.
#[derive(Debug, PartialEq)]
pub struct PaymentStream {
    pub stream_idx: u64,
    pub deposit: u128,
    pub rate_per_second: u128,
    pub remaining_balance: u128,
    pub stop_time: u64,
    pub start_time: u64,
    pub recipient: String,
    pub sender: String,
    pub token_addr: AssetInfo,
    pub is_closed: bool,
    pub curve: Option<Curve>,
}

/// The mathematical content of a `PaymentStream`.
#[verifier::ext_equal]
pub struct StreamV {
    pub stream_idx: u64,
    pub deposit: u128,
    pub rate_per_second: u128,
    pub remaining_balance: u128,
    pub stop_time: u64,
    pub start_time: u64,
    pub recipient: Seq<char>,
    pub sender: Seq<char>,
    pub token_addr: AssetInfoV,
    pub is_closed: bool,
    pub curve: Option<CurveV>,
}

impl View for PaymentStream {
    type V = StreamV;

    open spec fn view(&self) -> StreamV {
        StreamV {
            stream_idx: self.stream_idx,
            deposit: self.deposit,
            rate_per_second: self.rate_per_second,
            remaining_balance: self.remaining_balance,
            stop_time: self.stop_time,
            start_time: self.start_time,
            recipient: self.recipient@,
            sender: self.sender@,
            token_addr: self.token_addr@,
            is_closed: self.is_closed,
            curve: match &self.curve {
                Some(c) => Some(c@),
                None => None,
            },
        }
    }
}

impl StreamV {
    /// The stream invariant: a forward window, a remaining balance within
    /// the deposit, emptiness once closed, and a validated curve.
    pub open spec fn wf(self) -> bool {
        &&& self.start_time < self.stop_time
        &&& self.remaining_balance <= self.deposit
        &&& (self.is_closed ==> self.remaining_balance == 0)
        &&& match self.curve {
            Some(c) => c.monotone_ok(),
            None => true,
        }
    }
}

impl Clone for PaymentStream {
    fn clone(&self) -> (r: Self)
        ensures
            r@ == self@,
    {
        PaymentStream {
            stream_idx: self.stream_idx,
            deposit: self.deposit,
            rate_per_second: self.rate_per_second,
            remaining_balance: self.remaining_balance,
            stop_time: self.stop_time,
            start_time: self.start_time,
            recipient: self.recipient.clone(),
            sender: self.sender.clone(),
            token_addr: self.token_addr.clone(),
            is_closed: self.is_closed,
            curve: match &self.curve {
                Some(c) => Some(c.clone()),
                None => None,
            },
        }
    }
}

/// What a creation request carries besides the funds: the window, the
/// requested stream kind and an optional curve.
#[derive(Debug, PartialEq)]
pub struct StreamData {
    pub start_time: u64,
    pub stop_time: u64,
    pub stream_type: Option<StreamType>,
    pub curve: Option<Curve>,
}

/// The mathematical content of a `StreamData`.
#[verifier::ext_equal]
pub struct StreamDataV {
    pub start_time: u64,
    pub stop_time: u64,
    pub stream_type: Option<StreamType>,
    pub curve: Option<CurveV>,
}

impl View for StreamData {
    type V = StreamDataV;

    open spec fn view(&self) -> StreamDataV {
        StreamDataV {
            start_time: self.start_time,
            stop_time: self.stop_time,
            stream_type: self.stream_type,
            curve: match &self.curve {
                Some(c) => Some(c@),
                None => None,
            },
        }
    }
}

/// The aggregate configuration record: an informational stream counter and
/// the owner who instantiated the ledger.
#[derive(Debug, PartialEq)]
pub struct ConfigState {
    pub count: i32,
    pub owner: String,
    pub fee_asset: Option<Asset>,
    pub fees: Option<Vec<u128>>,
}

/// The mathematical content of a `ConfigState`.
#[verifier::ext_equal]
pub struct ConfigV {
    pub count: i32,
    pub owner: Seq<char>,
    pub fee_asset: Option<Asset>,
    pub fees: Option<Seq<u128>>,
}

impl View for ConfigState {
    type V = ConfigV;

    open spec fn view(&self) -> ConfigV {
        ConfigV {
            count: self.count,
            owner: self.owner@,
            fee_asset: self.fee_asset,
            fees: match &self.fees {
                Some(v) => Some(v@),
                None => None,
            },
        }
    }
}

impl Default for ConfigState {
    /// An empty configuration: no streams counted, no owner, no fees.
    fn default() -> (r: Self)
        ensures
            r.count == 0,
            r.owner@ == Seq::<char>::empty(),
            r.fee_asset is None,
            r.fees is None,
    {
        ConfigState { count: 0, owner: String::new(), fee_asset: None, fees: None }
    }
}

/// The secondary views over the stream records: for each stream, its key
/// under the sender index and under the recipient index, in creation order.
#[derive(Debug, PartialEq)]
pub struct StreamSecondaryIndexes {
    pub sender: Vec<(String, u64)>,
    pub recipient: Vec<(String, u64)>,
}

/// The whole persisted state: the primary stream records keyed by their
/// sequential index, the secondary views, the id counter and the
/// configuration record.
#[derive(Debug, PartialEq)]
pub struct Ledger {
    pub state: ConfigState,
    pub streams: Vec<PaymentStream>,
    pub idx: StreamSecondaryIndexes,
    pub last_stream_idx: u64,
}

/// The mathematical content of a `Ledger`.
#[verifier::ext_equal]
pub struct LedgerV {
    pub state: ConfigV,
    pub streams: Seq<StreamV>,
    pub idx_sender: Seq<(Seq<char>, u64)>,
    pub idx_recipient: Seq<(Seq<char>, u64)>,
    pub last_stream_idx: u64,
}

impl View for Ledger {
    type V = LedgerV;

    open spec fn view(&self) -> LedgerV {
        LedgerV {
            state: self.state@,
            streams: self.streams@.map_values(|s: PaymentStream| s@),
            idx_sender: self.idx.sender@.map_values(|p: (String, u64)| (p.0@, p.1)),
            idx_recipient: self.idx.recipient@.map_values(|p: (String, u64)| (p.0@, p.1)),
            last_stream_idx: self.last_stream_idx,
        }
    }
}

impl LedgerV {
    /// The ledger invariant: ids are sequential from 1 in storage order,
    /// the id counter equals the highest assigned id, every record is
    /// well-formed, and both secondary views agree pointwise with the
    /// primary records.
    pub open spec fn wf(self) -> bool {
        &&& self.last_stream_idx == self.streams.len()
        &&& forall|i: int|
            0 <= i < self.streams.len() ==> (#[trigger] self.streams[i]).wf()
                && self.streams[i].stream_idx == i + 1
        &&& self.idx_sender.len() == self.streams.len()
        &&& forall|i: int|
            0 <= i < self.streams.len() ==> #[trigger] self.idx_sender[i]
                == (self.streams[i].sender, (i + 1) as u64)
        &&& self.idx_recipient.len() == self.streams.len()
        &&& forall|i: int|
            0 <= i < self.streams.len() ==> #[trigger] self.idx_recipient[i]
                == (self.streams[i].recipient, (i + 1) as u64)
    }
}

/// The primary stream records, in creation order.
pub fn payment_streams(ledger: &Ledger) -> (r: &Vec<PaymentStream>)
    ensures
        r@ == ledger.streams@,
{
    &ledger.streams
}

} // verus!

verus! {

/// Relies on String::push_str: appends the given slice to the string.
pub assume_specification[ String::push_str ](s: &mut String, other: &str)
    ensures
        final(s)@ == old(s)@ + other@,
;

/// The display form of an asset name: the kind, a colon, the name.
pub open spec fn spec_asset_display(a: AssetInfoV) -> Seq<char> {
    match a {
        AssetInfoV::Native(d) => "native:"@ + d,
        AssetInfoV::Cw20(c) => "cw20:"@ + c,
    }
}

impl AssetInfo {
    /// The asset's display form: `native:<denom>` or `cw20:<address>`.
    pub fn to_string(&self) -> (r: String)
        ensures
            r@ == spec_asset_display(self@),
    {
        match self {
            AssetInfo::Native(d) => {
                let mut s = "native:".to_owned();
                s.push_str(d.as_str());
                s
            },
            AssetInfo::Cw20(c) => {
                let mut s = "cw20:".to_owned();
                s.push_str(c.as_str());
                s
            },
        }
    }
}

} // verus!
