//! The lifecycle controller and query facade: creating, claiming from and
//! cancelling streams against the ledger, and the read-only projections.
//! Every check of an operation precedes every mutation: a failed operation
//! leaves the ledger exactly as it was.

use vstd::prelude::*;

verus! {

use crate::curve::{Curve, CurveError, CurveV, spec_monotone_err};
use crate::curve_helpers::{
    RATE_SCALE,
    avail_balance_of,
    calc_rate_per_second,
    spec_claimable,
    spec_validate_curve,
    validate_curve,
};
use crate::error::ContractError;
use crate::msg::InstantiateMsg;
use crate::state::{
    AssetInfo,
    AssetInfoV,
    ConfigState,
    ConfigV,
    Ledger,
    LedgerV,
    PaymentStream,
    StreamData,
    StreamDataV,
    StreamSecondaryIndexes,
    StreamType,
    StreamV,
};

/// A creation request without a stream kind asks for a basic stream.
pub open spec fn spec_default_type(t: Option<StreamType>) -> StreamType {
    match t {
        Some(t) => t,
        None => StreamType::Basic,
    }
}

/// Room is left for one more stream: the aggregate counter and the id
/// counter can both be incremented.
pub open spec fn spec_counters_ok(l: LedgerV) -> bool {
    l.state.count < i32::MAX && l.last_stream_idx < u64::MAX
}

/// The decision `try_create_stream` makes before touching the ledger:
/// either the first failing check's error, or the derived per-second rate
/// of the accepted stream.
pub open spec fn spec_create_check(l: LedgerV, data: StreamDataV, deposit: u128) -> Result<
    u128,
    ContractError,
> {
    if data.stop_time <= data.start_time {
        Err(ContractError::DeltaIssue { start_time: data.start_time, stop_time: data.stop_time })
    } else {
        let duration = data.stop_time - data.start_time;
        match spec_default_type(data.stream_type) {
            StreamType::Basic => if deposit > u128::MAX as int / RATE_SCALE as int {
                Err(ContractError::Overflow {})
            } else if !spec_counters_ok(l) {
                Err(ContractError::Overflow {})
            } else {
                Ok((deposit as int / duration) as u128)
            },
            StreamType::LinearCurveBased => match data.curve {
                None => Err(ContractError::Curve(CurveError::MissingSteps)),
                Some(c) => if !c.monotone_ok() {
                    Err(ContractError::Curve(spec_monotone_err(c)))
                } else {
                    match c {
                        CurveV::Constant { y } => if !spec_counters_ok(l) {
                            Err(ContractError::Overflow {})
                        } else {
                            Ok(y)
                        },
                        CurveV::SaturatingLinear(s) => if !spec_counters_ok(l) {
                            Err(ContractError::Overflow {})
                        } else {
                            Ok((s.max_y - s.min_y) as u128)
                        },
                        CurveV::PiecewiseLinear(_) => Err(ContractError::Unauthorized {}),
                    }
                },
            },
            StreamType::CliffCurveBased => match data.curve {
                None => Err(ContractError::Curve(CurveError::MissingSteps)),
                Some(c) => if !c.monotone_ok() {
                    Err(ContractError::Curve(spec_monotone_err(c)))
                } else {
                    match spec_validate_curve(StreamType::CliffCurveBased, c) {
                        Err(e) => Err(ContractError::Curve(e)),
                        Ok(_) => match c {
                            CurveV::PiecewiseLinear(_) => if !spec_counters_ok(l) {
                                Err(ContractError::Overflow {})
                            } else {
                                Ok(0)
                            },
                            _ => Err(ContractError::Unauthorized {}),
                        },
                    }
                },
            },
            _ => Err(ContractError::Unauthorized {}),
        }
    }
}

/// The curve kept on the stored record: a basic stream keeps none, the
/// curve-based kinds keep the validated curve of the request.
pub open spec fn spec_stored_curve(data: StreamDataV) -> Option<CurveV> {
    match spec_default_type(data.stream_type) {
        StreamType::Basic => None,
        _ => data.curve,
    }
}

/// The record an accepted creation request adds to the ledger.
pub open spec fn spec_new_stream(
    id: u64,
    sender: Seq<char>,
    recipient: Seq<char>,
    deposit: u128,
    token_addr: AssetInfoV,
    data: StreamDataV,
    rate: u128,
) -> StreamV {
    StreamV {
        stream_idx: id,
        deposit,
        rate_per_second: rate,
        remaining_balance: deposit,
        stop_time: data.stop_time,
        start_time: data.start_time,
        recipient,
        sender,
        token_addr,
        is_closed: false,
        curve: spec_stored_curve(data),
    }
}

/// The ledger after an accepted creation: the record appended, both
/// secondary views extended in step, both counters advanced.
pub open spec fn spec_ledger_after_create(l: LedgerV, s: StreamV) -> LedgerV {
    LedgerV {
        state: ConfigV { count: (l.state.count + 1) as i32, ..l.state },
        streams: l.streams.push(s),
        idx_sender: l.idx_sender.push((s.sender, (l.last_stream_idx + 1) as u64)),
        idx_recipient: l.idx_recipient.push((s.recipient, (l.last_stream_idx + 1) as u64)),
        last_stream_idx: (l.last_stream_idx + 1) as u64,
    }
}

/// Sets up an empty ledger owned by `sender`, with the aggregate counter
/// starting from the instantiation message.
pub fn instantiate(sender: String, msg: InstantiateMsg) -> (r: Ledger)
    ensures
        r@.wf(),
        r@.state.count == msg.count,
        r@.state.owner == sender@,
        r@.state.fee_asset is None,
        r@.state.fees is None,
        r@.streams.len() == 0,
        r@.last_stream_idx == 0,
{
    Ledger {
        state: ConfigState { count: msg.count, owner: sender, fee_asset: None, fees: None },
        streams: Vec::new(),
        idx: StreamSecondaryIndexes { sender: Vec::new(), recipient: Vec::new() },
        last_stream_idx: 0,
    }
}

/// Creates a stream from `sender` to `recipient` releasing `deposit` of
/// `token_addr` over the window in `stream_data`, after validating the
/// window, the curve shape for the requested stream kind, and the counter
/// headroom.  Returns the id assigned to the new stream; on any error the
/// ledger is untouched.
pub fn try_create_stream(
    ledger: &mut Ledger,
    sender: String,
    recipient: String,
    deposit: u128,
    token_addr: AssetInfo,
    stream_data: StreamData,
) -> (r: Result<u64, ContractError>)
    requires
        old(ledger)@.wf(),
    ensures
        final(ledger)@.wf(),
        match spec_create_check(old(ledger)@, stream_data@, deposit) {
            Err(e) => r == Err::<u64, ContractError>(e) && *final(ledger) == *old(ledger),
            Ok(rate) => {
                &&& r == Ok::<u64, ContractError>((old(ledger)@.last_stream_idx + 1) as u64)
                &&& final(ledger)@ == spec_ledger_after_create(
                    old(ledger)@,
                    spec_new_stream(
                        (old(ledger)@.last_stream_idx + 1) as u64,
                        sender@,
                        recipient@,
                        deposit,
                        token_addr@,
                        stream_data@,
                        rate,
                    ),
                )
            },
        },
{
    let start_time: u64 = stream_data.start_time;
    let stop_time: u64 = stream_data.stop_time;
    if stop_time <= start_time {
        return Err(ContractError::DeltaIssue { start_time, stop_time });
    }
    let duration: u64 = stop_time - start_time;
    let stream_type: StreamType = match stream_data.stream_type {
        Some(t) => t,
        None => StreamType::Basic,
    };
    let rate_per_second: u128 = match stream_type {
        StreamType::Basic => {
            match calc_rate_per_second(duration, deposit) {
                Ok(rate) => rate,
                Err(e) => {
                    return Err(e);
                },
            }
        },
        StreamType::LinearCurveBased => {
            let curve = match &stream_data.curve {
                Some(c) => c,
                None => {
                    return Err(ContractError::Curve(CurveError::MissingSteps));
                },
            };
            match curve.validate_monotonic_increasing() {
                Err(e) => {
                    return Err(ContractError::Curve(e));
                },
                Ok(_) => {},
            }
            match validate_curve(StreamType::LinearCurveBased, curve) {
                Err(e) => {
                    return Err(ContractError::Curve(e));
                },
                Ok(_) => {},
            }
            match curve {
                Curve::Constant { y } => *y,
                Curve::SaturatingLinear(s) => s.max_y - s.min_y,
                Curve::PiecewiseLinear(_) => {
                    return Err(ContractError::Unauthorized {});
                },
            }
        },
        StreamType::CliffCurveBased => {
            let curve = match &stream_data.curve {
                Some(c) => c,
                None => {
                    return Err(ContractError::Curve(CurveError::MissingSteps));
                },
            };
            match curve.validate_monotonic_increasing() {
                Err(e) => {
                    return Err(ContractError::Curve(e));
                },
                Ok(_) => {},
            }
            match validate_curve(StreamType::CliffCurveBased, curve) {
                Err(e) => {
                    return Err(ContractError::Curve(e));
                },
                Ok(_) => {},
            }
            match curve {
                Curve::PiecewiseLinear(_) => 0,
                _ => {
                    return Err(ContractError::Unauthorized {});
                },
            }
        },
        _ => {
            return Err(ContractError::Unauthorized {});
        },
    };
    if ledger.state.count == i32::MAX {
        return Err(ContractError::Overflow {});
    }
    if ledger.last_stream_idx == u64::MAX {
        return Err(ContractError::Overflow {});
    }
    let stream_idx: u64 = ledger.last_stream_idx + 1;
    let stored_curve: Option<Curve> = match stream_type {
        StreamType::Basic => None,
        _ => stream_data.curve,
    };
    let new_stream = PaymentStream {
        stream_idx,
        deposit,
        rate_per_second,
        remaining_balance: deposit,
        stop_time,
        start_time,
        recipient: recipient.clone(),
        sender: sender.clone(),
        token_addr,
        is_closed: false,
        curve: stored_curve,
    };
    let ghost pre = ledger@;
    let ghost new_v = new_stream@;
    ledger.idx.sender.push((sender, stream_idx));
    ledger.idx.recipient.push((recipient, stream_idx));
    ledger.streams.push(new_stream);
    ledger.state.count = ledger.state.count + 1;
    ledger.last_stream_idx = stream_idx;
    proof {
        assert(ledger@.streams =~= pre.streams.push(new_v));
        assert(ledger@.idx_sender =~= pre.idx_sender.push((new_v.sender, stream_idx)));
        assert(ledger@.idx_recipient =~= pre.idx_recipient.push((new_v.recipient, stream_idx)));
        assert(ledger@ =~= spec_ledger_after_create(pre, new_v));
        assert(new_v.wf());
        assert(ledger@.wf());
    }
    Ok(stream_idx)
}

} // verus!

verus! {

use vstd::pervasive::VecAdditionalExecFns;
use crate::msg::{Cw20HookMsg, Cw20ReceiveMsg, ExecuteMsg, Payout, PayoutV};

/// The first stream at or after position `i` whose sender and recipient
/// are the given pair.
pub open spec fn spec_find_pair_from(
    streams: Seq<StreamV>,
    payer: Seq<char>,
    payee: Seq<char>,
    i: int,
) -> Option<int>
    decreases streams.len() - i,
{
    if i < 0 || i >= streams.len() {
        None
    } else if streams[i].sender == payer && streams[i].recipient == payee {
        Some(i)
    } else {
        spec_find_pair_from(streams, payer, payee, i + 1)
    }
}

/// The first stream from `payer` to `payee`, if any.
pub open spec fn spec_find_pair(streams: Seq<StreamV>, payer: Seq<char>, payee: Seq<char>)
    -> Option<int> {
    spec_find_pair_from(streams, payer, payee, 0)
}

/// Position of the first stream from `payer` to `payee` in creation order.
fn find_pair_index(streams: &Vec<PaymentStream>, payer: &String, payee: &String) -> (r: Option<
    usize,
>)
    ensures
        match r {
            Some(k) => k < streams@.len() && spec_find_pair(
                streams@.map_values(|s: PaymentStream| s@),
                payer@,
                payee@,
            ) == Some(k as int),
            None => spec_find_pair(streams@.map_values(|s: PaymentStream| s@), payer@, payee@)
                is None,
        },
{
    let ghost m = streams@.map_values(|s: PaymentStream| s@);
    let n: usize = streams.len();
    let mut k: usize = 0;
    while k < n
        invariant
            n == streams@.len(),
            k <= n,
            m == streams@.map_values(|s: PaymentStream| s@),
            spec_find_pair_from(m, payer@, payee@, 0) == spec_find_pair_from(m, payer@, payee@,
                k as int),
        decreases n - k,
    {
        proof {
            assert(m[k as int] == streams@[k as int]@);
        }
        if streams[k].sender == *payer && streams[k].recipient == *payee {
            return Some(k);
        }
        k = k + 1;
    }
    None
}

/// The stream a claim refers to: by id when one is given, else the first
/// stream whose sender is the named payout recipient and whose recipient
/// is the caller.
pub open spec fn spec_resolve_claim(
    l: LedgerV,
    stream_idx: Option<u64>,
    recipient: Seq<char>,
    caller: Seq<char>,
) -> Option<int> {
    match stream_idx {
        Some(id) => if 1 <= id && id <= l.streams.len() {
            Some(id - 1)
        } else {
            None
        },
        None => spec_find_pair(l.streams, recipient, caller),
    }
}

/// The decision `claim_from_stream` makes before touching the ledger:
/// either the first failing check's error, or the position of the stream
/// the claim is paid from.
pub open spec fn spec_claim_check(
    l: LedgerV,
    caller: Seq<char>,
    now: u64,
    recipient: Seq<char>,
    amount: u128,
    stream_idx: Option<u64>,
) -> Result<int, ContractError> {
    if amount == 0 {
        Err(ContractError::InvalidAmount {})
    } else {
        match spec_resolve_claim(l, stream_idx, recipient, caller) {
            None => Err(ContractError::StreamNotFound {}),
            Some(j) => {
                let s = l.streams[j];
                if caller != s.recipient {
                    Err(ContractError::Unauthorized {})
                } else if amount > spec_claimable(s, now) {
                    Err(ContractError::NotEnoughAvailableBalance {})
                } else if amount > s.remaining_balance {
                    Err(ContractError::NotEnoughAvailableFunds {})
                } else {
                    Ok(j)
                }
            },
        }
    }
}

/// The stream after paying a claim of `amount` out of it: the remaining
/// balance drops by exactly `amount`, and the stream closes when it
/// reaches zero.
pub open spec fn spec_stream_after_claim(s: StreamV, amount: u128) -> StreamV {
    StreamV {
        remaining_balance: (s.remaining_balance - amount) as u128,
        is_closed: if s.remaining_balance == amount {
            true
        } else {
            s.is_closed
        },
        ..s
    }
}

/// The ledger after an accepted claim: only the claimed stream changes.
pub open spec fn spec_ledger_after_claim(l: LedgerV, j: int, amount: u128) -> LedgerV {
    LedgerV { streams: l.streams.update(j, spec_stream_after_claim(l.streams[j], amount)), ..l }
}

/// Pays `amount` out of a stream to `recipient`.  Only the recorded
/// recipient may claim; a claim of zero, beyond what time has unlocked,
/// or beyond the remaining balance is rejected, and the error says which.
/// On success the remaining balance drops by exactly `amount` and one
/// payout instruction is returned; on any error the ledger is untouched.
pub fn claim_from_stream(
    ledger: &mut Ledger,
    caller: String,
    now: u64,
    recipient: String,
    amount: u128,
    denom: String,
    stream_idx: Option<u64>,
) -> (r: Result<Payout, ContractError>)
    requires
        old(ledger)@.wf(),
    ensures
        final(ledger)@.wf(),
        match spec_claim_check(old(ledger)@, caller@, now, recipient@, amount, stream_idx) {
            Err(e) => r == Err::<Payout, ContractError>(e) && *final(ledger) == *old(ledger),
            Ok(j) => {
                &&& r is Ok
                &&& r->Ok_0@ == (PayoutV { to_address: recipient@, denom: denom@, amount })
                &&& final(ledger)@ == spec_ledger_after_claim(old(ledger)@, j, amount)
            },
        },
{
    if amount == 0 {
        return Err(ContractError::InvalidAmount {});
    }
    let n: usize = ledger.streams.len();
    let j_opt: Option<usize> = match stream_idx {
        Some(id) => {
            if 1 <= id && id <= n as u64 {
                Some((id - 1) as usize)
            } else {
                None
            }
        },
        None => find_pair_index(&ledger.streams, &recipient, &caller),
    };
    let j: usize = match j_opt {
        Some(j) => j,
        None => {
            return Err(ContractError::StreamNotFound {});
        },
    };
    proof {
        assert(ledger@.streams[j as int] == ledger.streams@[j as int]@);
    }
    let stream = &ledger.streams[j];
    if !(caller == stream.recipient) {
        return Err(ContractError::Unauthorized {});
    }
    let available_bal_for_stream: u128 = avail_balance_of(stream, now);
    if amount > available_bal_for_stream {
        return Err(ContractError::NotEnoughAvailableBalance {});
    }
    if amount > stream.remaining_balance {
        return Err(ContractError::NotEnoughAvailableFunds {});
    }
    let ghost pre = ledger@;
    let mut updated: PaymentStream = ledger.streams[j].clone();
    updated.remaining_balance = updated.remaining_balance - amount;
    if updated.remaining_balance == 0 {
        updated.is_closed = true;
    }
    proof {
        assert(updated@ =~= spec_stream_after_claim(pre.streams[j as int], amount));
    }
    ledger.streams.set(j, updated);
    proof {
        assert(ledger@.streams =~= pre.streams.update(j as int, spec_stream_after_claim(
            pre.streams[j as int], amount)));
        assert(ledger@ =~= spec_ledger_after_claim(pre, j as int, amount));
        assert(ledger@.wf());
    }
    Ok(Payout { to_address: recipient, denom, amount })
}

} // verus!

verus! {

/// The plain name of the asset a payout moves: the denomination of a
/// native asset, the contract address of a token.
pub open spec fn spec_asset_denom(a: AssetInfoV) -> Seq<char> {
    match a {
        AssetInfoV::Native(d) => d,
        AssetInfoV::Cw20(c) => c,
    }
}

/// The decision `cancel_stream` makes before touching the ledger: either
/// the first failing check's error, or the position of the cancelled
/// stream.  Only the stream's sender or recipient may cancel, and the
/// sender only strictly before the stream's start time.
pub open spec fn spec_cancel_check(l: LedgerV, caller: Seq<char>, now: u64, stream_idx: u64)
    -> Result<int, ContractError> {
    if !(1 <= stream_idx && stream_idx <= l.streams.len()) {
        Err(ContractError::StreamNotFound {})
    } else {
        let s = l.streams[stream_idx - 1];
        if caller != s.sender && caller != s.recipient {
            Err(ContractError::Unauthorized {})
        } else if now >= s.start_time && caller == s.sender {
            Err(ContractError::Unauthorized {})
        } else if spec_claimable(s, now) > s.remaining_balance {
            Err(ContractError::Overflow {})
        } else {
            Ok(stream_idx - 1)
        }
    }
}

/// The payouts a cancellation emits: the currently claimable part to the
/// recipient (when positive), the rest of the remaining balance to the
/// sender.
pub open spec fn spec_cancel_payouts(s: StreamV, now: u64) -> Seq<PayoutV> {
    let claimable = spec_claimable(s, now);
    let denom = spec_asset_denom(s.token_addr);
    let to_sender = PayoutV {
        to_address: s.sender,
        denom,
        amount: (s.remaining_balance - claimable) as u128,
    };
    if claimable > 0 {
        seq![PayoutV { to_address: s.recipient, denom, amount: claimable as u128 }, to_sender]
    } else {
        seq![to_sender]
    }
}

/// The ledger after a cancellation: the stream's remaining balance is
/// zeroed and it is closed; nothing else changes.
pub open spec fn spec_ledger_after_cancel(l: LedgerV, j: int) -> LedgerV {
    LedgerV {
        streams: l.streams.update(
            j,
            StreamV { remaining_balance: 0, is_closed: true, ..l.streams[j] },
        ),
        ..l
    }
}

/// Cancels the stream stored under `stream_idx`: pays the claimable part
/// to the recipient and the rest of the remaining balance back to the
/// sender, zeroes the balance and closes the stream.  The sender may only
/// cancel strictly before the stream's start time; the recipient may
/// cancel at any time.  On any error the ledger is untouched.
pub fn cancel_stream(ledger: &mut Ledger, caller: String, now: u64, stream_idx: u64) -> (r:
    Result<Vec<Payout>, ContractError>)
    requires
        old(ledger)@.wf(),
    ensures
        final(ledger)@.wf(),
        match spec_cancel_check(old(ledger)@, caller@, now, stream_idx) {
            Err(e) => r == Err::<Vec<Payout>, ContractError>(e) && *final(ledger) == *old(ledger),
            Ok(j) => {
                &&& r is Ok
                &&& r->Ok_0@.map_values(|p: Payout| p@) == spec_cancel_payouts(
                    old(ledger)@.streams[j],
                    now,
                )
                &&& final(ledger)@ == spec_ledger_after_cancel(old(ledger)@, j)
            },
        },
{
    let n: usize = ledger.streams.len();
    if !(1 <= stream_idx && stream_idx <= n as u64) {
        return Err(ContractError::StreamNotFound {});
    }
    let j: usize = (stream_idx - 1) as usize;
    proof {
        assert(ledger@.streams[j as int] == ledger.streams@[j as int]@);
    }
    let stream = &ledger.streams[j];
    if !(caller == stream.sender) && !(caller == stream.recipient) {
        return Err(ContractError::Unauthorized {});
    }
    if now >= stream.start_time && caller == stream.sender {
        return Err(ContractError::Unauthorized {});
    }
    let available_bal_for_stream: u128 = avail_balance_of(stream, now);
    if available_bal_for_stream > stream.remaining_balance {
        return Err(ContractError::Overflow {});
    }
    let denom: String = match &stream.token_addr {
        AssetInfo::Native(d) => d.clone(),
        AssetInfo::Cw20(c) => c.clone(),
    };
    let mut messages: Vec<Payout> = Vec::new();
    if available_bal_for_stream > 0 {
        messages.push(
            Payout {
                to_address: stream.recipient.clone(),
                denom: denom.clone(),
                amount: available_bal_for_stream,
            },
        );
    }
    messages.push(
        Payout {
            to_address: stream.sender.clone(),
            denom,
            amount: stream.remaining_balance - available_bal_for_stream,
        },
    );
    let ghost pre = ledger@;
    let mut updated: PaymentStream = ledger.streams[j].clone();
    updated.remaining_balance = 0;
    updated.is_closed = true;
    proof {
        assert(updated@ =~= (StreamV {
            remaining_balance: 0,
            is_closed: true,
            ..pre.streams[j as int]
        }));
    }
    ledger.streams.set(j, updated);
    proof {
        assert(ledger@.streams =~= spec_ledger_after_cancel(pre, j as int).streams);
        assert(ledger@ =~= spec_ledger_after_cancel(pre, j as int));
        assert(messages@.map_values(|p: Payout| p@) =~= spec_cancel_payouts(pre.streams[j as int],
            now));
        assert(ledger@.wf());
    }
    Ok(messages)
}

/// Routes a token transfer carrying a creation hook: the transferred
/// amount funds a stream of the transferring token from the token
/// contract `token` to the hook's recipient.  A zero transfer is
/// rejected.
pub fn receive_cw20(ledger: &mut Ledger, token: String, cw20_msg: Cw20ReceiveMsg) -> (r: Result<
    Vec<Payout>,
    ContractError,
>)
    requires
        old(ledger)@.wf(),
    ensures
        final(ledger)@.wf(),
        cw20_msg.amount == 0 ==> r == Err::<Vec<Payout>, ContractError>(
            ContractError::InvalidAmount {},
        ) && *final(ledger) == *old(ledger),
        cw20_msg.amount != 0 ==> match cw20_msg.msg {
            Cw20HookMsg::CreateStream { recipient, start_time, stop_time, stream_type, curve } => {
                let data = StreamDataV {
                    start_time,
                    stop_time,
                    stream_type,
                    curve: spec_curve_opt_view(curve),
                };
                match spec_create_check(old(ledger)@, data, cw20_msg.amount) {
                    Err(e) => r == Err::<Vec<Payout>, ContractError>(e) && *final(ledger) == *old(ledger),
                    Ok(rate) => {
                        &&& r is Ok
                        &&& r->Ok_0@.len() == 0
                        &&& final(ledger)@ == spec_ledger_after_create(
                            old(ledger)@,
                            spec_new_stream(
                                (old(ledger)@.last_stream_idx + 1) as u64,
                                token@,
                                recipient@,
                                cw20_msg.amount,
                                AssetInfoV::Cw20(token@),
                                data,
                                rate,
                            ),
                        )
                    },
                }
            },
        },
{
    if cw20_msg.amount == 0 {
        return Err(ContractError::InvalidAmount {});
    }
    match cw20_msg.msg {
        Cw20HookMsg::CreateStream { recipient, start_time, stop_time, stream_type, curve } => {
            let asset = AssetInfo::Cw20(token.clone());
            match try_create_stream(
                ledger,
                token,
                recipient,
                cw20_msg.amount,
                asset,
                StreamData { start_time, stop_time, stream_type, curve },
            ) {
                Ok(_) => Ok(Vec::new()),
                Err(e) => Err(e),
            }
        },
    }
}

/// The view of an optional curve.
pub open spec fn spec_curve_opt_view(c: Option<Curve>) -> Option<CurveV> {
    match c {
        Some(c) => Some(c@),
        None => None,
    }
}

} // verus!

verus! {

use vstd::pervasive::unreached;

/// Routes an external command against the ledger at time `now`.  `sender`
/// is the caller; `attached` is what the funds-attachment reporter says
/// the caller attached of the asset a creation names.  Every command
/// either fully commits or fails before any mutation.
pub fn execute(ledger: &mut Ledger, sender: String, attached: u128, now: u64, msg: ExecuteMsg)
    -> (r: Result<Vec<Payout>, ContractError>)
    requires
        old(ledger)@.wf(),
        msg matches ExecuteMsg::CreateStream { asset, .. } ==> asset.info matches AssetInfo::Native(
            _,
        ),
    ensures
        final(ledger)@.wf(),
        match msg {
            ExecuteMsg::Receive(m) => {
                if m.amount == 0 {
                    r == Err::<Vec<Payout>, ContractError>(ContractError::InvalidAmount {})
                        && *final(ledger) == *old(ledger)
                } else {
                    match m.msg {
                        Cw20HookMsg::CreateStream {
                            recipient,
                            start_time,
                            stop_time,
                            stream_type,
                            curve,
                        } => {
                            let data = StreamDataV {
                                start_time,
                                stop_time,
                                stream_type,
                                curve: spec_curve_opt_view(curve),
                            };
                            match spec_create_check(old(ledger)@, data, m.amount) {
                                Err(e) => r == Err::<Vec<Payout>, ContractError>(e) && *final(ledger) == *old(ledger),
                                Ok(rate) => {
                                    &&& r is Ok
                                    &&& r->Ok_0@.len() == 0
                                    &&& final(ledger)@ == spec_ledger_after_create(
                                        old(ledger)@,
                                        spec_new_stream(
                                            (old(ledger)@.last_stream_idx + 1) as u64,
                                            sender@,
                                            recipient@,
                                            m.amount,
                                            AssetInfoV::Cw20(sender@),
                                            data,
                                            rate,
                                        ),
                                    )
                                },
                            }
                        },
                    }
                }
            },
            ExecuteMsg::CreateStream {
                recipient,
                asset,
                start_time,
                stop_time,
                stream_type,
                curve,
            } => {
                if attached < asset.amount {
                    r == Err::<Vec<Payout>, ContractError>(
                        ContractError::NotEnoughAvailableFunds {},
                    ) && *final(ledger) == *old(ledger)
                } else {
                    let data = StreamDataV {
                        start_time,
                        stop_time,
                        stream_type,
                        curve: spec_curve_opt_view(curve),
                    };
                    match spec_create_check(old(ledger)@, data, asset.amount) {
                        Err(e) => r == Err::<Vec<Payout>, ContractError>(e) && *final(ledger)
                            == *old(ledger),
                        Ok(rate) => {
                            &&& r is Ok
                            &&& r->Ok_0@.len() == 0
                            &&& final(ledger)@ == spec_ledger_after_create(
                                old(ledger)@,
                                spec_new_stream(
                                    (old(ledger)@.last_stream_idx + 1) as u64,
                                    sender@,
                                    recipient@,
                                    asset.amount,
                                    asset.info@,
                                    data,
                                    rate,
                                ),
                            )
                        },
                    }
                }
            },
            ExecuteMsg::ClaimFromStream { recipient, amount, denom, stream_idx } => {
                match spec_claim_check(old(ledger)@, sender@, now, recipient@, amount, stream_idx) {
                    Err(e) => r == Err::<Vec<Payout>, ContractError>(e) && *final(ledger) == *old(ledger),
                    Ok(j) => {
                        &&& r is Ok
                        &&& r->Ok_0@.map_values(|p: Payout| p@) == seq![
                            PayoutV { to_address: recipient@, denom: denom@, amount },
                        ]
                        &&& final(ledger)@ == spec_ledger_after_claim(old(ledger)@, j, amount)
                    },
                }
            },
            ExecuteMsg::CancelStream { stream_idx } => {
                match spec_cancel_check(old(ledger)@, sender@, now, stream_idx) {
                    Err(e) => r == Err::<Vec<Payout>, ContractError>(e) && *final(ledger) == *old(ledger),
                    Ok(j) => {
                        &&& r is Ok
                        &&& r->Ok_0@.map_values(|p: Payout| p@) == spec_cancel_payouts(
                            old(ledger)@.streams[j],
                            now,
                        )
                        &&& final(ledger)@ == spec_ledger_after_cancel(old(ledger)@, j)
                    },
                }
            },
        },
{
    match msg {
        ExecuteMsg::Receive(m) => receive_cw20(ledger, sender, m),
        ExecuteMsg::CreateStream { recipient, asset, start_time, stop_time, stream_type, curve } => {
            match &asset.info {
                AssetInfo::Native(_) => {
                    if attached < asset.amount {
                        return Err(ContractError::NotEnoughAvailableFunds {});
                    }
                    match try_create_stream(
                        ledger,
                        sender,
                        recipient,
                        asset.amount,
                        asset.info,
                        StreamData { start_time, stop_time, stream_type, curve },
                    ) {
                        Ok(_) => Ok(Vec::new()),
                        Err(e) => Err(e),
                    }
                },
                AssetInfo::Cw20(_) => unreached(),
            }
        },
        ExecuteMsg::ClaimFromStream { recipient, amount, denom, stream_idx } => {
            match claim_from_stream(ledger, sender, now, recipient, amount, denom, stream_idx) {
                Ok(p) => {
                    let mut messages: Vec<Payout> = Vec::new();
                    messages.push(p);
                    proof {
                        assert(messages@.map_values(|p: Payout| p@) =~= seq![messages@[0]@]);
                    }
                    Ok(messages)
                },
                Err(e) => Err(e),
            }
        },
        ExecuteMsg::CancelStream { stream_idx } => cancel_stream(ledger, sender, now, stream_idx),
    }
}

} // verus!

verus! {

use crate::msg::{
    CountResponse,
    LookupStreamResponse,
    Order,
    QueryAnswer,
    QueryMsg,
    StreamClaimableAmtResponse,
    StreamsResponse,
};

/// Streams sent by `key`.
pub open spec fn spec_sender_pred(key: Seq<char>) -> spec_fn(StreamV) -> bool {
    |s: StreamV| s.sender == key
}

/// Streams received by `key`.
pub open spec fn spec_recipient_pred(key: Seq<char>) -> spec_fn(StreamV) -> bool {
    |s: StreamV| s.recipient == key
}

/// The number of records a paginated query returns: the requested limit,
/// ten when none is given, and never more than there are matches.
pub open spec fn spec_page_len(matches: int, limit: Option<u128>) -> int {
    let lim = match limit {
        Some(l) => l as int,
        None => 10,
    };
    if lim < matches {
        lim
    } else {
        matches
    }
}

/// A page of `s` in the requested order.
pub open spec fn spec_page(s: Seq<StreamV>, order: Order, limit: Option<u128>) -> Seq<StreamV> {
    let ordered = match order {
        Order::Ascending => s,
        Order::Descending => s.reverse(),
    };
    ordered.take(spec_page_len(s.len() as int, limit))
}

/// The records matching `pred`, in creation order.
fn filter_streams(streams: &Vec<PaymentStream>, key: &String, by_sender: bool) -> (r: Vec<
    PaymentStream,
>)
    ensures
        by_sender ==> r@.map_values(|s: PaymentStream| s@) == streams@.map_values(
            |s: PaymentStream| s@,
        ).filter(spec_sender_pred(key@)),
        !by_sender ==> r@.map_values(|s: PaymentStream| s@) == streams@.map_values(
            |s: PaymentStream| s@,
        ).filter(spec_recipient_pred(key@)),
{
    let ghost m = streams@.map_values(|s: PaymentStream| s@);
    let ghost pred = if by_sender {
        spec_sender_pred(key@)
    } else {
        spec_recipient_pred(key@)
    };
    let n: usize = streams.len();
    let mut matches: Vec<PaymentStream> = Vec::new();
    let mut k: usize = 0;
    proof {
        assert(m.subrange(0, 0).filter(pred) =~= Seq::<StreamV>::empty()) by {
            reveal(Seq::filter);
        }
    }
    while k < n
        invariant
            n == streams@.len(),
            k <= n,
            m == streams@.map_values(|s: PaymentStream| s@),
            pred == if by_sender {
                spec_sender_pred(key@)
            } else {
                spec_recipient_pred(key@)
            },
            matches@.map_values(|s: PaymentStream| s@) == m.subrange(0, k as int).filter(pred),
        decreases n - k,
    {
        let hit: bool = if by_sender {
            streams[k].sender == *key
        } else {
            streams[k].recipient == *key
        };
        proof {
            let pre = m.subrange(0, k as int);
            let cur = m.subrange(0, k as int + 1);
            assert(cur.drop_last() =~= pre);
            assert(cur.last() == m[k as int]);
            assert(m[k as int] == streams@[k as int]@);
            assert(hit == pred(m[k as int]));
            reveal(Seq::filter);
            if hit {
                assert(cur.filter(pred) == pre.filter(pred).push(m[k as int]));
            } else {
                assert(cur.filter(pred) == pre.filter(pred));
            }
        }
        if hit {
            let ghost pre_matches = matches@;
            matches.push(streams[k].clone());
            proof {
                assert(matches@.map_values(|s: PaymentStream| s@) =~= pre_matches.map_values(
                    |s: PaymentStream| s@,
                ).push(m[k as int]));
            }
        }
        k = k + 1;
    }
    proof {
        assert(m.subrange(0, n as int) =~= m);
    }
    matches
}

/// A page of `matches` in the requested order, at most the requested
/// number of records (ten when none is requested).
fn paginate(matches: Vec<PaymentStream>, order: Order, limit: Option<u128>) -> (r: Vec<
    PaymentStream,
>)
    ensures
        r@.map_values(|s: PaymentStream| s@) == spec_page(
            matches@.map_values(|s: PaymentStream| s@),
            order,
            limit,
        ),
{
    let ghost m = matches@.map_values(|s: PaymentStream| s@);
    let mlen: usize = matches.len();
    let lim_req: u128 = match limit {
        Some(l) => l,
        None => 10,
    };
    let lim: usize = if lim_req < mlen as u128 {
        lim_req as usize
    } else {
        mlen
    };
    proof {
        assert(lim as int == spec_page_len(m.len() as int, limit));
    }
    match order {
        Order::Ascending => {
            let mut matches = matches;
            matches.truncate(lim);
            proof {
                assert(matches@.map_values(|s: PaymentStream| s@) =~= m.take(lim as int));
            }
            matches
        },
        Order::Descending => {
            let mut out: Vec<PaymentStream> = Vec::new();
            let mut i: usize = 0;
            while i < lim
                invariant
                    lim <= mlen,
                    i <= lim,
                    mlen == matches@.len(),
                    m == matches@.map_values(|s: PaymentStream| s@),
                    out@.map_values(|s: PaymentStream| s@) =~= m.reverse().subrange(0, i as int),
                decreases lim - i,
            {
                let ghost pre_out = out@;
                out.push(matches[mlen - 1 - i].clone());
                proof {
                    assert(matches@[mlen - 1 - i as int]@ == m[mlen - 1 - i as int]);
                    assert(m.reverse()[i as int] == m[mlen - 1 - i as int]);
                    assert(out@.map_values(|s: PaymentStream| s@) =~= pre_out.map_values(
                        |s: PaymentStream| s@,
                    ).push(m[mlen - 1 - i as int]));
                    assert(out@.map_values(|s: PaymentStream| s@) =~= m.reverse().subrange(
                        0,
                        i as int + 1,
                    ));
                }
                i = i + 1;
            }
            proof {
                assert(m.reverse().subrange(0, lim as int) =~= m.reverse().take(lim as int));
            }
            out
        },
    }
}

/// The aggregate stream count.
pub fn query_stream_count(ledger: &Ledger) -> (r: CountResponse)
    ensures
        r.count == ledger@.state.count,
{
    CountResponse { count: ledger.state.count }
}

/// The first stream from `payer` to `payee`.
pub fn query_stream(ledger: &Ledger, payer: String, payee: String) -> (r: Result<
    LookupStreamResponse,
    ContractError,
>)
    ensures
        match spec_find_pair(ledger@.streams, payer@, payee@) {
            Some(j) => r is Ok && r->Ok_0.stream@ == ledger@.streams[j],
            None => r == Err::<LookupStreamResponse, ContractError>(
                ContractError::StreamNotFound {},
            ),
        },
{
    match find_pair_index(&ledger.streams, &payer, &payee) {
        Some(k) => {
            proof {
                assert(ledger@.streams[k as int] == ledger.streams@[k as int]@);
            }
            Ok(LookupStreamResponse { stream: ledger.streams[k].clone() })
        },
        None => Err(ContractError::StreamNotFound {}),
    }
}

/// The streams paid to `payee`, paginated.
pub fn query_streams_by_recipient(
    ledger: &Ledger,
    payee: String,
    order: Order,
    limit: Option<u128>,
) -> (r: StreamsResponse)
    ensures
        r@ == spec_page(ledger@.streams.filter(spec_recipient_pred(payee@)), order, limit),
{
    let matches = filter_streams(&ledger.streams, &payee, false);
    StreamsResponse { streams: paginate(matches, order, limit) }
}

/// The streams paid by `sender`, paginated.
pub fn query_streams_by_sender(
    ledger: &Ledger,
    sender: String,
    order: Order,
    limit: Option<u128>,
) -> (r: StreamsResponse)
    ensures
        r@ == spec_page(ledger@.streams.filter(spec_sender_pred(sender@)), order, limit),
{
    let matches = filter_streams(&ledger.streams, &sender, true);
    StreamsResponse { streams: paginate(matches, order, limit) }
}

/// The stream stored under `stream_idx`, alone in a response.
pub fn query_stream_by_index(ledger: &Ledger, stream_idx: u64) -> (r: Result<
    StreamsResponse,
    ContractError,
>)
    ensures
        1 <= stream_idx <= ledger@.streams.len() ==> r is Ok && r->Ok_0@ == seq![
            ledger@.streams[stream_idx - 1],
        ],
        !(1 <= stream_idx <= ledger@.streams.len()) ==> r == Err::<StreamsResponse, ContractError>(
            ContractError::StreamNotFound {},
        ),
{
    let n: usize = ledger.streams.len();
    if 1 <= stream_idx && stream_idx <= n as u64 {
        let k: usize = (stream_idx - 1) as usize;
        proof {
            assert(ledger@.streams[stream_idx - 1] == ledger.streams@[stream_idx - 1]@);
        }
        let mut streams: Vec<PaymentStream> = Vec::new();
        streams.push(ledger.streams[k].clone());
        proof {
            assert(streams@.map_values(|s: PaymentStream| s@) =~= seq![
                ledger@.streams[stream_idx - 1],
            ]);
        }
        Ok(StreamsResponse { streams })
    } else {
        Err(ContractError::StreamNotFound {})
    }
}

/// The stream stored under `stream_idx` with its claimable balance at
/// `now` and what has been paid out of it so far.
pub fn query_stream_amount_claimable(ledger: &Ledger, now: u64, stream_idx: u64) -> (r: Result<
    StreamClaimableAmtResponse,
    ContractError,
>)
    requires
        ledger@.wf(),
    ensures
        1 <= stream_idx <= ledger@.streams.len() ==> {
            let s = ledger@.streams[stream_idx - 1];
            &&& r is Ok
            &&& r->Ok_0.stream@ == s
            &&& r->Ok_0.amount_available == spec_claimable(s, now)
            &&& r->Ok_0.amount_streamed == s.deposit - s.remaining_balance
        },
        !(1 <= stream_idx <= ledger@.streams.len()) ==> r == Err::<
            StreamClaimableAmtResponse,
            ContractError,
        >(ContractError::StreamNotFound {}),
{
    let n: usize = ledger.streams.len();
    if 1 <= stream_idx && stream_idx <= n as u64 {
        let k: usize = (stream_idx - 1) as usize;
        proof {
            assert(ledger@.streams[stream_idx - 1] == ledger.streams@[stream_idx - 1]@);
        }
        let stream = &ledger.streams[k];
        let available_bal_for_stream: u128 = avail_balance_of(stream, now);
        let streamed_balance: u128 = stream.deposit - stream.remaining_balance;
        Ok(
            StreamClaimableAmtResponse {
                stream: stream.clone(),
                amount_available: available_bal_for_stream,
                amount_streamed: streamed_balance,
            },
        )
    } else {
        Err(ContractError::StreamNotFound {})
    }
}

/// Routes a read-only query against a consistent snapshot of the ledger.
pub fn query(ledger: &Ledger, now: u64, msg: QueryMsg) -> (r: Result<QueryAnswer, ContractError>)
    requires
        ledger@.wf(),
    ensures
        match msg {
            QueryMsg::LookupStream { payer, payee } => match spec_find_pair(
                ledger@.streams,
                payer@,
                payee@,
            ) {
                Some(j) => {
                    &&& r is Ok
                    &&& r->Ok_0 matches QueryAnswer::Lookup(resp) && resp.stream@
                        == ledger@.streams[j]
                },
                None => r == Err::<QueryAnswer, ContractError>(ContractError::StreamNotFound {}),
            },
            QueryMsg::StreamCount {  } => {
                &&& r is Ok
                &&& r->Ok_0 matches QueryAnswer::Count(resp) && resp.count == ledger@.state.count
            },
            QueryMsg::StreamsByRecipient { payee, reverse, limit } => {
                let order = if reverse == Some(true) {
                    Order::Descending
                } else {
                    Order::Ascending
                };
                &&& r is Ok
                &&& r->Ok_0 matches QueryAnswer::Streams(resp) && resp@ == spec_page(
                    ledger@.streams.filter(spec_recipient_pred(payee@)),
                    order,
                    limit,
                )
            },
            QueryMsg::StreamsBySender { sender, reverse, limit } => {
                let order = if reverse == Some(true) {
                    Order::Descending
                } else {
                    Order::Ascending
                };
                &&& r is Ok
                &&& r->Ok_0 matches QueryAnswer::Streams(resp) && resp@ == spec_page(
                    ledger@.streams.filter(spec_sender_pred(sender@)),
                    order,
                    limit,
                )
            },
            QueryMsg::StreamsByIndex { index } => {
                if 1 <= index && index <= ledger@.streams.len() {
                    &&& r is Ok
                    &&& r->Ok_0 matches QueryAnswer::Streams(resp) && resp@ == seq![
                        ledger@.streams[index - 1],
                    ]
                } else {
                    r == Err::<QueryAnswer, ContractError>(ContractError::StreamNotFound {})
                }
            },
            QueryMsg::StreamClaimableAmount { index } => {
                if 1 <= index && index <= ledger@.streams.len() {
                    let s = ledger@.streams[index - 1];
                    &&& r is Ok
                    &&& r->Ok_0 matches QueryAnswer::Claimable(resp)
                    &&& resp.stream@ == s
                    &&& resp.amount_available == spec_claimable(s, now)
                    &&& resp.amount_streamed == s.deposit - s.remaining_balance
                } else {
                    r == Err::<QueryAnswer, ContractError>(ContractError::StreamNotFound {})
                }
            },
        },
{
    match msg {
        QueryMsg::LookupStream { payer, payee } => match query_stream(ledger, payer, payee) {
            Ok(resp) => Ok(QueryAnswer::Lookup(resp)),
            Err(e) => Err(e),
        },
        QueryMsg::StreamCount {  } => Ok(QueryAnswer::Count(query_stream_count(ledger))),
        QueryMsg::StreamsByRecipient { payee, reverse, limit } => {
            let order = match reverse {
                Some(true) => Order::Descending,
                _ => Order::Ascending,
            };
            Ok(QueryAnswer::Streams(query_streams_by_recipient(ledger, payee, order, limit)))
        },
        QueryMsg::StreamsBySender { sender, reverse, limit } => {
            let order = match reverse {
                Some(true) => Order::Descending,
                _ => Order::Ascending,
            };
            Ok(QueryAnswer::Streams(query_streams_by_sender(ledger, sender, order, limit)))
        },
        QueryMsg::StreamsByIndex { index } => match query_stream_by_index(ledger, index) {
            Ok(resp) => Ok(QueryAnswer::Streams(resp)),
            Err(e) => Err(e),
        },
        QueryMsg::StreamClaimableAmount { index } => match query_stream_amount_claimable(
            ledger,
            now,
            index,
        ) {
            Ok(resp) => Ok(QueryAnswer::Claimable(resp)),
            Err(e) => Err(e),
        },
    }
}

} // verus!
