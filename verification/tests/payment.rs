//! Stream lifecycle and query behaviour driven through the execute and
//! query entry points, at the block times a chain harness would supply.

use cw1620::contract::{execute, instantiate, query_stream_amount_claimable, query_stream_by_index,
    query_stream_count, query_streams_by_recipient, query_streams_by_sender};
use cw1620::curve::{Curve, SaturatingLinear};
use cw1620::error::ContractError;
use cw1620::msg::{ExecuteMsg, InstantiateMsg, Order, Payout};
use cw1620::state::{Asset, AssetInfo, Ledger, StreamType};

/// The block time the test harness starts at, in seconds.
const BASE_TIME: u64 = 1571797419;

fn fresh_ledger() -> Ledger {
    instantiate("owner".to_string(), InstantiateMsg { count: 0 })
}

#[allow(clippy::too_many_arguments)]
fn create_stream(
    ledger: &mut Ledger,
    sender: &str,
    recipient: &str,
    deposit: u128,
    denom: &str,
    start_time: u64,
    stop_time: u64,
    attached: u128,
    stream_type: Option<StreamType>,
    curve: Option<Curve>,
) -> Result<Vec<Payout>, ContractError> {
    let msg = ExecuteMsg::CreateStream {
        recipient: recipient.to_string(),
        asset: Asset { amount: deposit, info: AssetInfo::Native(denom.to_string()) },
        start_time,
        stop_time,
        stream_type,
        curve,
    };
    execute(ledger, sender.to_string(), attached, start_time, msg)
}

fn withdraw_from_stream(
    ledger: &mut Ledger,
    recipient: &str,
    amount: u128,
    denom: &str,
    stream_idx: Option<u64>,
    now: u64,
) -> Result<Vec<Payout>, ContractError> {
    let msg = ExecuteMsg::ClaimFromStream {
        recipient: recipient.to_string(),
        amount,
        denom: denom.to_string(),
        stream_idx,
    };
    execute(ledger, recipient.to_string(), 0, now, msg)
}

fn claimable_amount(ledger: &Ledger, now: u64, stream_idx: u64) -> u128 {
    query_stream_amount_claimable(ledger, now, stream_idx)
        .unwrap()
        .amount_available
}

#[test]
fn test_create_stream_errors() {
    let funder = "funder";
    let alice = "alice";
    let mut ledger = fresh_ledger();

    // Attempt to create a stream whose window is reversed.
    let err = create_stream(
        &mut ledger,
        funder,
        alice,
        100u128,
        "ibc/something/axlusdc",
        BASE_TIME + 100,
        BASE_TIME,
        100u128,
        None,
        None,
    )
    .unwrap_err();
    assert_eq!(
        ContractError::DeltaIssue { start_time: 1571797519, stop_time: 1571797419 },
        err,
        "Expected InvalidTime error"
    );
}

#[test]
fn test_create_stream_with_curve() {
    let funder = "funder";
    let alice = "alice";
    let mut ledger = fresh_ledger();
    let mut now = BASE_TIME;
    let mut alice_balance: u128 = 0;

    create_stream(
        &mut ledger,
        funder,
        alice,
        100u128,
        "ibc/something/axlusdc",
        now,
        now + 100,
        100u128,
        Some(StreamType::LinearCurveBased),
        Some(Curve::SaturatingLinear(SaturatingLinear {
            min_x: now,
            min_y: 0,
            max_x: now + 100,
            max_y: 100,
        })),
    )
    .unwrap();

    // Verify that the stream was created.
    let created_stream = query_stream_by_index(&ledger, 1u64).unwrap().streams.pop();
    match created_stream {
        Some(stream) => {
            assert_eq!(stream.recipient, alice.to_string());
            assert_eq!(stream.sender, funder.to_string());
            assert_eq!(stream.deposit, 100u128);
            assert_eq!(stream.token_addr.to_string(), "native:ibc/something/axlusdc".to_string());
            assert_eq!(stream.start_time, now);
            assert_eq!(stream.stop_time, now + 100);
        }
        None => {
            panic!("Stream was not created");
        }
    }

    // Verify again but query by sender.
    let created_stream =
        query_streams_by_sender(&ledger, funder.to_string(), Order::Ascending, None).streams.pop();
    match created_stream {
        Some(stream) => {
            assert_eq!(stream.recipient, alice.to_string());
            assert_eq!(stream.sender, funder.to_string());
            assert_eq!(stream.deposit, 100u128);
            assert_eq!(stream.token_addr.to_string(), "native:ibc/something/axlusdc".to_string());
            assert_eq!(stream.start_time, now);
            assert_eq!(stream.stop_time, now + 100);
        }
        None => {
            panic!("Stream by sender was not created or not found");
        }
    }

    // Verify again but query by payee.
    let created_stream =
        query_streams_by_recipient(&ledger, alice.to_string(), Order::Ascending, None)
            .streams
            .pop();
    match created_stream {
        Some(stream) => {
            assert_eq!(stream.recipient, alice.to_string());
            assert_eq!(stream.sender, funder.to_string());
            assert_eq!(stream.deposit, 100u128);
            assert_eq!(stream.token_addr.to_string(), "native:ibc/something/axlusdc".to_string());
            assert_eq!(stream.start_time, now);
            assert_eq!(stream.stop_time, now + 100);
        }
        None => {
            panic!("Stream by payee was not created or not found");
        }
    }

    // Pass some time so the recipient can withdraw something.
    now += 41;
    assert_eq!(claimable_amount(&ledger, now, 1u64), 41u128);
    let payouts =
        withdraw_from_stream(&mut ledger, alice, 41u128, "ibc/something/axlusdc", Some(1u64), now)
            .unwrap();
    alice_balance += payouts.iter().map(|p| p.amount).sum::<u128>();

    // Verify that the recipient has withdrawn something.
    let created_stream = query_stream_by_index(&ledger, 1u64).unwrap().streams.pop();
    match created_stream {
        Some(stream) => {
            assert_eq!(stream.recipient, alice.to_string());
            assert_eq!(stream.sender, funder.to_string());
            assert_eq!(stream.deposit, 100u128);
            assert_eq!(stream.token_addr.to_string(), "native:ibc/something/axlusdc".to_string());
            assert_eq!(stream.remaining_balance, 59u128);
        }
        None => {
            panic!("Stream was not created");
        }
    }

    // Pass the rest of the window.
    now += 59;
    assert_eq!(claimable_amount(&ledger, now, 1u64), 59u128);
    let payouts =
        withdraw_from_stream(&mut ledger, alice, 59u128, "ibc/something/axlusdc", Some(1u64), now)
            .unwrap();
    alice_balance += payouts.iter().map(|p| p.amount).sum::<u128>();

    // The recipient received the whole deposit.
    assert_eq!(alice_balance, 100u128);
}

#[test]
fn test_create_stream() {
    let funder = "funder";
    let alice = "alice";
    let mut ledger = fresh_ledger();
    let mut now = BASE_TIME;
    let mut alice_balance: u128 = 0;

    create_stream(
        &mut ledger,
        funder,
        alice,
        100u128,
        "ibc/something/axlusdc",
        now,
        now + 100,
        100u128,
        None,
        None,
    )
    .unwrap();

    let created_stream = query_stream_by_index(&ledger, 1u64).unwrap().streams.pop();
    match created_stream {
        Some(stream) => {
            assert_eq!(stream.recipient, alice.to_string());
            assert_eq!(stream.sender, funder.to_string());
            assert_eq!(stream.deposit, 100u128);
            assert_eq!(stream.token_addr.to_string(), "native:ibc/something/axlusdc".to_string());
            assert_eq!(stream.start_time, now);
            assert_eq!(stream.stop_time, now + 100);
        }
        None => {
            panic!("Stream was not created");
        }
    }

    let created_stream =
        query_streams_by_sender(&ledger, funder.to_string(), Order::Ascending, None).streams.pop();
    match created_stream {
        Some(stream) => {
            assert_eq!(stream.recipient, alice.to_string());
            assert_eq!(stream.sender, funder.to_string());
            assert_eq!(stream.deposit, 100u128);
            assert_eq!(stream.token_addr.to_string(), "native:ibc/something/axlusdc".to_string());
            assert_eq!(stream.start_time, now);
            assert_eq!(stream.stop_time, now + 100);
        }
        None => {
            panic!("Stream by sender was not created or not found");
        }
    }

    let created_stream =
        query_streams_by_recipient(&ledger, alice.to_string(), Order::Ascending, None)
            .streams
            .pop();
    match created_stream {
        Some(stream) => {
            assert_eq!(stream.recipient, alice.to_string());
            assert_eq!(stream.sender, funder.to_string());
            assert_eq!(stream.deposit, 100u128);
            assert_eq!(stream.token_addr.to_string(), "native:ibc/something/axlusdc".to_string());
            assert_eq!(stream.start_time, now);
            assert_eq!(stream.stop_time, now + 100);
        }
        None => {
            panic!("Stream by payee was not created or not found");
        }
    }

    now += 50;
    assert_eq!(claimable_amount(&ledger, now, 1u64), 50u128);
    let payouts =
        withdraw_from_stream(&mut ledger, alice, 50u128, "ibc/something/axlusdc", Some(1u64), now)
            .unwrap();
    alice_balance += payouts.iter().map(|p| p.amount).sum::<u128>();

    let created_stream = query_stream_by_index(&ledger, 1u64).unwrap().streams.pop();
    match created_stream {
        Some(stream) => {
            assert_eq!(stream.recipient, alice.to_string());
            assert_eq!(stream.sender, funder.to_string());
            assert_eq!(stream.deposit, 100u128);
            assert_eq!(stream.token_addr.to_string(), "native:ibc/something/axlusdc".to_string());
            assert_eq!(stream.remaining_balance, 50u128);
        }
        None => {
            panic!("Stream was not created");
        }
    }

    assert_eq!(alice_balance, 50u128);
}

#[test]
fn test_create_multiple_streams() {
    let funder = "funder";
    let recipients = ["alice", "bob", "charlie"];
    let mut ledger = fresh_ledger();
    let mut now = BASE_TIME;

    for recipient in recipients.iter() {
        create_stream(
            &mut ledger,
            funder,
            recipient,
            100u128,
            "ibc/something/axlusdc",
            now,
            now + 100,
            100u128,
            None,
            None,
        )
        .unwrap();
    }

    // Advance time 20% of the way through the streams.
    now += 20;

    for (idx, recipient) in recipients.iter().enumerate() {
        // Each recipient can only withdraw 20% and not for example 21%.
        let err = withdraw_from_stream(
            &mut ledger,
            recipient,
            21u128,
            "ibc/something/axlusdc",
            Some(idx as u64 + 1u64),
            now,
        )
        .unwrap_err();
        assert_eq!(
            ContractError::NotEnoughAvailableBalance {},
            err,
            "Expected NotEnoughAvailableBalance error"
        );

        withdraw_from_stream(
            &mut ledger,
            recipient,
            20u128,
            "ibc/something/axlusdc",
            Some(idx as u64 + 1u64),
            now,
        )
        .unwrap();

        // No recipient can withdraw more than has accrued by now.
        let err = withdraw_from_stream(
            &mut ledger,
            recipient,
            100u128,
            "ibc/something/axlusdc",
            Some(idx as u64 + 1u64),
            now,
        )
        .unwrap_err();
        assert_eq!(
            ContractError::NotEnoughAvailableBalance {},
            err,
            "Expected NotEnoughAvailableBalance error"
        );
    }
}

#[test]
fn test_query_stream_count() {
    let funder = "funder";
    let recipients = ["alice", "bob", "charlie"];
    let mut ledger = fresh_ledger();
    let now = BASE_TIME;

    for recipient in recipients.iter() {
        create_stream(
            &mut ledger,
            funder,
            recipient,
            100u128,
            "ibc/something/axlusdc",
            now,
            now + 100,
            100u128,
            None,
            None,
        )
        .unwrap();
    }

    let count = query_stream_count(&ledger).count as u64;
    assert_eq!(count, 3u64);
}

#[test]
fn test_query_streams_by_payee_one_stream() {
    let funder = "funder";
    let recipients = ["alice", "bob", "charlie"];
    let mut ledger = fresh_ledger();
    let now = BASE_TIME;

    for recipient in recipients.iter() {
        create_stream(
            &mut ledger,
            funder,
            recipient,
            100u128,
            "ibc/something/axlusdc",
            now,
            now + 100,
            100u128,
            None,
            None,
        )
        .unwrap();
    }

    let count = query_stream_count(&ledger).count as u64;
    assert_eq!(count, 3u64);

    let streams =
        query_streams_by_recipient(&ledger, recipients[0].to_string(), Order::Ascending, None)
            .streams;
    assert_eq!(streams.len(), 1);
    assert_eq!(streams[0].recipient, recipients[0].to_string());
    assert_eq!(streams[0].sender, funder.to_string());
    assert_eq!(streams[0].deposit, 100u128);
    assert_eq!(streams[0].token_addr.to_string(), "native:ibc/something/axlusdc".to_string());
    assert_eq!(streams[0].start_time, now);
    assert_eq!(streams[0].stop_time, now + 100);
}

#[test]
fn test_query_streams_by_payee_multiple_streams() {
    let funder = "funder";
    let recipients = ["alice", "bob", "charlie"];
    let mut ledger = fresh_ledger();
    let now = BASE_TIME;

    for recipient in recipients.iter() {
        create_stream(
            &mut ledger,
            funder,
            recipient,
            100u128,
            "ibc/something/axlusdc",
            now,
            now + 100,
            100u128,
            None,
            None,
        )
        .unwrap();
    }

    // Create an extra stream for the second recipient.
    create_stream(
        &mut ledger,
        funder,
        recipients[1],
        100u128,
        "ibc/something/axlusdc",
        now,
        now + 100,
        100u128,
        None,
        None,
    )
    .unwrap();

    let count = query_stream_count(&ledger).count as u64;
    assert_eq!(count, 4u64);

    let streams =
        query_streams_by_recipient(&ledger, recipients[1].to_string(), Order::Ascending, None)
            .streams;
    assert_eq!(streams.len(), 2);
    assert_eq!(streams[0].recipient, recipients[1].to_string());
    assert_eq!(streams[0].sender, funder.to_string());
    assert_eq!(streams[0].deposit, 100u128);
    assert_eq!(streams[0].token_addr.to_string(), "native:ibc/something/axlusdc".to_string());
    assert_eq!(streams[0].start_time, now);
    assert_eq!(streams[0].stop_time, now + 100);
}

#[test]
fn test_query_streams_by_sender_multiple_streams() {
    let funder = "funder";
    let recipients = ["alice", "bob", "charlie"];
    let mut ledger = fresh_ledger();
    let now = BASE_TIME;

    let mut all_streams = vec![];

    for (idx, recipient) in recipients.iter().enumerate() {
        create_stream(
            &mut ledger,
            funder,
            recipient,
            100u128,
            "ibc/something/axlusdc",
            now,
            now + 100,
            100u128,
            None,
            None,
        )
        .unwrap();
        let stream = query_stream_by_index(&ledger, idx as u64 + 1).unwrap().streams.pop();
        match stream {
            Some(stream) => {
                all_streams.push(stream);
            }
            None => {
                panic!("Stream was not created");
            }
        }
    }

    // Create an extra stream for the second recipient.
    create_stream(
        &mut ledger,
        funder,
        recipients[1],
        100u128,
        "ibc/something/axlusdc",
        now,
        now + 100,
        100u128,
        None,
        None,
    )
    .unwrap();
    let stream = query_stream_by_index(&ledger, 4u64).unwrap().streams.pop();
    match stream {
        Some(stream) => {
            all_streams.push(stream);
        }
        None => {
            panic!("Stream was not created");
        }
    }

    let count = query_stream_count(&ledger).count as u64;
    assert_eq!(count, 4u64);

    let streams =
        query_streams_by_sender(&ledger, funder.to_string(), Order::Ascending, None).streams;
    assert_eq!(streams.len(), 4);
    assert_eq!(streams, all_streams);
}

#[test]
fn test_linear_curve() {
    let funder = "funder";
    let alice = "alice";
    let mut ledger = fresh_ledger();
    let mut now = BASE_TIME;
    let mut alice_balance: u128 = 0;

    create_stream(
        &mut ledger,
        funder,
        alice,
        100u128,
        "ibc/something/axlusdc",
        now,
        now + 100,
        100u128,
        Some(StreamType::LinearCurveBased),
        Some(Curve::SaturatingLinear(SaturatingLinear {
            min_x: now,
            min_y: 0,
            max_x: now + 100,
            max_y: 100,
        })),
    )
    .unwrap();

    // Advance time 20% of the way through the stream.
    now += 20;

    let created_stream = query_stream_by_index(&ledger, 1u64).unwrap().streams.pop();
    match created_stream {
        Some(stream) => {
            assert_eq!(stream.recipient, alice.to_string());
            assert_eq!(stream.sender, funder.to_string());
            assert_eq!(stream.deposit, 100u128);
            assert_eq!(stream.token_addr.to_string(), "native:ibc/something/axlusdc".to_string());
            assert_eq!(stream.remaining_balance, 100u128);
        }
        None => {
            panic!("Stream was not created");
        }
    }

    // Advance another 20% and withdraw.
    now += 20;
    let payouts =
        withdraw_from_stream(&mut ledger, alice, 20u128, "ibc/something/axlusdc", Some(1u64), now)
            .unwrap();
    alice_balance += payouts.iter().map(|p| p.amount).sum::<u128>();

    let created_stream = query_stream_by_index(&ledger, 1u64).unwrap().streams.pop();
    match created_stream {
        Some(stream) => {
            assert_eq!(stream.recipient, alice.to_string());
            assert_eq!(stream.sender, funder.to_string());
            assert_eq!(stream.deposit, 100u128);
            assert_eq!(stream.token_addr.to_string(), "native:ibc/something/axlusdc".to_string());
            assert_eq!(stream.remaining_balance, 80u128);
        }
        None => {
            panic!("Stream was not created");
        }
    }

    // Advance another 20% and withdraw again.
    now += 20;
    let payouts =
        withdraw_from_stream(&mut ledger, alice, 20u128, "ibc/something/axlusdc", Some(1u64), now)
            .unwrap();
    alice_balance += payouts.iter().map(|p| p.amount).sum::<u128>();

    assert_eq!(alice_balance, 40u128);
}

#[test]
fn test_rounding_small_deposit_over_long_duration() {
    let funder = "funder";
    let recipient = "recipient";
    let mut ledger = fresh_ledger();
    let mut now = BASE_TIME;

    // Small deposit, long duration: one unit over a year.
    create_stream(
        &mut ledger,
        funder,
        recipient,
        1u128,
        "ibc/something/axlusdc",
        now,
        now + 31536000,
        1u128,
        None,
        None,
    )
    .unwrap();

    // Half a year in.
    now += 15768000;
    let claimable_amount_halfway = claimable_amount(&ledger, now, 1u64);
    assert_eq!(claimable_amount_halfway, 0u128, "Should be 0 due to rounding down");

    // End of the stream duration.
    now += 31536000;
    let claimable_amount_end = claimable_amount(&ledger, now, 1u64);
    assert_eq!(claimable_amount_end, 1u128, "Full amount should be claimable");
}

#[test]
fn test_rounding_large_deposit_short_duration() {
    let funder = "funder";
    let recipient = "recipient";
    let mut ledger = fresh_ledger();
    let mut now = BASE_TIME;

    let large_deposit: u128 = 1_000_000_000;
    let short_duration: u64 = 10;

    create_stream(
        &mut ledger,
        funder,
        recipient,
        large_deposit,
        "ibc/something/axlusdc",
        now,
        now + short_duration,
        large_deposit,
        None,
        None,
    )
    .unwrap();

    now += 5;
    let claimable = claimable_amount(&ledger, now, 1u64);
    let expected_claimable_halfway = large_deposit / 2;
    assert_eq!(
        claimable, expected_claimable_halfway,
        "Claimable amount should be half of the deposit after half duration"
    );

    now += short_duration;
    let claimable_amount_end = claimable_amount(&ledger, now, 1u64);
    assert_eq!(
        claimable_amount_end, large_deposit,
        "Full amount should be claimable at the end of the duration"
    );
}

#[test]
fn test_rounding_edge_case_for_one_second() {
    let funder = "funder";
    let recipient = "recipient";
    let mut ledger = fresh_ledger();
    let mut now = BASE_TIME;

    let deposit_for_one_second: u128 = 10;

    create_stream(
        &mut ledger,
        funder,
        recipient,
        deposit_for_one_second,
        "ibc/something/axlusdc",
        now,
        now + 1,
        deposit_for_one_second,
        None,
        None,
    )
    .unwrap();

    now += 1;
    let claimable = claimable_amount(&ledger, now, 1u64);
    assert_eq!(
        claimable, deposit_for_one_second,
        "Claimable amount should match deposit after one second"
    );
}

#[test]
fn test_rounding_with_intermittent_claims() {
    let funder = "funder";
    let recipient = "recipient";
    let mut ledger = fresh_ledger();
    let mut now = BASE_TIME;

    let deposit: u128 = 1_000_000;
    let duration: u64 = 100;

    create_stream(
        &mut ledger,
        funder,
        recipient,
        deposit,
        "ibc/something/axlusdc",
        now,
        now + duration,
        deposit,
        None,
        None,
    )
    .unwrap();

    let intervals = vec![1u64, 5, 10, 20, 64];
    let mut total_claimed: u128 = 0;

    for &interval in &intervals {
        now += interval;

        let claimable = claimable_amount(&ledger, now, 1u64);
        withdraw_from_stream(
            &mut ledger,
            recipient,
            claimable,
            "ibc/something/axlusdc",
            Some(1u64),
            now,
        )
        .unwrap();

        total_claimed += claimable;

        let expected_total_claimed = total_claimed.min(deposit);
        assert_eq!(
            total_claimed, expected_total_claimed,
            "Total claimed should not exceed expected amount"
        );
    }

    // At the end of the stream, the remaining balance should be zero.
    now += duration;
    let _ = now;
    let remaining_balance =
        query_stream_by_index(&ledger, 1u64).unwrap().streams.pop().unwrap().remaining_balance;
    assert_eq!(remaining_balance, 0u128, "Remaining balance should be zero at the end of the stream");
}

#[test]
fn test_stream_claimable_amount_over_time() {
    let funder = "funder";
    let recipient = "recipient";
    let mut ledger = fresh_ledger();

    let total_deposit: u128 = 1_000_000;

    let start_timestamp: u64 = 1571797419;
    let end_timestamp: u64 = start_timestamp + (12 * 30 * 24 * 60 * 60);

    create_stream(
        &mut ledger,
        funder,
        recipient,
        total_deposit,
        "ibc/something/axlusdc",
        start_timestamp,
        end_timestamp,
        total_deposit,
        None,
        None,
    )
    .unwrap();

    let month_durations = [1u64, 3, 6, 12];
    let reduction = [0u64, 1, 3, 6];
    let seconds_in_a_month: u64 = 30 * 24 * 60 * 60;
    let mut now = start_timestamp;
    for &month_duration in &month_durations {
        let expected_amount = total_deposit * (month_duration * seconds_in_a_month) as u128
            / (end_timestamp - start_timestamp) as u128;

        let reduction = match month_duration {
            1 => reduction[0],
            3 => reduction[1],
            6 => reduction[2],
            12 => reduction[3],
            _ => {
                panic!("Unexpected month duration");
            }
        };

        now += seconds_in_a_month * (month_duration - reduction);

        let claimable = claimable_amount(&ledger, now, 1u64);
        assert_eq!(
            claimable, expected_amount,
            "Claimable amount after {} months is not as expected",
            month_duration
        );
    }
}
