//! The creation and withdrawal flows driven directly through the message
//! entry points, as the contract's own unit tests exercised them.

use cw1620::contract::{execute, instantiate, query};
use cw1620::error::ContractError;
use cw1620::msg::{ExecuteMsg, InstantiateMsg, Payout, QueryAnswer, QueryMsg};
use cw1620::state::{Asset, AssetInfo, Ledger};

/// The block time the test harness starts at, in seconds.
const MOCK_TIME: u64 = 1571797419;

fn stream_count(ledger: &Ledger) -> i32 {
    match query(ledger, MOCK_TIME, QueryMsg::StreamCount {}).unwrap() {
        QueryAnswer::Count(resp) => resp.count,
        _ => panic!("unexpected query answer"),
    }
}

#[test]
fn proper_initialization() {
    let msg = InstantiateMsg { count: 0 };
    let ledger = instantiate("creator".to_string(), msg);

    // It worked, let's query the state.
    assert_eq!(0, stream_count(&ledger));
    assert_eq!(0, ledger.streams.len());
}

#[test]
fn can_create_stream() {
    let msg = InstantiateMsg { count: 0 };
    let mut ledger = instantiate("creator".to_string(), msg);

    // It worked, let's query the state.
    assert_eq!(0, stream_count(&ledger));

    // Create a stream between mock users: the payer attached 1000 axlusdc.
    let env_time = MOCK_TIME;
    let stream_msg = ExecuteMsg::CreateStream {
        asset: Asset { amount: 100, info: AssetInfo::Native("axlusdc".to_string()) },
        recipient: "payee".to_string(),
        start_time: env_time,
        stop_time: env_time + 100,
        stream_type: None,
        curve: None,
    };
    let _ = execute(&mut ledger, "payer".to_string(), 1000, env_time, stream_msg).unwrap();

    // It worked, let's query the state.
    assert_eq!(1, stream_count(&ledger));
}

#[test]
fn can_not_create_with_deposit_more_than_provided_funds() {
    let msg = InstantiateMsg { count: 0 };
    let mut ledger = instantiate("creator".to_string(), msg);

    assert_eq!(0, stream_count(&ledger));

    let env_time = MOCK_TIME;

    // Attempt to create a stream with one more unit than provided.
    let stream_msg = ExecuteMsg::CreateStream {
        asset: Asset { amount: 1001, info: AssetInfo::Native("axlusdc".to_string()) },
        recipient: "payee".to_string(),
        start_time: env_time,
        stop_time: env_time + 100,
        stream_type: None,
        curve: None,
    };
    // We need this to unwrap as an error.
    let _ = execute(&mut ledger, "payer".to_string(), 1000, env_time, stream_msg).unwrap_err();

    // Attempt to create a stream with the correct deposit and provided funds.
    let stream_msg = ExecuteMsg::CreateStream {
        asset: Asset { amount: 1000, info: AssetInfo::Native("axlusdc".to_string()) },
        recipient: "payee".to_string(),
        start_time: env_time,
        stop_time: env_time + 100,
        stream_type: None,
        curve: None,
    };
    // No issue.
    let _ = execute(&mut ledger, "payer".to_string(), 1000, env_time, stream_msg).unwrap();

    assert_eq!(1, stream_count(&ledger));
}

#[test]
fn can_withdraw_from_a_created_stream_happy_and_sad_path() {
    let msg = InstantiateMsg { count: 0 };
    let mut ledger = instantiate("creator".to_string(), msg);

    assert_eq!(0, stream_count(&ledger));

    let mut env_time = MOCK_TIME;

    let stream_msg = ExecuteMsg::CreateStream {
        asset: Asset { amount: 100, info: AssetInfo::Native("axlusdc".to_string()) },
        recipient: "payee".to_string(),
        start_time: env_time,
        stop_time: env_time + 100,
        stream_type: None,
        curve: None,
    };
    let execute_res = execute(&mut ledger, "payer".to_string(), 100, env_time, stream_msg).unwrap();
    assert_eq!(execute_res.len(), 0);

    // Verify the payee can't get it all right away.
    let withdraw_msg = ExecuteMsg::ClaimFromStream {
        amount: 90,
        denom: String::from("axlusdc"),
        recipient: "payee".to_string(),
        stream_idx: Some(1),
    };
    let execute_res =
        execute(&mut ledger, "payee".to_string(), 0, env_time, withdraw_msg).unwrap_err();
    match execute_res {
        ContractError::NotEnoughAvailableBalance {} => {}
        _e => {
            panic!("DO NOT ENTER HERE")
        }
    }

    env_time += 10;
    let withdraw_msg = ExecuteMsg::ClaimFromStream {
        amount: 10,
        denom: String::from("axlusdc"),
        recipient: "payee".to_string(),
        stream_idx: Some(1),
    };
    let execute_res = execute(&mut ledger, "payee".to_string(), 0, env_time, withdraw_msg).unwrap();
    assert_eq!(1, execute_res.len());

    // Verify the payee has indeed been paid by checking the payout.
    assert_eq!(
        execute_res,
        vec![Payout {
            to_address: "payee".to_string(),
            denom: "axlusdc".to_string(),
            amount: 10,
        }]
    );

    // Verify the payee can't get it all right away.
    let withdraw_msg = ExecuteMsg::ClaimFromStream {
        amount: 90,
        denom: String::from("axlusdc"),
        recipient: "payee".to_string(),
        stream_idx: Some(1),
    };
    let execute_res =
        execute(&mut ledger, "payee".to_string(), 0, env_time, withdraw_msg).unwrap_err();
    match execute_res {
        ContractError::NotEnoughAvailableBalance {} => {}
        _ => panic!("DO NOT ENTER HERE"),
    }

    // Simulate the rest of the time, the payee is able to get more now.
    env_time += 90;
    let withdraw_msg = ExecuteMsg::ClaimFromStream {
        amount: 90,
        denom: String::from("axlusdc"),
        recipient: "payee".to_string(),
        stream_idx: Some(1),
    };
    let execute_res = execute(&mut ledger, "payee".to_string(), 0, env_time, withdraw_msg).unwrap();
    assert_eq!(1, execute_res.len());

    assert_eq!(
        execute_res,
        vec![Payout {
            to_address: "payee".to_string(),
            denom: "axlusdc".to_string(),
            amount: 90,
        }]
    );

    // Now this time, having drained the funds, no more should be sent.
    env_time += 51;
    let withdraw_msg = ExecuteMsg::ClaimFromStream {
        amount: 10,
        denom: String::from("axlusdc"),
        recipient: "payee".to_string(),
        stream_idx: Some(1),
    };
    let execute_res =
        execute(&mut ledger, "payee".to_string(), 0, env_time, withdraw_msg).unwrap_err();
    match execute_res {
        ContractError::NotEnoughAvailableBalance {} => {}
        _ => panic!("DO NOT ENTER HERE"),
    }
}
