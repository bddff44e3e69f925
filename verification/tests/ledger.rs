use token_ledger::contract::{execute, instantiate, query};
use token_ledger::error::{ContractError, StdError};
use token_ledger::msg::{
    coins, BankMsg, Coin, ConfigResponse, ExecuteMsg, InstantiateMsg, MessageInfo, QueryMsg,
    QueryResponse,
};
use token_ledger::state::{Config, Storage};

fn mock_info(sender: &str, funds: Vec<Coin>) -> MessageInfo {
    MessageInfo {
        sender: sender.to_string(),
        funds,
    }
}

fn mock_init(store: &mut Storage) {
    let info = mock_info("creator", coins(2, "usei"));
    let _res = instantiate(store, info, InstantiateMsg {})
        .expect("contract successfully handles InstantiateMsg");
}

fn assert_config_state(store: &Storage, expected: Config) {
    let res = query(store, QueryMsg::Config {}).unwrap();
    match res {
        QueryResponse::Config(value) => assert_eq!(value, ConfigResponse::from(expected)),
        _ => panic!("Config query answered with the wrong response kind"),
    }
}

fn assert_balance(store: &Storage, address: &str, expected_balance: u128) {
    let res = query(
        store,
        QueryMsg::GetBalance {
            address: address.to_string(),
        },
    )
    .unwrap();
    match res {
        QueryResponse::GetBalance(value) => assert_eq!(expected_balance, value.balance),
        _ => panic!("GetBalance query answered with the wrong response kind"),
    }
}

#[test]
fn init_and_check_addr_from_config() {
    let mut store = Storage::new();

    let info = mock_info("creator", coins(1, "usei"));
    let _res = instantiate(&mut store, info, InstantiateMsg {})
        .expect("contract successfully handles InstantiateMsg");

    assert_config_state(
        &store,
        Config {
            owner: "creator".to_string(),
        },
    );
}

#[test]
fn init_and_check_addr_from_query() {
    let mut store = Storage::new();
    mock_init(&mut store);

    // Querying for the owner of the contract results in address "creator",
    // as defined in mock_init.
    let res = query(&store, QueryMsg::GetOwner {}).unwrap();
    match res {
        QueryResponse::GetOwner(value) => assert_eq!("creator", value.address),
        _ => panic!("GetOwner query answered with the wrong response kind"),
    }
}

#[test]
fn transfer_basic() {
    let mut store = Storage::new();
    mock_init(&mut store);

    let info_alice = mock_info("Alice", coins(1000, "usei"));

    let transfer_msg = ExecuteMsg::Transfer {
        address1: "Bob".to_string(),
        address2: "Carl".to_string(),
        amount: 1000,
    };

    let _res = execute(&mut store, info_alice, transfer_msg)
        .expect("Alice successfully transferes 1000 usei");
    assert_balance(&store, "Bob", 500);
    assert_balance(&store, "Carl", 500);
}

#[test]
fn transfer_odd_amount() {
    let mut store = Storage::new();
    mock_init(&mut store);

    let info_alice = mock_info("Alice", coins(5, "usei"));

    let transfer_msg = ExecuteMsg::Transfer {
        address1: "Bob".to_string(),
        address2: "Carl".to_string(),
        amount: 5,
    };

    let _res = execute(&mut store, info_alice, transfer_msg)
        .expect("Alice successfully transferes 1000 usei");
    assert_balance(&store, "Bob", 2);
    assert_balance(&store, "Carl", 2);
}

#[test]
fn get_balance_empty() {
    let mut store = Storage::new();
    mock_init(&mut store);

    // Bob's balance should be 0 usei as there have been no transfers to his addr.
    assert_balance(&store, "Bob", 0);
}

#[test]
fn withdraw_basic() {
    let mut store = Storage::new();
    mock_init(&mut store);

    let info_alice = mock_info("Alice", coins(1000, "usei"));

    let transfer_msg = ExecuteMsg::Transfer {
        address1: "Bob".to_string(),
        address2: "Carl".to_string(),
        amount: 1000,
    };

    let _transfer_res = execute(&mut store, info_alice, transfer_msg)
        .expect("Alice successfully transferes 1000 usei");

    // After Alice's transfer, Bob's balance should be 500.
    assert_balance(&store, "Bob", 500);

    // Now attempt to withdraw 400 tokens as Bob.
    let info_bob = mock_info("Bob", coins(0, "usei"));
    let _withdraw_res = execute(&mut store, info_bob, ExecuteMsg::Withdraw { amount: 400 });

    // After withdraw, Bob's balance should be 100.
    assert_balance(&store, "Bob", 100);
}

#[test]
fn withdraw_emits_payment_instruction() {
    let mut store = Storage::new();
    mock_init(&mut store);

    let info_alice = mock_info("Alice", coins(1000, "usei"));
    let transfer_msg = ExecuteMsg::Transfer {
        address1: "Bob".to_string(),
        address2: "Carl".to_string(),
        amount: 1000,
    };
    execute(&mut store, info_alice, transfer_msg).expect("transfer succeeds");

    let info_bob = mock_info("Bob", vec![]);
    let res = execute(&mut store, info_bob, ExecuteMsg::Withdraw { amount: 400 })
        .expect("withdraw succeeds");

    assert_eq!(1, res.messages.len());
    let BankMsg::Send { to_address, amount } = &res.messages[0];
    assert_eq!("Bob", to_address.as_str());
    assert_eq!(1, amount.len());
    assert_eq!("usei", amount[0].denom);
    assert_eq!(400, amount[0].amount);
}

#[test]
fn transfer_insufficient_funds() {
    let mut store = Storage::new();
    mock_init(&mut store);

    let info_alice = mock_info("Alice", coins(500, "usei"));
    let transfer_msg = ExecuteMsg::Transfer {
        address1: "Bob".to_string(),
        address2: "Carl".to_string(),
        amount: 1000,
    };

    let err = execute(&mut store, info_alice, transfer_msg).unwrap_err();
    assert_eq!(ContractError::InsufficientFundsSend, err);
    assert_balance(&store, "Bob", 0);
    assert_balance(&store, "Carl", 0);
}

#[test]
fn transfer_wrong_denomination() {
    let mut store = Storage::new();
    mock_init(&mut store);

    let info_alice = mock_info("Alice", coins(1000, "uatom"));
    let transfer_msg = ExecuteMsg::Transfer {
        address1: "Bob".to_string(),
        address2: "Carl".to_string(),
        amount: 1000,
    };

    let err = execute(&mut store, info_alice, transfer_msg).unwrap_err();
    assert_eq!(ContractError::InsufficientFundsSend, err);
    assert_balance(&store, "Bob", 0);
    assert_balance(&store, "Carl", 0);
}

#[test]
fn withdraw_insufficient_balance() {
    let mut store = Storage::new();
    mock_init(&mut store);

    let info_alice = mock_info("Alice", coins(1000, "usei"));
    let transfer_msg = ExecuteMsg::Transfer {
        address1: "Bob".to_string(),
        address2: "Carl".to_string(),
        amount: 1000,
    };
    execute(&mut store, info_alice, transfer_msg).expect("transfer succeeds");

    let info_bob = mock_info("Bob", vec![]);
    let err = execute(&mut store, info_bob, ExecuteMsg::Withdraw { amount: 600 }).unwrap_err();
    assert_eq!(ContractError::InsufficientBalanceForWithdraw, err);
    assert_balance(&store, "Bob", 500);
}

#[test]
fn withdraw_without_any_record() {
    let mut store = Storage::new();
    mock_init(&mut store);

    // A principal that was never credited has no balance record, and even a
    // zero withdrawal is rejected.
    let info_bob = mock_info("Bob", vec![]);
    let err = execute(&mut store, info_bob, ExecuteMsg::Withdraw { amount: 0 }).unwrap_err();
    assert_eq!(ContractError::InsufficientBalanceForWithdraw, err);
    assert_balance(&store, "Bob", 0);
}

#[test]
fn transfer_overflow_near_limit() {
    let mut store = Storage::new();
    mock_init(&mut store);

    // Two transfers of the largest representable amount drive both balances
    // to one below the limit.
    for _ in 0..2 {
        let info = mock_info("Alice", coins(u128::MAX, "usei"));
        let msg = ExecuteMsg::Transfer {
            address1: "Bob".to_string(),
            address2: "Carl".to_string(),
            amount: u128::MAX,
        };
        execute(&mut store, info, msg).expect("transfer of the largest amount succeeds");
    }
    assert_balance(&store, "Bob", u128::MAX - 1);
    assert_balance(&store, "Carl", u128::MAX - 1);

    // One more credit of two units each would overflow; nothing changes.
    let info = mock_info("Alice", coins(4, "usei"));
    let msg = ExecuteMsg::Transfer {
        address1: "Bob".to_string(),
        address2: "Carl".to_string(),
        amount: 4,
    };
    let err = execute(&mut store, info, msg).unwrap_err();
    assert_eq!(ContractError::Std(StdError::ArithmeticOverflow), err);
    assert_balance(&store, "Bob", u128::MAX - 1);
    assert_balance(&store, "Carl", u128::MAX - 1);
}

#[test]
fn transfer_same_destination_twice_credited() {
    let mut store = Storage::new();
    mock_init(&mut store);

    let info_alice = mock_info("Alice", coins(10, "usei"));
    let transfer_msg = ExecuteMsg::Transfer {
        address1: "Bob".to_string(),
        address2: "Bob".to_string(),
        amount: 10,
    };
    execute(&mut store, info_alice, transfer_msg).expect("transfer succeeds");
    assert_balance(&store, "Bob", 10);

    let info_alice = mock_info("Alice", coins(5, "usei"));
    let transfer_msg = ExecuteMsg::Transfer {
        address1: "Bob".to_string(),
        address2: "Bob".to_string(),
        amount: 5,
    };
    execute(&mut store, info_alice, transfer_msg).expect("transfer succeeds");
    assert_balance(&store, "Bob", 14);
}

#[test]
fn transfer_zero_amount_creates_records() {
    let mut store = Storage::new();
    mock_init(&mut store);

    // A zero transfer needs no attached payment and credits zero to each
    // destination, creating their balance records.
    let info_alice = mock_info("Alice", vec![]);
    let transfer_msg = ExecuteMsg::Transfer {
        address1: "Bob".to_string(),
        address2: "Carl".to_string(),
        amount: 0,
    };
    execute(&mut store, info_alice, transfer_msg).expect("zero transfer succeeds");
    assert_balance(&store, "Bob", 0);

    // With a record in place, a zero withdrawal now succeeds.
    let info_bob = mock_info("Bob", vec![]);
    let res = execute(&mut store, info_bob, ExecuteMsg::Withdraw { amount: 0 })
        .expect("zero withdraw succeeds once a record exists");
    assert_eq!(1, res.messages.len());
    assert_balance(&store, "Bob", 0);
}

#[test]
fn query_uninitialized_store() {
    let store = Storage::new();

    let owner_err = query(&store, QueryMsg::GetOwner {}).unwrap_err();
    assert_eq!(StdError::NotInitialized, owner_err);

    let config_err = query(&store, QueryMsg::Config {}).unwrap_err();
    assert_eq!(StdError::NotInitialized, config_err);

    // The balance query never fails, initialized or not.
    assert_balance(&store, "Bob", 0);
}
