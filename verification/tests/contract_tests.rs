use ammse::contract::{execute, instantiate, lend_to_poolV2, receive_cw20};
use ammse::msg::{Cw20HookMsg, Env, Envelope, ExecuteMsg, InstantiateMsg, MessageInfo};
use ammse::response::Attribute;
use ammse::state::{Config, ContractVersion, State, Store};
use ammse::{set_contract_version, ContractError, StdErr};

fn mock_env() -> Env {
    Env { block_time: 1_571_797_419 }
}

fn attr(key: &str, value: &str) -> Attribute {
    Attribute { key: key.to_string(), value: value.to_string() }
}

fn info(sender: &str) -> MessageInfo {
    MessageInfo { sender: sender.to_string() }
}

fn escrow_envelope(sender: &str, amount: u128, time: u64) -> Envelope {
    Envelope {
        sender: sender.to_string(),
        amount,
        msg: Ok(Cw20HookMsg::Escrow { time }),
    }
}

#[test]
fn proper_initialization() {
    let mut store = Store::new();
    let msg = InstantiateMsg {};

    // we can just call .unwrap() to assert this was a success
    let res = instantiate(&mut store, mock_env(), info("creator"), msg).unwrap();
    assert_eq!(0, res.messages.len());
}

#[test]
fn instantiate_stamps_version_and_owner() {
    let mut store = Store::new();

    let res = instantiate(&mut store, mock_env(), info("creator"), InstantiateMsg {}).unwrap();

    assert_eq!(res.attributes, vec![
        attr("method", "instantiate"),
        attr("owner", "creator"),
    ]);
    let version = store.contract_version.unwrap();
    assert_eq!(version.contract, "Temporal AMM Contracts");
    assert_eq!(version.version, "0.1.0");
}

#[test]
fn test_set_contract_version() {
    let mut store = Store::new();
    let contract_name = "my_contract";
    let contract_version = "1.0.0";

    let result = set_contract_version(
        &mut store,
        contract_name.to_string(),
        contract_version.to_string(),
    );
    assert!(result.is_ok());

    let saved_version: ContractVersion = store.contract_version.unwrap();
    assert_eq!(saved_version.contract, contract_name);
    assert_eq!(saved_version.version, contract_version);
}

#[test]
fn execute_rejects_foreign_token() {
    let mut store = Store::new();
    store.config = Some(Config { owner: "owner".to_string(), token: "T".to_string() });
    let before = store.clone();

    let res = execute(
        &mut store,
        Env { block_time: 1000 },
        info("mallory"),
        ExecuteMsg::EarnToPool(escrow_envelope("B", 200, 0)),
    );

    assert!(matches!(res, Err(ContractError::Unauthorized {})));
    assert_eq!(store, before);
}

#[test]
fn execute_rejects_foreign_token_on_escrow_deposit() {
    let mut store = Store::new();
    store.config = Some(Config { owner: "owner".to_string(), token: "T".to_string() });
    let before = store.clone();

    let res = execute(
        &mut store,
        Env { block_time: 1000 },
        info("not_the_token"),
        ExecuteMsg::ReceiveForCollateral(escrow_envelope("A", 500, 60)),
    );

    assert!(matches!(res, Err(ContractError::Unauthorized {})));
    assert_eq!(res.unwrap_err().message(), "Unauthorized");
    assert_eq!(store, before);
}

#[test]
fn execute_reports_decode_errors() {
    let mut store = Store::new();
    store.config = Some(Config { owner: "owner".to_string(), token: "T".to_string() });

    let envelope = Envelope {
        sender: "A".to_string(),
        amount: 500,
        msg: Err(StdErr { msg: "Error parsing into type Cw20HookMsg".to_string() }),
    };
    let res = execute(&mut store, Env { block_time: 1000 }, info("T"), ExecuteMsg::LendToPool(envelope));

    match res {
        Err(ContractError::Std(e)) => {
            assert_eq!(e.msg, "Error parsing into type Cw20HookMsg");
        }
        other => panic!("expected a decode error, got {:?}", other),
    }
    assert!(store.lender.is_none());
}

#[test]
fn execute_routes_escrow_deposit() {
    let mut store = Store::new();
    store.config = Some(Config { owner: "owner".to_string(), token: "T".to_string() });

    let res = execute(
        &mut store,
        Env { block_time: 1000 },
        info("T"),
        ExecuteMsg::ReceiveForCollateral(escrow_envelope("A", 500, 60)),
    )
    .unwrap();

    assert_eq!(res.attributes, vec![attr("action", "escrow")]);
    let escrow = store.escrow.unwrap();
    assert_eq!(escrow.user, "A");
    assert_eq!(escrow.amount, 500);
    assert_eq!(escrow.time, 1060);
}

#[test]
fn receive_cw20_reports_decode_errors() {
    let mut store = Store::new();
    store.config = Some(Config { owner: "owner".to_string(), token: "T".to_string() });

    let envelope = Envelope {
        sender: "A".to_string(),
        amount: 500,
        msg: Err(StdErr { msg: "Invalid type".to_string() }),
    };
    let res = receive_cw20(&mut store, Env { block_time: 1000 }, info("T"), envelope);

    match res {
        Err(ContractError::Std(e)) => assert_eq!(e.msg, "Invalid type"),
        other => panic!("expected a decode error, got {:?}", other),
    }
    assert!(store.escrow.is_none());
}

#[test]
fn increment_steps_the_counter() {
    let mut store = Store::new();
    store.state = Some(State { count: 17, owner: "creator".to_string() });

    let res = execute(&mut store, mock_env(), info("anyone"), ExecuteMsg::Increment {}).unwrap();

    assert_eq!(res.attributes, vec![attr("action", "increment")]);
    assert_eq!(store.state.unwrap().count, 18);
}

#[test]
fn reset_requires_the_owner() {
    let mut store = Store::new();
    store.state = Some(State { count: 17, owner: "creator".to_string() });

    let res = execute(
        &mut store,
        mock_env(),
        info("anyone"),
        ExecuteMsg::Reset { count: 5 },
    );
    assert!(matches!(res, Err(ContractError::Unauthorized {})));
    assert_eq!(store.state.clone().unwrap().count, 17);

    let res = execute(
        &mut store,
        mock_env(),
        info("creator"),
        ExecuteMsg::Reset { count: 5 },
    )
    .unwrap();
    assert_eq!(res.attributes, vec![attr("action", "reset")]);
    assert_eq!(store.state.unwrap().count, 5);
}

#[test]
fn lend_to_pool_v2_matches_lend_to_pool() {
    let mut store = Store::new();
    let env = Env { block_time: 1000 };

    let res = lend_to_poolV2(&mut store, env, "lender_address".to_string(), 500, 60).unwrap();

    assert_eq!(res.attributes, vec![attr("action", "lend")]);
    assert_eq!(store.vault.unwrap().total_tokens, 500);
    let li = store.lender.unwrap();
    assert_eq!(li.lender, "lender_address");
    assert_eq!(li.amount_lent, 500);
    assert_eq!(li.maturity_date, 1060);
}

#[test]
fn error_messages_are_stable() {
    assert_eq!(ContractError::Unauthorized {}.message(), "Unauthorized");
    assert_eq!(ContractError::ExistingEscrow {}.message(), "User has existing escrow");
    assert_eq!(ContractError::NoExistingEscrow {}.message(), "User has no existing escrow");
    assert_eq!(ContractError::NotExpired {}.message(), "Escrow has not expired");
    assert_eq!(ContractError::InsufficientFunds {}.message(), "Insufficent Funds");
    assert_eq!(ContractError::DurationNotMet {}.message(), "Duration Not Met");
    assert_eq!(ContractError::ExistingLender {}.message(), "User has existing lender");
    assert_eq!(ContractError::ExistingBorrower {}.message(), "User has existing borrower");
    assert_eq!(ContractError::InvalidZeroAmount {}.message(), "Invalid zero amount");
    assert_eq!(
        ContractError::Std(StdErr { msg: "kind not found".to_string() }).message(),
        "kind not found"
    );
}
