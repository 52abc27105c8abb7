use ammse::contract::execute;
use ammse::execute::{
    borrow_from_pool, earn_tokens_into_pool, execute_redeem, lend_to_pool, release_from_pool,
    withdraw_from_pool_for_earn,
};
use ammse::msg::{Cw20HookMsg, Env, Envelope, ExecuteMsg, MessageInfo};
use ammse::response::OutMsg;
use ammse::state::{Config, Store, Vault};
use ammse::ContractError;

fn token_store() -> Store {
    let mut store = Store::new();
    store.config = Some(Config { owner: "owner".to_string(), token: "T".to_string() });
    store
}

fn info(sender: &str) -> MessageInfo {
    MessageInfo { sender: sender.to_string() }
}

fn escrow_envelope(sender: &str, amount: u128, time: u64) -> Envelope {
    Envelope {
        sender: sender.to_string(),
        amount,
        msg: Ok(Cw20HookMsg::Escrow { time }),
    }
}

fn transfer_of(msg: &OutMsg) -> (&str, &str, u128) {
    match msg {
        OutMsg::Transfer(t) => (t.token.as_str(), t.recipient.as_str(), t.amount),
        other => panic!("expected a transfer, got {:?}", other),
    }
}

#[test]
fn escrow_happy_path() {
    let mut store = token_store();

    let res = execute(
        &mut store,
        Env { block_time: 1000 },
        info("T"),
        ExecuteMsg::ReceiveForCollateral(escrow_envelope("A", 500, 60)),
    )
    .unwrap();
    assert!(res.messages.is_empty());

    let escrow = store.escrow.clone().unwrap();
    assert_eq!(escrow.user, "A");
    assert_eq!(escrow.amount, 500);
    assert_eq!(escrow.time, 1060);

    let res = execute(
        &mut store,
        Env { block_time: 1060 },
        info("A"),
        ExecuteMsg::RedeemForCollateral {},
    )
    .unwrap();
    assert_eq!(res.messages.len(), 1);
    assert_eq!(transfer_of(&res.messages[0]), ("T", "A", 500));
    assert!(store.escrow.is_none());
}

#[test]
fn escrow_early_redeem() {
    let mut store = token_store();

    execute(
        &mut store,
        Env { block_time: 1000 },
        info("T"),
        ExecuteMsg::ReceiveForCollateral(escrow_envelope("A", 500, 60)),
    )
    .unwrap();

    let res = execute(
        &mut store,
        Env { block_time: 1059 },
        info("A"),
        ExecuteMsg::RedeemForCollateral {},
    );
    assert!(matches!(res, Err(ContractError::NotExpired {})));
    assert!(store.escrow.is_some());
}

#[test]
fn redeem_boundary_is_exact() {
    let mut early = token_store();
    early.escrow = Some(ammse::state::Escrow {
        user: "A".to_string(),
        amount: 500,
        time: 1060,
    });
    let res = execute_redeem(&mut early, Env { block_time: 1059 }, "A".to_string());
    assert!(matches!(res, Err(ContractError::NotExpired {})));

    let mut on_time = token_store();
    on_time.escrow = Some(ammse::state::Escrow {
        user: "A".to_string(),
        amount: 500,
        time: 1060,
    });
    let res = execute_redeem(&mut on_time, Env { block_time: 1060 }, "A".to_string());
    assert!(res.is_ok());
    assert!(on_time.escrow.is_none());
}

#[test]
fn lend_release_round_trip() {
    let mut store = token_store();

    lend_to_pool(&mut store, Env { block_time: 1000 }, "L".to_string(), 500, 60).unwrap();
    assert_eq!(store.vault.unwrap().total_tokens, 500);

    let res = release_from_pool(&mut store, Env { block_time: 1060 }, "L".to_string()).unwrap();
    assert_eq!(store.vault.unwrap().total_tokens, 0);
    assert!(store.lender.is_none());
    assert_eq!(transfer_of(&res.messages[0]), ("T", "L", 500));
}

#[test]
fn borrow_beyond_liquidity() {
    let mut store = token_store();
    store.vault = Some(Vault { total_tokens: 300 });

    let res = borrow_from_pool(&mut store, Env { block_time: 1000 }, "B".to_string(), 500, 60);
    assert!(matches!(res, Err(ContractError::InsufficientFunds {})));
    assert_eq!(store.vault.unwrap().total_tokens, 300);
    assert!(store.borrower.is_none());
}

#[test]
fn borrow_whole_pool_leaves_it_empty() {
    let mut store = token_store();
    store.vault = Some(Vault { total_tokens: 500 });

    let res = borrow_from_pool(&mut store, Env { block_time: 1000 }, "B".to_string(), 500, 60)
        .unwrap();
    assert_eq!(store.vault.unwrap().total_tokens, 0);
    assert_eq!(transfer_of(&res.messages[0]), ("T", "B", 500));
}

#[test]
fn earn_accumulate_then_withdraw() {
    let mut store = token_store();

    earn_tokens_into_pool(&mut store, Env { block_time: 1000 }, "B".to_string(), 200).unwrap();
    earn_tokens_into_pool(&mut store, Env { block_time: 1010 }, "B".to_string(), 300).unwrap();

    let earnings = store.earnings.clone().unwrap();
    assert_eq!(earnings.user, "B");
    assert_eq!(earnings.amount_supplied, 500);
    assert_eq!(earnings.last_updated, 1000);
    assert_eq!(store.vault.unwrap().total_tokens, 500);

    let res = withdraw_from_pool_for_earn(&mut store, Env { block_time: 1020 }, "B".to_string())
        .unwrap();
    assert_eq!(transfer_of(&res.messages[0]), ("T", "B", 500));
    assert!(store.earnings.is_none());
    assert_eq!(store.vault.unwrap().total_tokens, 0);
}

#[test]
fn pool_accounting_over_a_sequence() {
    let mut store = token_store();
    let initial: u128 = 0;

    lend_to_pool(&mut store, Env { block_time: 1000 }, "L".to_string(), 500, 60).unwrap();
    earn_tokens_into_pool(&mut store, Env { block_time: 1001 }, "B".to_string(), 300).unwrap();
    borrow_from_pool(&mut store, Env { block_time: 1002 }, "C".to_string(), 200, 60).unwrap();
    withdraw_from_pool_for_earn(&mut store, Env { block_time: 1003 }, "B".to_string()).unwrap();

    // A release of the full 500 cannot succeed here: the 200 borrowed were
    // never repaid, which is exactly what the accounting predicts.
    let res = release_from_pool(&mut store, Env { block_time: 1060 }, "L".to_string());
    assert!(matches!(res, Err(ContractError::InsufficientFunds {})));

    let lent = 500u128;
    let earned = 300u128;
    let borrowed = 200u128;
    let withdrawn = 300u128;
    assert_eq!(
        store.vault.unwrap().total_tokens,
        initial + lent + earned - borrowed - withdrawn
    );
}

#[test]
fn redeem_encodes_the_token_transfer_call() {
    let mut store = Store::new();
    store.config = Some(Config {
        owner: "owner".to_string(),
        token: "token_address".to_string(),
    });
    store.escrow = Some(ammse::state::Escrow {
        user: "user_address".to_string(),
        amount: 500,
        time: 1,
    });

    let res = execute_redeem(&mut store, Env { block_time: 2 }, "user_address".to_string())
        .unwrap();
    match &res.messages[0] {
        OutMsg::Transfer(t) => {
            assert_eq!(t.token, "token_address");
            assert_eq!(
                t.payload,
                br#"{"transfer":{"recipient":"user_address","amount":"500"}}"#.to_vec()
            );
        }
        other => panic!("expected a transfer, got {:?}", other),
    }
}

#[test]
fn zero_amount_deposits_are_rejected() {
    let mut store = token_store();
    let before_escrow = store.escrow.clone();

    let res = execute(
        &mut store,
        Env { block_time: 1000 },
        info("T"),
        ExecuteMsg::ReceiveForCollateral(escrow_envelope("A", 0, 60)),
    );
    assert!(matches!(res, Err(ContractError::InvalidZeroAmount {})));
    assert_eq!(store.escrow, before_escrow);

    let res = lend_to_pool(&mut store, Env { block_time: 1000 }, "L".to_string(), 0, 60);
    assert!(matches!(res, Err(ContractError::InvalidZeroAmount {})));
    assert!(store.lender.is_none());
    assert!(store.vault.is_none());

    let res = earn_tokens_into_pool(&mut store, Env { block_time: 1000 }, "B".to_string(), 0);
    assert!(matches!(res, Err(ContractError::InvalidZeroAmount {})));
    assert!(store.earnings.is_none());

    let res = borrow_from_pool(&mut store, Env { block_time: 1000 }, "C".to_string(), 0, 60);
    assert!(matches!(res, Err(ContractError::InvalidZeroAmount {})));
    assert!(store.borrower.is_none());
}

#[test]
fn second_lend_on_a_live_slot_is_rejected() {
    let mut store = token_store();

    lend_to_pool(&mut store, Env { block_time: 1000 }, "L".to_string(), 500, 60).unwrap();
    let before = store.clone();

    let res = lend_to_pool(&mut store, Env { block_time: 1001 }, "M".to_string(), 200, 30);
    assert!(matches!(res, Err(ContractError::ExistingLender {})));
    assert_eq!(res.unwrap_err().message(), "User has existing lender");
    assert_eq!(store, before);
}

#[test]
fn second_borrow_on_a_live_slot_is_rejected() {
    let mut store = token_store();
    store.vault = Some(Vault { total_tokens: 1000 });

    borrow_from_pool(&mut store, Env { block_time: 1000 }, "B".to_string(), 300, 60).unwrap();
    let before = store.clone();

    let res = borrow_from_pool(&mut store, Env { block_time: 1001 }, "C".to_string(), 200, 30);
    assert!(matches!(res, Err(ContractError::ExistingBorrower {})));
    assert_eq!(res.unwrap_err().message(), "User has existing borrower");
    assert_eq!(store, before);
}

#[test]
fn foreign_caller_is_rejected_before_the_payload_is_read() {
    let mut store = token_store();
    let before = store.clone();

    let envelope = Envelope {
        sender: "A".to_string(),
        amount: 500,
        msg: Err(ammse::StdErr { msg: "Invalid type".to_string() }),
    };
    let res = execute(
        &mut store,
        Env { block_time: 1000 },
        info("mallory"),
        ExecuteMsg::LendToPool(envelope),
    );

    assert!(matches!(res, Err(ContractError::Unauthorized {})));
    assert_eq!(store, before);
}
