use vstd::prelude::*;

use crate::error::{is_std_msg, ContractError, StdErr};
use crate::laws::{op_delta, PoolOp};
use crate::msg::Env;
use crate::response::{
    action_response, is_single_action, is_transfer_response, transfer_response, Attribute, OutMsg,
    Response, SendMsg,
};
use crate::state::{
    pool_liquidity, BorrowerInfo, Coin, Earnings, Escrow, LenderInfo, Store, Vault,
};

verus! {

/// A missing stored record, reported as the host's store reports one.
pub(crate) fn std_not_found(what: &str) -> (e: ContractError)
    ensures
        is_std_msg(e, what@),
{
    ContractError::Std(StdErr::generic_err(what))
}

/// An escrow may only be created when its unlock time fits the clock.
pub open spec fn execute_escrow_req(
    s: Store,
    env: Env,
    token: String,
    amount: u128,
    time: u64,
) -> bool {
    (s.config matches Some(c) && c.token@ == token@ && amount > 0 && s.escrow is None)
        ==> env.block_time + time <= u64::MAX
}

/// What `execute_escrow` does: with the configured token calling, a
/// positive amount and the escrow slot free, it stores a record unlocking
/// at `block_time + time` and reports the `escrow` action; a foreign token
/// is turned away, a zero amount is refused, a live slot is left
/// untouched, and nothing else changes.
pub open spec fn execute_escrow_post(
    old_s: Store,
    new_s: Store,
    env: Env,
    user: String,
    token: String,
    amount: u128,
    time: u64,
    r: Result<Response, ContractError>,
) -> bool {
    match old_s.config {
        None => new_s == old_s && (r matches Err(e) && is_std_msg(e, "Config not found"@)),
        Some(c) => if c.token@ != token@ {
            new_s == old_s && r == Err::<Response, ContractError>(ContractError::Unauthorized {  })
        } else if amount == 0 {
            new_s == old_s && r == Err::<Response, ContractError>(
                ContractError::InvalidZeroAmount {  },
            )
        } else if old_s.escrow is Some {
            new_s == old_s && r == Err::<Response, ContractError>(
                ContractError::ExistingEscrow {  },
            )
        } else {
            &&& new_s == (Store {
                escrow: Some(
                    Escrow { user, amount, time: (env.block_time + time) as u64 },
                ),
                ..old_s
            })
            &&& r matches Ok(resp) && is_single_action(resp, "escrow"@)
        },
    }
}

/// Time-locks `amount` tokens for `user` until `block_time + time`. The
/// tokens already arrived with the notification, so no transfer goes out.
/// Only the configured token's notifications are honoured, only of a
/// positive amount, and at most one escrow may live at a time.
pub fn execute_escrow(
    store: &mut Store,
    env: Env,
    user: String,
    token: String,
    amount: u128,
    time: u64,
) -> (r: Result<Response, ContractError>)
    requires
        execute_escrow_req(*old(store), env, token, amount, time),
    ensures
        execute_escrow_post(*old(store), *final(store), env, user, token, amount, time, r),
{
    let cfg_token: String = match &store.config {
        None => {
            return Err(std_not_found("Config not found"));
        },
        Some(cfg) => cfg.token.clone(),
    };
    if !(cfg_token == token) {
        return Err(ContractError::Unauthorized {  });
    }
    if amount == 0 {
        return Err(ContractError::InvalidZeroAmount {  });
    }
    if store.escrow.is_some() {
        return Err(ContractError::ExistingEscrow {  });
    }
    store.escrow = Some(Escrow { user, amount, time: env.block_time + time });
    Ok(action_response("escrow"))
}

/// What `execute_redeem` does: with an escrow on file and matured, the
/// slot is emptied and one transfer of the escrowed amount goes to the
/// caller — and that success is owed, since encoding the transfer cannot
/// fail; before maturity, or with no escrow, nothing changes.
pub open spec fn execute_redeem_post(
    old_s: Store,
    new_s: Store,
    env: Env,
    user: String,
    r: Result<Response, ContractError>,
) -> bool {
    match old_s.config {
        None => new_s == old_s && (r matches Err(e) && is_std_msg(e, "Config not found"@)),
        Some(c) => match old_s.escrow {
            None => new_s == old_s && r == Err::<Response, ContractError>(
                ContractError::NoExistingEscrow {  },
            ),
            Some(e) => if e.time > env.block_time {
                new_s == old_s && r == Err::<Response, ContractError>(
                    ContractError::NotExpired {  },
                )
            } else {
                &&& new_s == (Store { escrow: None, ..old_s })
                &&& r matches Ok(resp) && is_transfer_response(
                    resp,
                    c.token@,
                    user@,
                    e.amount,
                    "redeem"@,
                )
            },
        },
    }
}

/// Pays a matured escrow out to the caller: removes the record and emits
/// one transfer of the escrowed amount from the configured token.
pub fn execute_redeem(store: &mut Store, env: Env, user: String) -> (r: Result<
    Response,
    ContractError,
>)
    ensures
        execute_redeem_post(*old(store), *final(store), env, user, r),
{
    let cfg_token: String = match &store.config {
        None => {
            return Err(std_not_found("Config not found"));
        },
        Some(cfg) => cfg.token.clone(),
    };
    let amount: u128 = match &store.escrow {
        None => {
            return Err(ContractError::NoExistingEscrow {  });
        },
        Some(e) => {
            if e.time > env.block_time {
                return Err(ContractError::NotExpired {  });
            }
            e.amount
        },
    };
    let resp = transfer_response(&cfg_token, &user, amount, "redeem");
    store.escrow = None;
    Ok(resp)
}

/// Lending must keep the vault's counter and the maturity clock in range
/// on the path that stores a position.
pub open spec fn lend_to_pool_req(s: Store, env: Env, amount: u128, duration: u64) -> bool {
    (amount > 0 && s.lender is None) ==> {
        &&& pool_liquidity(s) + amount <= u128::MAX
        &&& env.block_time + duration <= u64::MAX
    }
}

/// What `lend_to_pool` does: a zero amount is refused and a live lender
/// slot is left untouched; otherwise the vault grows by the amount lent,
/// the lender slot records the position maturing at `block_time +
/// duration`, and the `lend` action is reported. No transfer goes out.
pub open spec fn lend_to_pool_post(
    old_s: Store,
    new_s: Store,
    env: Env,
    lender: String,
    amount: u128,
    duration: u64,
    r: Result<Response, ContractError>,
) -> bool {
    if amount == 0 {
        new_s == old_s && r == Err::<Response, ContractError>(ContractError::InvalidZeroAmount {  })
    } else if old_s.lender is Some {
        new_s == old_s && r == Err::<Response, ContractError>(ContractError::ExistingLender {  })
    } else {
        &&& r matches Ok(resp) && is_single_action(resp, "lend"@)
        &&& new_s == (Store {
            vault: Some(Vault { total_tokens: (pool_liquidity(old_s) + amount) as u128 }),
            lender: Some(
                LenderInfo {
                    lender,
                    amount_lent: amount,
                    maturity_date: (env.block_time + duration) as u64,
                },
            ),
            ..old_s
        })
        &&& pool_liquidity(new_s) == pool_liquidity(old_s) + op_delta(PoolOp::Lend { amount })
    }
}

/// Credits the pool with `amount` lent tokens and records the lender's
/// position. An absent vault counts as empty; at most one lending position
/// may live at a time.
pub fn lend_to_pool(
    store: &mut Store,
    env: Env,
    lender: String,
    amount: u128,
    duration: u64,
) -> (r: Result<Response, ContractError>)
    requires
        lend_to_pool_req(*old(store), env, amount, duration),
    ensures
        lend_to_pool_post(*old(store), *final(store), env, lender, amount, duration, r),
{
    if amount == 0 {
        return Err(ContractError::InvalidZeroAmount {  });
    }
    if store.lender.is_some() {
        return Err(ContractError::ExistingLender {  });
    }
    let vault: Vault = match store.vault {
        Some(v) => v,
        None => Vault::default(),
    };
    store.vault = Some(Vault { total_tokens: vault.total_tokens + amount });
    store.lender = Some(
        LenderInfo { lender, amount_lent: amount, maturity_date: env.block_time + duration },
    );
    Ok(action_response("lend"))
}

/// Borrowing must keep the maturity clock in range on the path that
/// stores a debt.
pub open spec fn borrow_from_pool_req(s: Store, env: Env, amount: u128, duration: u64) -> bool {
    (amount > 0 && amount <= pool_liquidity(s) && s.borrower is None) ==> env.block_time + duration
        <= u64::MAX
}

/// What `borrow_from_pool` does: a zero amount is refused; a request above
/// the free liquidity fails with insufficient funds; a live borrower slot
/// is left untouched; without a configuration the store reports it
/// missing. Otherwise success is owed: the vault shrinks by the amount,
/// the borrower slot records the debt maturing at `block_time + duration`,
/// and one transfer of the amount goes to the borrower.
pub open spec fn borrow_from_pool_post(
    old_s: Store,
    new_s: Store,
    env: Env,
    borrower: String,
    amount: u128,
    duration: u64,
    r: Result<Response, ContractError>,
) -> bool {
    if amount == 0 {
        new_s == old_s && r == Err::<Response, ContractError>(ContractError::InvalidZeroAmount {  })
    } else if amount > pool_liquidity(old_s) {
        new_s == old_s && r == Err::<Response, ContractError>(ContractError::InsufficientFunds {  })
    } else if old_s.borrower is Some {
        new_s == old_s && r == Err::<Response, ContractError>(ContractError::ExistingBorrower {  })
    } else {
        match old_s.config {
            None => new_s == old_s && (r matches Err(e) && is_std_msg(e, "Config not found"@)),
            Some(c) => {
                &&& new_s == (Store {
                    vault: Some(
                        Vault { total_tokens: (pool_liquidity(old_s) - amount) as u128 },
                    ),
                    borrower: Some(
                        BorrowerInfo {
                            borrower,
                            amount_borrowed: amount,
                            maturity_date: (env.block_time + duration) as u64,
                        },
                    ),
                    ..old_s
                })
                &&& r matches Ok(resp) && is_transfer_response(
                    resp,
                    c.token@,
                    borrower@,
                    amount,
                    "borrow"@,
                )
                &&& pool_liquidity(new_s) == pool_liquidity(old_s) + op_delta(
                    PoolOp::Borrow { amount },
                )
            },
        }
    }
}

/// Debits the pool by `amount` and hands it to the borrower: records the
/// debt and emits one transfer to the borrower. At most one debt may live
/// at a time.
pub fn borrow_from_pool(
    store: &mut Store,
    env: Env,
    borrower: String,
    amount: u128,
    duration: u64,
) -> (r: Result<Response, ContractError>)
    requires
        borrow_from_pool_req(*old(store), env, amount, duration),
    ensures
        borrow_from_pool_post(*old(store), *final(store), env, borrower, amount, duration, r),
{
    if amount == 0 {
        return Err(ContractError::InvalidZeroAmount {  });
    }
    let vault: Vault = match store.vault {
        Some(v) => v,
        None => Vault::default(),
    };
    if vault.total_tokens < amount {
        return Err(ContractError::InsufficientFunds {  });
    }
    if store.borrower.is_some() {
        return Err(ContractError::ExistingBorrower {  });
    }
    let cfg_token: String = match &store.config {
        None => {
            return Err(std_not_found("Config not found"));
        },
        Some(cfg) => cfg.token.clone(),
    };
    let resp = transfer_response(&cfg_token, &borrower, amount, "borrow");
    store.vault = Some(Vault { total_tokens: vault.total_tokens - amount });
    store.borrower = Some(
        BorrowerInfo { borrower, amount_borrowed: amount, maturity_date: env.block_time + duration },
    );
    Ok(resp)
}

/// What `release_from_pool` does: before maturity the position stays; at
/// or past maturity, with the vault covering the amount lent and the
/// instance configured, success is owed: the lender slot is emptied, the
/// vault shrinks by the amount lent, and one transfer goes back to the
/// stored lender.
pub open spec fn release_from_pool_post(
    old_s: Store,
    new_s: Store,
    env: Env,
    r: Result<Response, ContractError>,
) -> bool {
    match old_s.lender {
        None => new_s == old_s && (r matches Err(e) && is_std_msg(e, "Lender not found"@)),
        Some(li) => if env.block_time < li.maturity_date {
            new_s == old_s && r == Err::<Response, ContractError>(ContractError::DurationNotMet {  })
        } else {
            match old_s.vault {
                None => new_s == old_s && (r matches Err(e) && is_std_msg(e, "Vault not found"@)),
                Some(v) => if v.total_tokens < li.amount_lent {
                    new_s == old_s && r == Err::<Response, ContractError>(
                        ContractError::InsufficientFunds {  },
                    )
                } else {
                    match old_s.config {
                        None => new_s == old_s && (r matches Err(e) && is_std_msg(
                            e,
                            "Config not found"@,
                        )),
                        Some(c) => {
                            &&& new_s == (Store {
                                vault: Some(
                                    Vault {
                                        total_tokens: (v.total_tokens - li.amount_lent) as u128,
                                    },
                                ),
                                lender: None,
                                ..old_s
                            })
                            &&& r matches Ok(resp) && is_transfer_response(
                                resp,
                                c.token@,
                                li.lender@,
                                li.amount_lent,
                                "release"@,
                            )
                            &&& pool_liquidity(new_s) == pool_liquidity(old_s) + op_delta(
                                PoolOp::Release { amount: li.amount_lent },
                            )
                        },
                    }
                },
            }
        },
    }
}

/// Releases a matured lending position: debits the vault by the amount
/// lent, removes the lender record, and emits one transfer back to the
/// lender.
pub fn release_from_pool(store: &mut Store, env: Env, lender: String) -> (r: Result<
    Response,
    ContractError,
>)
    ensures
        release_from_pool_post(*old(store), *final(store), env, r),
{
    let (stored_lender, amount_lent, maturity_date): (String, u128, u64) = match &store.lender {
        None => {
            return Err(std_not_found("Lender not found"));
        },
        Some(li) => (li.lender.clone(), li.amount_lent, li.maturity_date),
    };
    if env.block_time < maturity_date {
        return Err(ContractError::DurationNotMet {  });
    }
    let vault: Vault = match store.vault {
        Some(v) => v,
        None => {
            return Err(std_not_found("Vault not found"));
        },
    };
    if vault.total_tokens < amount_lent {
        return Err(ContractError::InsufficientFunds {  });
    }
    let cfg_token: String = match &store.config {
        None => {
            return Err(std_not_found("Config not found"));
        },
        Some(cfg) => cfg.token.clone(),
    };
    let resp = transfer_response(&cfg_token, &stored_lender, amount_lent, "release");
    store.vault = Some(Vault { total_tokens: vault.total_tokens - amount_lent });
    store.lender = None;
    Ok(resp)
}

/// An earn deposit must keep the vault's counter and the accumulated
/// position in range.
pub open spec fn earn_tokens_into_pool_req(s: Store, amount: u128) -> bool {
    amount > 0 ==> {
        &&& pool_liquidity(s) + amount <= u128::MAX
        &&& (s.earnings matches Some(e) ==> e.amount_supplied + amount <= u128::MAX)
    }
}

/// What `earn_tokens_into_pool` does: a zero amount is refused; otherwise
/// the vault grows by the amount, and a fresh earn record is created
/// stamped with the block time, or an existing one accumulates the amount
/// and takes the depositor as its user.
pub open spec fn earn_tokens_into_pool_post(
    old_s: Store,
    new_s: Store,
    env: Env,
    user: String,
    amount: u128,
    r: Result<Response, ContractError>,
) -> bool {
    if amount == 0 {
        new_s == old_s && r == Err::<Response, ContractError>(ContractError::InvalidZeroAmount {  })
    } else {
        &&& r matches Ok(resp) && is_single_action(resp, "earn"@)
        &&& new_s == (Store {
            vault: Some(Vault { total_tokens: (pool_liquidity(old_s) + amount) as u128 }),
            earnings: Some(
                match old_s.earnings {
                    None => Earnings {
                        user,
                        amount_supplied: amount,
                        last_updated: env.block_time,
                    },
                    Some(e) => Earnings {
                        user,
                        amount_supplied: (e.amount_supplied + amount) as u128,
                        last_updated: e.last_updated,
                    },
                },
            ),
            ..old_s
        })
        &&& pool_liquidity(new_s) == pool_liquidity(old_s) + op_delta(
            PoolOp::EarnDeposit { amount },
        )
    }
}

/// Adds an open-ended deposit to the pool: credits the vault and creates
/// or grows the earn record. The record's user follows the latest
/// depositor, as the single-slot model has it.
pub fn earn_tokens_into_pool(store: &mut Store, env: Env, user: String, amount: u128) -> (r: Result<
    Response,
    ContractError,
>)
    requires
        earn_tokens_into_pool_req(*old(store), amount),
    ensures
        earn_tokens_into_pool_post(*old(store), *final(store), env, user, amount, r),
{
    if amount == 0 {
        return Err(ContractError::InvalidZeroAmount {  });
    }
    let vault: Vault = match store.vault {
        Some(v) => v,
        None => Vault::default(),
    };
    let new_earnings: Earnings = match &store.earnings {
        None => Earnings { user, amount_supplied: amount, last_updated: env.block_time },
        Some(e) => Earnings {
            user,
            amount_supplied: e.amount_supplied + amount,
            last_updated: e.last_updated,
        },
    };
    store.vault = Some(Vault { total_tokens: vault.total_tokens + amount });
    store.earnings = Some(new_earnings);
    Ok(action_response("earn"))
}

/// What `withdraw_from_pool_for_earn` does: with an earn record on file,
/// the vault covering it and the instance configured, success is owed: the
/// record is removed, the vault shrinks by the accumulated amount, and one
/// transfer of exactly that amount goes to the caller.
pub open spec fn withdraw_from_pool_for_earn_post(
    old_s: Store,
    new_s: Store,
    user: String,
    r: Result<Response, ContractError>,
) -> bool {
    match old_s.earnings {
        None => new_s == old_s && (r matches Err(e) && is_std_msg(e, "Earnings not found"@)),
        Some(er) => match old_s.vault {
            None => new_s == old_s && (r matches Err(e) && is_std_msg(e, "Vault not found"@)),
            Some(v) => if v.total_tokens < er.amount_supplied {
                new_s == old_s && r == Err::<Response, ContractError>(
                    ContractError::InsufficientFunds {  },
                )
            } else {
                match old_s.config {
                    None => new_s == old_s && (r matches Err(e) && is_std_msg(
                        e,
                        "Config not found"@,
                    )),
                    Some(c) => {
                        &&& new_s == (Store {
                            vault: Some(
                                Vault {
                                    total_tokens: (v.total_tokens - er.amount_supplied) as u128,
                                },
                            ),
                            earnings: None,
                            ..old_s
                        })
                        &&& r matches Ok(resp) && is_transfer_response(
                            resp,
                            c.token@,
                            user@,
                            er.amount_supplied,
                            "withdraw for earn"@,
                        )
                        &&& pool_liquidity(new_s) == pool_liquidity(old_s) + op_delta(
                            PoolOp::EarnWithdraw { amount: er.amount_supplied },
                        )
                    },
                }
            },
        },
    }
}

/// Pays the whole accumulated earn position out to the caller: removes
/// the record, debits the vault, and emits one transfer.
pub fn withdraw_from_pool_for_earn(store: &mut Store, env: Env, user: String) -> (r: Result<
    Response,
    ContractError,
>)
    ensures
        withdraw_from_pool_for_earn_post(*old(store), *final(store), user, r),
{
    let amount_to_withdraw: u128 = match &store.earnings {
        None => {
            return Err(std_not_found("Earnings not found"));
        },
        Some(e) => e.amount_supplied,
    };
    let vault: Vault = match store.vault {
        Some(v) => v,
        None => {
            return Err(std_not_found("Vault not found"));
        },
    };
    if vault.total_tokens < amount_to_withdraw {
        return Err(ContractError::InsufficientFunds {  });
    }
    let cfg_token: String = match &store.config {
        None => {
            return Err(std_not_found("Config not found"));
        },
        Some(cfg) => cfg.token.clone(),
    };
    let resp = transfer_response(&cfg_token, &user, amount_to_withdraw, "withdraw for earn");
    store.vault = Some(Vault { total_tokens: vault.total_tokens - amount_to_withdraw });
    store.earnings = None;
    Ok(resp)
}

/// Builds the response that moves native coins: one send of `amount` to
/// `to_address`, with the action and recipient on the receipt.
pub fn send_tokens(to_address: String, amount: Vec<Coin>, action: &str) -> (resp: Response)
    ensures
        resp.messages@.len() == 1,
        resp.messages@[0] is Send,
        (resp.messages@[0] matches OutMsg::Send(s) ==> s.to_address == to_address && s.amount
            == amount),
        resp.attributes@.len() == 2,
        resp.attributes@[0].key@ == "action"@,
        resp.attributes@[0].value@ == action@,
        resp.attributes@[1].key@ == "to"@,
        resp.attributes@[1].value@ == to_address@,
{
    let mut messages: Vec<OutMsg> = Vec::new();
    let mut attributes: Vec<Attribute> = Vec::new();
    attributes.push(Attribute { key: "action".to_owned(), value: action.to_owned() });
    attributes.push(Attribute { key: "to".to_owned(), value: to_address.clone() });
    messages.push(OutMsg::Send(SendMsg { to_address, amount }));
    Response { messages, attributes }
}

} // verus!
