use vstd::prelude::*;

use crate::error::{is_std_msg, ContractError, StdErr};
use crate::execute::{
    borrow_from_pool, borrow_from_pool_post, borrow_from_pool_req, earn_tokens_into_pool,
    earn_tokens_into_pool_post, earn_tokens_into_pool_req, execute_escrow, execute_escrow_post,
    execute_escrow_req, execute_redeem, execute_redeem_post, lend_to_pool, lend_to_pool_post,
    lend_to_pool_req, std_not_found, withdraw_from_pool_for_earn,
    withdraw_from_pool_for_earn_post,
};
use crate::msg::{
    Cw20HookMsg, Env, Envelope, ExecuteMsg, InstantiateMsg, MessageInfo, QueryAnswer, QueryMsg,
};
use crate::query::{
    err_view, query_borrow_to_pool, query_escrow, query_lend_to_pool, query_pool, spec_query,
};
use crate::response::{is_single_action, Attribute, Response};
use crate::state::{Config, ContractVersion, State, Store};

verus! {

/// The caller of a value-bearing request is the configured token contract.
pub open spec fn gate_passes(config: Option<Config>, info: MessageInfo) -> bool {
    config matches Some(c) && c.token@ == info.sender@
}

/// How a value-bearing request from anyone else is turned away: without a
/// configuration the store reports the missing record, otherwise the
/// caller is unauthorized.
pub open spec fn gate_rejected(config: Option<Config>, info: MessageInfo, e: ContractError) -> bool {
    match config {
        None => is_std_msg(e, "Config not found"@),
        Some(c) => c.token@ != info.sender@ && e == (ContractError::Unauthorized {  }),
    }
}

/// Confirms that the caller is the configured token contract.
fn token_gate(config: &Option<Config>, info: &MessageInfo) -> (r: Result<(), ContractError>)
    ensures
        r is Ok <==> gate_passes(*config, *info),
        r matches Err(e) ==> gate_rejected(*config, *info, e),
{
    match config {
        None => Err(std_not_found("Config not found")),
        Some(c) => {
            if c.token == info.sender {
                Ok(())
            } else {
                Err(ContractError::Unauthorized {  })
            }
        },
    }
}

/// What instantiation does: stamps the contract's name and version into
/// the store and reports the method and the instance's owner. Every other
/// slot keeps its value.
pub open spec fn instantiate_post(
    old_s: Store,
    new_s: Store,
    info: MessageInfo,
    r: Result<Response, ContractError>,
) -> bool {
    &&& new_s.contract_version matches Some(cv) && cv.contract@ == "Temporal AMM Contracts"@
        && cv.version@ == "0.1.0"@
    &&& new_s == (Store { contract_version: new_s.contract_version, ..old_s })
    &&& r matches Ok(resp) && {
        &&& resp.messages@.len() == 0
        &&& resp.attributes@.len() == 2
        &&& resp.attributes@[0].key@ == "method"@
        &&& resp.attributes@[0].value@ == "instantiate"@
        &&& resp.attributes@[1].key@ == "owner"@
        &&& resp.attributes@[1].value@ == info.sender@
    }
}

/// Sets the instance up: records the version stamp and answers with the
/// method and owner on the receipt.
pub fn instantiate(store: &mut Store, env: Env, info: MessageInfo, msg: InstantiateMsg) -> (r:
    Result<Response, ContractError>)
    ensures
        instantiate_post(*old(store), *final(store), info, r),
{
    match crate::set_contract_version(
        store,
        "Temporal AMM Contracts".to_owned(),
        "0.1.0".to_owned(),
    ) {
        Ok(()) => (),
        Err(e) => {
            return Err(ContractError::Std(e));
        },
    }
    let mut attributes: Vec<Attribute> = Vec::new();
    attributes.push(Attribute { key: "method".to_owned(), value: "instantiate".to_owned() });
    attributes.push(Attribute { key: "owner".to_owned(), value: info.sender });
    Ok(Response { messages: Vec::new(), attributes })
}

/// What `increment` does: steps the counter record by one; without a
/// counter record the store reports it missing.
pub open spec fn increment_post(
    old_s: Store,
    new_s: Store,
    r: Result<Response, ContractError>,
) -> bool {
    match old_s.state {
        None => new_s == old_s && (r matches Err(e) && is_std_msg(e, "State not found"@)),
        Some(st) => {
            &&& new_s == (Store {
                state: Some(State { count: (st.count + 1) as i32, owner: st.owner }),
                ..old_s
            })
            &&& r matches Ok(resp) && is_single_action(resp, "increment"@)
        },
    }
}

/// Steps the stored counter by one.
pub fn increment(store: &mut Store) -> (r: Result<Response, ContractError>)
    requires
        old(store).state matches Some(st) ==> st.count < i32::MAX,
    ensures
        increment_post(*old(store), *final(store), r),
{
    let (count, owner): (i32, String) = match &store.state {
        None => {
            return Err(std_not_found("State not found"));
        },
        Some(st) => (st.count, st.owner.clone()),
    };
    store.state = Some(State { count: count + 1, owner });
    Ok(crate::response::action_response("increment"))
}

/// What `reset` does: the stored owner may set the counter to any value;
/// anyone else is unauthorized, and without a counter record the store
/// reports it missing.
pub open spec fn reset_post(
    old_s: Store,
    new_s: Store,
    info: MessageInfo,
    count: i32,
    r: Result<Response, ContractError>,
) -> bool {
    match old_s.state {
        None => new_s == old_s && (r matches Err(e) && is_std_msg(e, "State not found"@)),
        Some(st) => if st.owner@ != info.sender@ {
            new_s == old_s && r == Err::<Response, ContractError>(ContractError::Unauthorized {  })
        } else {
            &&& new_s == (Store { state: Some(State { count, owner: st.owner }), ..old_s })
            &&& r matches Ok(resp) && is_single_action(resp, "reset"@)
        },
    }
}

/// Sets the stored counter, for the stored owner alone.
pub fn reset(store: &mut Store, info: MessageInfo, count: i32) -> (r: Result<
    Response,
    ContractError,
>)
    ensures
        reset_post(*old(store), *final(store), info, count, r),
{
    let owner: String = match &store.state {
        None => {
            return Err(std_not_found("State not found"));
        },
        Some(st) => st.owner.clone(),
    };
    if !(owner == info.sender) {
        return Err(ContractError::Unauthorized {  });
    }
    store.state = Some(State { count, owner });
    Ok(crate::response::action_response("reset"))
}

/// Credits the pool from a plain lending call, exactly as `lend_to_pool`
/// does from a token notification.
#[allow(non_snake_case)]
pub fn lend_to_poolV2(
    store: &mut Store,
    env: Env,
    lender: String,
    amount: u128,
    duration: u64,
) -> (r: Result<Response, ContractError>)
    requires
        lend_to_pool_req(*old(store), env, amount, duration),
    ensures
        lend_to_pool_post(*old(store), *final(store), env, lender, amount, duration, r),
{
    lend_to_pool(store, env, lender, amount, duration)
}

/// What routing a deposit notification into the escrow engine does: the
/// caller's identity is confirmed first, then the embedded payload is
/// looked at — a payload the adapter could not decode aborts with the
/// decoder's error — and the escrow engine answers for the notification's
/// sender.
pub open spec fn receive_cw20_post(
    old_s: Store,
    new_s: Store,
    env: Env,
    info: MessageInfo,
    cw20_msg: Envelope,
    r: Result<Response, ContractError>,
) -> bool {
    if gate_passes(old_s.config, info) {
        match cw20_msg.msg {
            Ok(Cw20HookMsg::Escrow { time }) => execute_escrow_post(
                old_s,
                new_s,
                env,
                cw20_msg.sender,
                info.sender,
                cw20_msg.amount,
                time,
                r,
            ),
            Err(de) => new_s == old_s && r == Err::<Response, ContractError>(
                ContractError::Std(de),
            ),
        }
    } else {
        new_s == old_s && (r matches Err(e) && gate_rejected(old_s.config, info, e))
    }
}

/// Unwraps a deposit notification and time-locks the deposit.
pub fn receive_cw20(store: &mut Store, env: Env, info: MessageInfo, cw20_msg: Envelope) -> (r:
    Result<Response, ContractError>)
    requires
        cw20_msg.msg matches Ok(Cw20HookMsg::Escrow { time }) ==> (gate_passes(
            old(store).config,
            info,
        ) ==> execute_escrow_req(*old(store), env, info.sender, cw20_msg.amount, time)),
    ensures
        receive_cw20_post(*old(store), *final(store), env, info, cw20_msg, r),
{
    match token_gate(&store.config, &info) {
        Err(e) => {
            return Err(e);
        },
        Ok(()) => (),
    }
    let Envelope { sender, amount, msg } = cw20_msg;
    match msg {
        Ok(Cw20HookMsg::Escrow { time }) => execute_escrow(
            store,
            env,
            sender,
            info.sender,
            amount,
            time,
        ),
        Err(err) => Err(ContractError::Std(err)),
    }
}

/// What routing a deposit notification into the lending engine does: a
/// caller other than the configured token is turned away first; then a
/// payload the adapter could not decode aborts with the decoder's error;
/// else the lending engine answers for the notification's sender.
pub open spec fn receive_cw20_to_pool_post(
    old_s: Store,
    new_s: Store,
    env: Env,
    info: MessageInfo,
    msg: Envelope,
    r: Result<Response, ContractError>,
) -> bool {
    if gate_passes(old_s.config, info) {
        match msg.msg {
            Ok(Cw20HookMsg::Escrow { time }) => lend_to_pool_post(
                old_s,
                new_s,
                env,
                msg.sender,
                msg.amount,
                time,
                r,
            ),
            Err(de) => new_s == old_s && r == Err::<Response, ContractError>(
                ContractError::Std(de),
            ),
        }
    } else {
        new_s == old_s && (r matches Err(e) && gate_rejected(old_s.config, info, e))
    }
}

/// Unwraps a deposit notification and lends the deposit into the pool.
pub fn receive_cw20_to_pool(store: &mut Store, env: Env, info: MessageInfo, msg: Envelope) -> (r:
    Result<Response, ContractError>)
    requires
        msg.msg matches Ok(Cw20HookMsg::Escrow { time }) ==> (gate_passes(
            old(store).config,
            info,
        ) ==> lend_to_pool_req(*old(store), env, msg.amount, time)),
    ensures
        receive_cw20_to_pool_post(*old(store), *final(store), env, info, msg, r),
{
    match token_gate(&store.config, &info) {
        Err(e) => {
            return Err(e);
        },
        Ok(()) => (),
    }
    let Envelope { sender, amount, msg: hook } = msg;
    match hook {
        Ok(Cw20HookMsg::Escrow { time }) => lend_to_pool(store, env, sender, amount, time),
        Err(err) => Err(ContractError::Std(err)),
    }
}

/// What routing a borrow request does: foreign callers, then decode
/// errors, abort as for lending; else the borrowing engine answers for
/// the request's sender.
pub open spec fn borrow_cw20_from_pool_post(
    old_s: Store,
    new_s: Store,
    env: Env,
    info: MessageInfo,
    cw20_msg: Envelope,
    r: Result<Response, ContractError>,
) -> bool {
    if gate_passes(old_s.config, info) {
        match cw20_msg.msg {
            Ok(Cw20HookMsg::Escrow { time }) => borrow_from_pool_post(
                old_s,
                new_s,
                env,
                cw20_msg.sender,
                cw20_msg.amount,
                time,
                r,
            ),
            Err(de) => new_s == old_s && r == Err::<Response, ContractError>(
                ContractError::Std(de),
            ),
        }
    } else {
        new_s == old_s && (r matches Err(e) && gate_rejected(old_s.config, info, e))
    }
}

/// Unwraps a borrow request and debits the pool for its sender.
pub fn borrow_cw20_from_pool(
    store: &mut Store,
    env: Env,
    info: MessageInfo,
    cw20_msg: Envelope,
) -> (r: Result<Response, ContractError>)
    requires
        cw20_msg.msg matches Ok(Cw20HookMsg::Escrow { time }) ==> (gate_passes(
            old(store).config,
            info,
        ) ==> borrow_from_pool_req(*old(store), env, cw20_msg.amount, time)),
    ensures
        borrow_cw20_from_pool_post(*old(store), *final(store), env, info, cw20_msg, r),
{
    match token_gate(&store.config, &info) {
        Err(e) => {
            return Err(e);
        },
        Ok(()) => (),
    }
    let Envelope { sender, amount, msg: hook } = cw20_msg;
    match hook {
        Ok(Cw20HookMsg::Escrow { time }) => borrow_from_pool(store, env, sender, amount, time),
        Err(err) => Err(ContractError::Std(err)),
    }
}

/// What routing an earn deposit does: foreign callers, then decode
/// errors, abort as for lending; else the earn engine answers for the
/// deposit's sender. The embedded time is ignored.
pub open spec fn earn_to_pool_post(
    old_s: Store,
    new_s: Store,
    env: Env,
    info: MessageInfo,
    cw20_msg: Envelope,
    r: Result<Response, ContractError>,
) -> bool {
    if gate_passes(old_s.config, info) {
        match cw20_msg.msg {
            Ok(Cw20HookMsg::Escrow { .. }) => earn_tokens_into_pool_post(
                old_s,
                new_s,
                env,
                cw20_msg.sender,
                cw20_msg.amount,
                r,
            ),
            Err(de) => new_s == old_s && r == Err::<Response, ContractError>(
                ContractError::Std(de),
            ),
        }
    } else {
        new_s == old_s && (r matches Err(e) && gate_rejected(old_s.config, info, e))
    }
}

/// Unwraps a deposit notification and adds it to the earn position.
pub fn earn_to_pool(store: &mut Store, env: Env, info: MessageInfo, cw20_msg: Envelope) -> (r:
    Result<Response, ContractError>)
    requires
        (cw20_msg.msg is Ok && gate_passes(old(store).config, info))
            ==> earn_tokens_into_pool_req(*old(store), cw20_msg.amount),
    ensures
        earn_to_pool_post(*old(store), *final(store), env, info, cw20_msg, r),
{
    match token_gate(&store.config, &info) {
        Err(e) => {
            return Err(e);
        },
        Ok(()) => (),
    }
    let Envelope { sender, amount, msg: hook } = cw20_msg;
    match hook {
        Ok(Cw20HookMsg::Escrow { .. }) => earn_tokens_into_pool(store, env, sender, amount),
        Err(err) => Err(ContractError::Std(err)),
    }
}

/// What routing an earn withdrawal does: foreign callers, then decode
/// errors, abort as for lending; else the earn engine pays the position
/// out to the request's sender. The embedded time is ignored.
pub open spec fn withdraw_for_earn_post(
    old_s: Store,
    new_s: Store,
    info: MessageInfo,
    cw20_msg: Envelope,
    r: Result<Response, ContractError>,
) -> bool {
    if gate_passes(old_s.config, info) {
        match cw20_msg.msg {
            Ok(Cw20HookMsg::Escrow { .. }) => withdraw_from_pool_for_earn_post(
                old_s,
                new_s,
                cw20_msg.sender,
                r,
            ),
            Err(de) => new_s == old_s && r == Err::<Response, ContractError>(
                ContractError::Std(de),
            ),
        }
    } else {
        new_s == old_s && (r matches Err(e) && gate_rejected(old_s.config, info, e))
    }
}

/// Unwraps an earn-withdrawal request and pays the position out.
pub fn withdraw_for_earn(store: &mut Store, env: Env, info: MessageInfo, cw20_msg: Envelope) -> (r:
    Result<Response, ContractError>)
    ensures
        withdraw_for_earn_post(*old(store), *final(store), info, cw20_msg, r),
{
    match token_gate(&store.config, &info) {
        Err(e) => {
            return Err(e);
        },
        Ok(()) => (),
    }
    let Envelope { sender, amount: _, msg: hook } = cw20_msg;
    match hook {
        Ok(Cw20HookMsg::Escrow { .. }) => withdraw_from_pool_for_earn(store, env, sender),
        Err(err) => Err(ContractError::Std(err)),
    }
}

/// What every request needs of its inputs before it is routed: each
/// engine's arithmetic stays in range on the paths that reach it.
pub open spec fn execute_req(s: Store, env: Env, info: MessageInfo, msg: ExecuteMsg) -> bool {
    match msg {
        ExecuteMsg::Increment {  } => s.state matches Some(st) ==> st.count < i32::MAX,
        ExecuteMsg::Reset { .. } => true,
        ExecuteMsg::ReceiveForCollateral(envlp) => envlp.msg matches Ok(
            Cw20HookMsg::Escrow { time },
        ) ==> (gate_passes(s.config, info) ==> execute_escrow_req(
            s,
            env,
            info.sender,
            envlp.amount,
            time,
        )),
        ExecuteMsg::RedeemForCollateral {  } => true,
        ExecuteMsg::BorrowFromPool(envlp) => envlp.msg matches Ok(Cw20HookMsg::Escrow { time })
            ==> (gate_passes(s.config, info) ==> borrow_from_pool_req(s, env, envlp.amount, time)),
        ExecuteMsg::LendToPool(envlp) => envlp.msg matches Ok(Cw20HookMsg::Escrow { time })
            ==> (gate_passes(s.config, info) ==> lend_to_pool_req(s, env, envlp.amount, time)),
        ExecuteMsg::EarnToPool(envlp) => (envlp.msg is Ok && gate_passes(s.config, info))
            ==> earn_tokens_into_pool_req(s, envlp.amount),
        ExecuteMsg::WithdrawForEarn(_) => true,
        ExecuteMsg::LendToPoolV2 { lender, amount, duration } => lend_to_pool_req(
            s,
            env,
            amount,
            duration,
        ),
    }
}

/// What the dispatcher does for each request: exactly what the routed
/// engine's contract says for the request's own arguments.
pub open spec fn execute_post(
    old_s: Store,
    new_s: Store,
    env: Env,
    info: MessageInfo,
    msg: ExecuteMsg,
    r: Result<Response, ContractError>,
) -> bool {
    match msg {
        ExecuteMsg::Increment {  } => increment_post(old_s, new_s, r),
        ExecuteMsg::Reset { count } => reset_post(old_s, new_s, info, count, r),
        ExecuteMsg::ReceiveForCollateral(envlp) => receive_cw20_post(
            old_s,
            new_s,
            env,
            info,
            envlp,
            r,
        ),
        ExecuteMsg::RedeemForCollateral {  } => execute_redeem_post(
            old_s,
            new_s,
            env,
            info.sender,
            r,
        ),
        ExecuteMsg::BorrowFromPool(envlp) => borrow_cw20_from_pool_post(
            old_s,
            new_s,
            env,
            info,
            envlp,
            r,
        ),
        ExecuteMsg::LendToPool(envlp) => receive_cw20_to_pool_post(
            old_s,
            new_s,
            env,
            info,
            envlp,
            r,
        ),
        ExecuteMsg::EarnToPool(envlp) => earn_to_pool_post(old_s, new_s, env, info, envlp, r),
        ExecuteMsg::WithdrawForEarn(envlp) => withdraw_for_earn_post(old_s, new_s, info, envlp, r),
        ExecuteMsg::LendToPoolV2 { lender, amount, duration } => lend_to_pool_post(
            old_s,
            new_s,
            env,
            lender,
            amount,
            duration,
            r,
        ),
    }
}

/// Routes an inbound request to its engine. Every success carries exactly
/// one `action` audit attribute.
pub fn execute(store: &mut Store, env: Env, info: MessageInfo, msg: ExecuteMsg) -> (r: Result<
    Response,
    ContractError,
>)
    requires
        execute_req(*old(store), env, info, msg),
    ensures
        execute_post(*old(store), *final(store), env, info, msg, r),
        r matches Ok(resp) ==> resp.attributes@.len() == 1 && resp.attributes@[0].key@
            == "action"@,
{
    match msg {
        ExecuteMsg::ReceiveForCollateral(envlp) => receive_cw20(store, env, info, envlp),
        ExecuteMsg::RedeemForCollateral {  } => execute_redeem(store, env, info.sender),
        ExecuteMsg::LendToPool(envlp) => receive_cw20_to_pool(store, env, info, envlp),
        ExecuteMsg::BorrowFromPool(envlp) => borrow_cw20_from_pool(store, env, info, envlp),
        ExecuteMsg::EarnToPool(envlp) => earn_to_pool(store, env, info, envlp),
        ExecuteMsg::WithdrawForEarn(envlp) => withdraw_for_earn(store, env, info, envlp),
        ExecuteMsg::Increment {  } => increment(store),
        ExecuteMsg::Reset { count } => reset(store, info, count),
        ExecuteMsg::LendToPoolV2 { lender, amount, duration } => lend_to_poolV2(
            store,
            env,
            lender,
            amount,
            duration,
        ),
    }
}

/// Answers a read-only request from the store alone.
pub fn query(store: &Store, msg: QueryMsg) -> (r: Result<QueryAnswer, StdErr>)
    ensures
        err_view(r) == spec_query(*store, msg),
{
    match msg {
        QueryMsg::Escrow { address } => match query_escrow(store, address) {
            Ok(a) => Ok(QueryAnswer::Escrow(a)),
            Err(e) => Err(e),
        },
        QueryMsg::LendToPool { address } => match query_lend_to_pool(store, address) {
            Ok(a) => Ok(QueryAnswer::Lender(a)),
            Err(e) => Err(e),
        },
        QueryMsg::BorrowFromPool { address } => match query_borrow_to_pool(store, address) {
            Ok(a) => Ok(QueryAnswer::Borrower(a)),
            Err(e) => Err(e),
        },
        QueryMsg::Pool {  } => match query_pool(store) {
            Ok(a) => Ok(QueryAnswer::Pool(a)),
            Err(e) => Err(e),
        },
    }
}

} // verus!
