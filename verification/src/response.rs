use vstd::prelude::*;

use crate::error::StdErr;
use crate::state::Coin;

verus! {

/// One audit attribute of a transaction receipt.
#[derive(Clone, Debug, PartialEq, Eq)]
pub struct Attribute {
    pub key: String,
    pub value: String,
}

/// An outbound token-transfer instruction: the token contract to call, who
/// receives, how much, and the encoded call the host forwards verbatim.
#[derive(Clone, Debug, PartialEq, Eq)]
pub struct TransferMsg {
    pub token: String,
    pub recipient: String,
    pub amount: u128,
    pub payload: Vec<u8>,
}

/// An outbound native-coin send.
#[derive(Clone, Debug, PartialEq, Eq)]
pub struct SendMsg {
    pub to_address: String,
    pub amount: Vec<Coin>,
}

/// A value movement the host executes after the transaction commits.
#[derive(Clone, Debug, PartialEq, Eq)]
pub enum OutMsg {
    Transfer(TransferMsg),
    Send(SendMsg),
}

/// What a successful request hands back to the host: the value movements to
/// execute and the audit attributes of the receipt.
#[derive(Clone, Debug, PartialEq, Eq)]
pub struct Response {
    pub messages: Vec<OutMsg>,
    pub attributes: Vec<Attribute>,
}

/// The response carries no value movement and exactly one `action`
/// attribute with the given literal.
pub open spec fn is_single_action(r: Response, action: Seq<char>) -> bool {
    &&& r.messages@.len() == 0
    &&& r.attributes@.len() == 1
    &&& r.attributes@[0].key@ == "action"@
    &&& r.attributes@[0].value@ == action
}

/// The response carries exactly one transfer of `amount` tokens of `token`
/// to `recipient`, and exactly one `action` attribute.
pub open spec fn is_transfer_response(
    r: Response,
    token: Seq<char>,
    recipient: Seq<char>,
    amount: u128,
    action: Seq<char>,
) -> bool {
    &&& r.messages@.len() == 1
    &&& (r.messages@[0] matches OutMsg::Transfer(t) ==> {
        &&& t.token@ == token
        &&& t.recipient@ == recipient
        &&& t.amount == amount
        &&& t.payload@ == cw20_transfer_payload(recipient, amount)
    })
    &&& r.messages@[0] is Transfer
    &&& r.attributes@.len() == 1
    &&& r.attributes@[0].key@ == "action"@
    &&& r.attributes@[0].value@ == action
}

/// A response with no message and one `action` attribute.
pub fn action_response(action: &str) -> (r: Response)
    ensures
        is_single_action(r, action@),
{
    let mut attributes: Vec<Attribute> = Vec::new();
    attributes.push(Attribute { key: "action".to_owned(), value: action.to_owned() });
    Response { messages: Vec::new(), attributes }
}

/// The JSON bytes of the token contract's transfer call, as the token
/// standard's encoder writes them for a given recipient and amount.
pub uninterp spec fn cw20_transfer_payload(recipient: Seq<char>, amount: u128) -> Seq<u8>;

/// Relies on cosmwasm_std::to_json_binary over cw20::Cw20ExecuteMsg::Transfer:
/// the serializer writes JSON bytes that depend on the recipient and amount
/// alone. For this message shape — a string and a decimal-formatted
/// integer — its string, number and struct-variant paths write into a
/// growable buffer and return no error, so the call always succeeds.
#[verifier::external_body]
fn encode_cw20_transfer(recipient: &String, amount: u128) -> (r: Result<Vec<u8>, StdErr>)
    ensures
        r is Ok,
        r matches Ok(p) ==> p@ == cw20_transfer_payload(recipient@, amount),
{
    match cosmwasm_std::to_json_binary(
        &cw20::Cw20ExecuteMsg::Transfer {
            recipient: recipient.clone(),
            amount: cosmwasm_std::Uint128::new(amount),
        },
    ) {
        Ok(b) => Ok(b.to_vec()),
        Err(e) => Err(StdErr { msg: e.to_string() }),
    }
}

/// Wraps an already-encoded transfer payload into the response of a
/// successful value-moving request: one transfer instruction and one
/// `action` attribute.
pub fn build_transfer_response(
    token: &String,
    recipient: &String,
    amount: u128,
    payload: Vec<u8>,
    action: &str,
) -> (r: Response)
    ensures
        r.messages@.len() == 1,
        (r.messages@[0] matches OutMsg::Transfer(t) ==> {
            &&& t.token@ == token@
            &&& t.recipient@ == recipient@
            &&& t.amount == amount
            &&& t.payload@ == payload@
        }),
        r.messages@[0] is Transfer,
        r.attributes@.len() == 1,
        r.attributes@[0].key@ == "action"@,
        r.attributes@[0].value@ == action@,
{
    let mut messages: Vec<OutMsg> = Vec::new();
    messages.push(OutMsg::Transfer(TransferMsg {
        token: token.clone(),
        recipient: recipient.clone(),
        amount,
        payload,
    }));
    let mut attributes: Vec<Attribute> = Vec::new();
    attributes.push(Attribute { key: "action".to_owned(), value: action.to_owned() });
    Response { messages, attributes }
}

/// Encodes and emits one token transfer: the response of a successful
/// value-moving request.
pub fn transfer_response(
    token: &String,
    recipient: &String,
    amount: u128,
    action: &str,
) -> (r: Response)
    ensures
        is_transfer_response(r, token@, recipient@, amount, action@),
{
    let payload: Vec<u8> = match encode_cw20_transfer(recipient, amount) {
        Ok(p) => p,
        Err(_) => vstd::pervasive::unreached(),
    };
    build_transfer_response(token, recipient, amount, payload, action)
}

} // verus!
