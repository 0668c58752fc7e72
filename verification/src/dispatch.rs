//! The transfer dispatcher: turns an amount and a recipient into the
//! instruction that moves the value, and handles the host's report when such
//! an instruction fails.
use crate::amount::{Amount, AmountView, Coin, CoinView};
use crate::error::{ContractError, ContractErrorView};
use crate::host::{
    verdict_view, views, AddrCheck, CosmosMsg, CosmosMsgView, Reply, ReplyOn, Response,
    ResponseView, SubMsg, SubMsgView,
};
use crate::packet::{ack_fail, Ics20AckView};
use crate::state::AllowInfo;
use crate::table::Table;
use vstd::prelude::*;
use vstd::string::*;

verus! {

/// The identifier under which every transfer instruction asks for a report.
pub const SEND_TOKEN_ID: u64 = 1337;

/// `cosmwasm_std::StdError`, the error that the calls into the host library
/// return. Its values are opaque here.
#[verifier::external_type_specification]
#[verifier::external_body]
pub struct ExStdError(cosmwasm_std::StdError);

/// What `cosmwasm_std::to_json_binary` makes of the `transfer` message of a
/// cw20 token contract, `cw20::Cw20ExecuteMsg::Transfer`, for `recipient` and
/// `amount`: the JSON text, or `None` where the encoder refuses.
pub uninterp spec fn cw20_transfer_json(recipient: Seq<char>, amount: u128) -> Option<Seq<u8>>;

/// Calls `cosmwasm_std::to_json_binary` on a `cw20::Cw20ExecuteMsg::Transfer`
/// with the given recipient and amount. The contract claims only that the
/// outcome, the bytes or the refusal, is a function of the two arguments;
/// of the error it claims nothing.
#[verifier::external_body]
fn encode_cw20_transfer(recipient: &String, amount: u128) -> (res: Result<
    Vec<u8>,
    cosmwasm_std::StdError,
>)
    ensures
        match res {
            Ok(bytes) => cw20_transfer_json(recipient@, amount) == Some(bytes@),
            Err(_) => cw20_transfer_json(recipient@, amount) is None,
        },
{
    let msg = cw20::Cw20ExecuteMsg::Transfer {
        recipient: recipient.clone(),
        amount: cosmwasm_std::Uint128::new(amount),
    };
    match cosmwasm_std::to_json_binary(&msg) {
        Ok(binary) => Ok(binary.0),
        Err(e) => Err(e),
    }
}

/// Calls `to_string` on a `cosmwasm_std::StdError`. Nothing is claimed of the
/// text.
#[verifier::external_body]
fn std_error_text(err: &cosmwasm_std::StdError) -> (text: String) {
    err.to_string()
}

/// The instruction that moves native coins to `recipient`.
pub open spec fn bank_send(coin: CoinView, recipient: Seq<char>) -> SubMsgView {
    SubMsgView {
        id: SEND_TOKEN_ID,
        msg: CosmosMsgView::BankSend { to_address: recipient, amount: seq![coin] },
        gas_limit: None,
        reply_on: ReplyOn::Error,
    }
}

/// The instruction that calls the token contract at `contract_addr` with the
/// encoded message `msg`, with no coins attached.
pub open spec fn token_call(contract_addr: Seq<char>, msg: Seq<u8>, gas_limit: Option<u64>) -> SubMsgView {
    SubMsgView {
        id: SEND_TOKEN_ID,
        msg: CosmosMsgView::WasmExecute { contract_addr, msg, funds: seq![] },
        gas_limit,
        reply_on: ReplyOn::Error,
    }
}

/// The instruction that moves `amount` to `recipient`: a bank transfer for a
/// native amount; for a contract token a call of its `transfer` entry point,
/// with the gas ceiling attached. Either way the host reports back only if
/// the instruction fails. There is none where the call of a contract token
/// cannot be encoded.
pub open spec fn transfer_instruction(
    amount: AmountView,
    recipient: Seq<char>,
    gas_limit: Option<u64>,
) -> Option<SubMsgView> {
    match amount {
        AmountView::Native(coin) => Some(bank_send(coin, recipient)),
        AmountView::Cw20(coin) => match cw20_transfer_json(recipient, coin.amount) {
            Some(msg) => Some(token_call(coin.address, msg, gas_limit)),
            None => None,
        },
    }
}

/// Builds the instruction that moves native coins to `recipient`.
pub fn native_transfer(coin: Coin, recipient: String) -> (sub: SubMsg)
    ensures
        sub@ == bank_send(coin@, recipient@),
{
    let mut amount: Vec<Coin> = Vec::new();
    amount.push(coin);
    assert(views(amount@) =~= seq![coin@]);
    SubMsg {
        id: SEND_TOKEN_ID,
        msg: CosmosMsg::BankSend { to_address: recipient, amount },
        gas_limit: None,
        reply_on: ReplyOn::Error,
    }
}

/// Builds the instruction that calls the token contract at `contract_addr`
/// with the encoded message `msg`.
pub fn token_transfer(contract_addr: String, msg: Vec<u8>, gas_limit: Option<u64>) -> (sub: SubMsg)
    ensures
        sub@ == token_call(contract_addr@, msg@, gas_limit),
{
    let funds: Vec<Coin> = Vec::new();
    assert(views(funds@) =~= Seq::<CoinView>::empty());
    SubMsg {
        id: SEND_TOKEN_ID,
        msg: CosmosMsg::WasmExecute { contract_addr, msg, funds },
        gas_limit,
        reply_on: ReplyOn::Error,
    }
}

/// Builds the instruction that moves `amount` to `recipient`. A native
/// amount always gives one. For a contract token the call message has to be
/// encoded first; if the encoder refuses, its complaint is returned.
pub fn send_amount(amount: Amount, recipient: String, gas_limit: Option<u64>) -> (res: Result<
    SubMsg,
    ContractError,
>)
    ensures
        match transfer_instruction(amount@, recipient@, gas_limit) {
            Some(instruction) => res matches Ok(sub) && sub@ == instruction,
            None => res matches Err(e) && e is Std,
        },
{
    match amount {
        Amount::Native(coin) => Ok(native_transfer(coin, recipient)),
        Amount::Cw20(coin) => {
            match encode_cw20_transfer(&recipient, coin.amount) {
                Ok(msg) => Ok(token_transfer(coin.address, msg, gas_limit)),
                Err(e) => Err(ContractError::Std { msg: std_error_text(&e) }),
            }
        },
    }
}

/// The gas ceiling for moving `amount`: none for a native amount; for a
/// contract token, whose address the host has checked, the ceiling that the
/// allow list holds for it. A token that is not on the list is refused.
pub open spec fn gas_limit_for(
    allow_list: Map<Seq<char>, AllowInfo>,
    addr_check: Result<(), Seq<char>>,
    amount: AmountView,
) -> Result<Option<u64>, ContractErrorView> {
    match amount {
        AmountView::Native(_) => Ok(None),
        AmountView::Cw20(coin) => match addr_check {
            Err(reason) => Err(ContractErrorView::Std { msg: reason }),
            Ok(_) => if allow_list.contains_key(coin.address) {
                Ok(allow_list[coin.address].gas_limit)
            } else {
                Err(ContractErrorView::NotOnAllowList)
            },
        },
    }
}

/// The contract token address that `amount` names, which the host has to
/// check before the amount is moved.
pub open spec fn token_address(amount: AmountView) -> Option<Seq<char>> {
    match amount {
        AmountView::Native(_) => None,
        AmountView::Cw20(coin) => Some(coin.address),
    }
}

/// Looks up the gas ceiling for moving `amount`. `addr_check` is the host's
/// verdict on the token contract's address; it is read only for a contract
/// token.
pub fn check_gas_limit(allow_list: &Table<String, AllowInfo>, addr_check: &AddrCheck, amount: &Amount) -> (res:
    Result<Option<u64>, ContractError>)
    ensures
        match gas_limit_for(allow_list@, verdict_view(*addr_check), amount@) {
            Ok(limit) => res == Ok::<Option<u64>, ContractError>(limit),
            Err(e) => res matches Err(x) && x@ == e,
        },
{
    match amount {
        Amount::Cw20(coin) => {
            match addr_check {
                Err(reason) => Err(ContractError::Std { msg: reason.clone() }),
                Ok(_) => match allow_list.get(&coin.address) {
                    Some(info) => Ok(info.gas_limit),
                    None => Err(ContractError::NotOnAllowList),
                },
            }
        },
        Amount::Native(_) => Ok(None),
    }
}

/// What becomes of the host's report on an instruction. A report under
/// another identifier than the one handed out is refused. A failed
/// instruction turns the pending acknowledgement into a failure that carries
/// the host's description; a successful one leaves it alone.
pub open spec fn reply_outcome(id: u64, result: Result<(), Seq<char>>) -> Result<
    ResponseView,
    ContractErrorView,
> {
    if id != SEND_TOKEN_ID {
        Err(ContractErrorView::UnknownCallbackId { id })
    } else {
        match result {
            Ok(_) => Ok(ResponseView { data: None }),
            Err(reason) => Ok(ResponseView { data: Some(Ics20AckView::Error(reason)) }),
        }
    }
}

/// Handles the host's report on an instruction.
pub fn reply(report: Reply) -> (res: Result<Response, ContractError>)
    ensures
        match reply_outcome(report.id, verdict_view(report.result)) {
            Ok(response) => res matches Ok(r) && r@ == response,
            Err(e) => res matches Err(x) && x@ == e,
        },
{
    if report.id != SEND_TOKEN_ID {
        return Err(ContractError::UnknownCallbackId { id: report.id });
    }
    let response = match report.result {
        Ok(_) => Response { data: None },
        Err(err) => Response { data: Some(ack_fail(err)) },
    };
    Ok(response)
}

} // verus!
