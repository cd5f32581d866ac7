//! Instructions for SNIP-20 token contracts, built by the `snip20` package
//! of `secret-toolkit`.
use vstd::prelude::*;
use secret_cosmwasm_std::{
    CosmosMsg as HostMsg, HumanAddr as HostAddr, StdError, Uint128, WasmMsg as HostWasmMsg,
};
use secret_toolkit::snip20 as toolkit;
use crate::chain::{CosmosMsg, HumanAddr, MsgBody, WasmMsg};
use crate::errors::ContractError;
use crate::types::SecretContract;

verus! {

/// The error type of `secret-cosmwasm-std`; nothing is read from it.
#[verifier::external_type_specification]
#[verifier::external_body]
pub struct ExStdError(StdError);

/// The body of the SNIP-20 transfer of `amount` to `recipient`, padded to
/// `block_size`, as `secret_toolkit::snip20::transfer_msg` encodes it without
/// memo or padding text; `None` where the encoding fails.
pub uninterp spec fn snip20_transfer_body(recipient: Seq<char>, amount: u128, block_size: usize)
    -> Option<Seq<u8>>;

/// The body of the SNIP-20 request that registers `code_hash` as the receiver
/// of transfers, as `secret_toolkit::snip20::register_receive_msg` encodes it;
/// `None` where the encoding fails.
pub uninterp spec fn snip20_register_receive_body(code_hash: Seq<char>, block_size: usize)
    -> Option<Seq<u8>>;

/// The body of the SNIP-20 request that sets the caller's viewing key, as
/// `secret_toolkit::snip20::set_viewing_key_msg` encodes it; `None` where the
/// encoding fails.
pub uninterp spec fn snip20_set_viewing_key_body(key: Seq<char>, block_size: usize) -> Option<
    Seq<u8>,
>;

/// `msg` calls the contract `to` with the encoded body `body`.
pub open spec fn is_encoded_call(msg: CosmosMsg, to: SecretContract, body: Seq<u8>) -> bool {
    msg matches CosmosMsg::Wasm(
        WasmMsg::Execute { contract_addr, callback_code_hash, msg: MsgBody::Encoded(bytes) },
    ) && contract_addr == to.address && callback_code_hash == to.contract_hash && bytes@ == body
}

/// What a SNIP-20 builder returns for the token `token` when the body it
/// encodes is `body`: on success a call of `token` with that body.
pub open spec fn built_as(
    res: Result<CosmosMsg, StdError>,
    token: SecretContract,
    body: Option<Seq<u8>>,
) -> bool {
    match res {
        Ok(msg) => body is Some && is_encoded_call(msg, token, body->Some_0),
        Err(_) => body is None,
    }
}

/// Calls `secret_toolkit::snip20::transfer_msg` with no memo and no padding
/// text. The function encodes the transfer, pads it to `block_size` and wraps
/// it in a call of the token contract, whose address and code hash it passes
/// on unchanged; it fails only where the encoding fails.
#[verifier::external_body]
pub(crate) fn transfer_msg(
    recipient: &HumanAddr,
    amount: u128,
    block_size: usize,
    token: &SecretContract,
) -> (res: Result<CosmosMsg, StdError>)
    ensures
        built_as(res, *token, snip20_transfer_body(recipient@, amount, block_size)),
{
    let to = HostAddr(recipient.0.clone());
    let at = HostAddr(token.address.0.clone());
    let hash = token.contract_hash.clone();
    match toolkit::transfer_msg(to, Uint128(amount), None, None, block_size, hash, at)? {
        HostMsg::Wasm(HostWasmMsg::Execute { contract_addr, callback_code_hash, msg, .. }) => Ok(
            CosmosMsg::Wasm(
                WasmMsg::Execute {
                    contract_addr: HumanAddr(contract_addr.0),
                    callback_code_hash,
                    msg: MsgBody::Encoded(msg.0),
                },
            ),
        ),
        _ => Err(StdError::generic_err("not a contract call")),
    }
}

/// Calls `secret_toolkit::snip20::register_receive_msg` with no padding text.
/// The function encodes the request, pads it to `block_size` and wraps it in
/// a call of the token contract, whose address and code hash it passes on
/// unchanged; it fails only where the encoding fails.
#[verifier::external_body]
pub(crate) fn register_receive_msg(
    your_contracts_code_hash: &String,
    block_size: usize,
    token: &SecretContract,
) -> (res: Result<CosmosMsg, StdError>)
    ensures
        built_as(
            res,
            *token,
            snip20_register_receive_body(your_contracts_code_hash@, block_size),
        ),
{
    let own = your_contracts_code_hash.clone();
    let at = HostAddr(token.address.0.clone());
    let hash = token.contract_hash.clone();
    match toolkit::register_receive_msg(own, None, block_size, hash, at)? {
        HostMsg::Wasm(HostWasmMsg::Execute { contract_addr, callback_code_hash, msg, .. }) => Ok(
            CosmosMsg::Wasm(
                WasmMsg::Execute {
                    contract_addr: HumanAddr(contract_addr.0),
                    callback_code_hash,
                    msg: MsgBody::Encoded(msg.0),
                },
            ),
        ),
        _ => Err(StdError::generic_err("not a contract call")),
    }
}

/// Calls `secret_toolkit::snip20::set_viewing_key_msg` with no padding text.
/// The function encodes the request, pads it to `block_size` and wraps it in
/// a call of the token contract, whose address and code hash it passes on
/// unchanged; it fails only where the encoding fails.
#[verifier::external_body]
pub(crate) fn set_viewing_key_msg(key: &String, block_size: usize, token: &SecretContract) -> (res:
    Result<CosmosMsg, StdError>)
    ensures
        built_as(res, *token, snip20_set_viewing_key_body(key@, block_size)),
{
    let key = key.clone();
    let at = HostAddr(token.address.0.clone());
    let hash = token.contract_hash.clone();
    match toolkit::set_viewing_key_msg(key, None, block_size, hash, at)? {
        HostMsg::Wasm(HostWasmMsg::Execute { contract_addr, callback_code_hash, msg, .. }) => Ok(
            CosmosMsg::Wasm(
                WasmMsg::Execute {
                    contract_addr: HumanAddr(contract_addr.0),
                    callback_code_hash,
                    msg: MsgBody::Encoded(msg.0),
                },
            ),
        ),
        _ => Err(StdError::generic_err("not a contract call")),
    }
}

/// The instruction that transfers `amount` of `token` to `recipient`.
pub fn transfer_instruction(
    recipient: &HumanAddr,
    amount: u128,
    block_size: usize,
    token: &SecretContract,
) -> (res: Result<CosmosMsg, ContractError>)
    ensures
        match res {
            Ok(msg) => snip20_transfer_body(recipient@, amount, block_size) is Some
                && is_encoded_call(
                msg,
                *token,
                snip20_transfer_body(recipient@, amount, block_size)->Some_0,
            ),
            Err(e) => e == ContractError::Encoding && snip20_transfer_body(
                recipient@,
                amount,
                block_size,
            ) is None,
        },
{
    match transfer_msg(recipient, amount, block_size, token) {
        Ok(msg) => Ok(msg),
        Err(_) => Err(ContractError::Encoding),
    }
}

} // verus!
