//! Transfer endpoints: lamports through the system program and tokens
//! between associated token accounts.

use vstd::prelude::*;

use crate::codec::{base58_encoding, base64_encoding};
use crate::handlers::{create_error_response, instruction_to_response, is_error_outcome};
use crate::sdk::{
    associated_token_address, derive_associated_token_account, spl_token_program,
    system_program_address, system_transfer_instruction, token_program_address,
    token_transfer_instruction,
};
use crate::types::{ApiResponse, InstructionResponse, SendSolRequest, SendTokenRequest};
use crate::utils::{
    amount_error_message, invalid_pubkey_message, parse_public_key, pubkey_bytes_of,
    valid_pubkey_string, validate_amount, validate_send_token_request,
};

verus! {

/// The inputs on which a lamport transfer succeeds: both addresses name
/// public keys and the amount is positive.
pub open spec fn send_sol_accepted(req: SendSolRequest) -> bool {
    &&& valid_pubkey_string(req.from@)
    &&& valid_pubkey_string(req.to@)
    &&& req.lamports != 0
}

/// The payload of a system transfer instruction: the little-endian
/// variant tag 2 followed by the lamports in little-endian order.
pub open spec fn system_transfer_data(lamports: u64) -> Seq<u8> {
    seq![2u8, 0u8, 0u8, 0u8] + vstd::bytes::spec_u64_to_le_bytes(lamports)
}

/// Create a lamport transfer instruction of the system program, from the
/// funding account (writable signer) to the recipient (writable).
pub fn send_sol(req: &SendSolRequest) -> (r: Result<
    ApiResponse<InstructionResponse>,
    (u16, ApiResponse<()>),
>)
    ensures
        r is Ok <==> send_sol_accepted(*req),
        !valid_pubkey_string(req.from@) ==> (r matches Err(e) && is_error_outcome(
            e,
            invalid_pubkey_message(req.from@),
        )),
        valid_pubkey_string(req.from@) && !valid_pubkey_string(req.to@) ==> (r matches Err(e)
            && is_error_outcome(e, invalid_pubkey_message(req.to@))),
        valid_pubkey_string(req.from@) && valid_pubkey_string(req.to@) && req.lamports == 0 ==> (
        r matches Err(e) && is_error_outcome(e, amount_error_message("lamports"@))),
        r matches Err(e) ==> e.1.wf(),
        r matches Ok(resp) ==> {
            &&& resp.success == true
            &&& resp.wf()
            &&& resp.message@ == "SOL transfer instruction created successfully"@
            &&& resp.data matches Some(d) && {
                &&& d.program_id@ == system_program_address()
                &&& d.accounts@.len() == 2
                &&& d.accounts@[0].public_key@ == base58_encoding(pubkey_bytes_of(req.from@))
                &&& d.accounts@[0].is_signer == true
                &&& d.accounts@[0].is_writable == true
                &&& d.accounts@[1].public_key@ == base58_encoding(pubkey_bytes_of(req.to@))
                &&& d.accounts@[1].is_signer == false
                &&& d.accounts@[1].is_writable == true
                &&& d.instruction_data@ == base64_encoding(system_transfer_data(req.lamports))
            }
        },
{
    let from = match parse_public_key(req.from.as_str()) {
        Ok(p) => p,
        Err(m) => {
            return Err(create_error_response(m));
        },
    };
    let to = match parse_public_key(req.to.as_str()) {
        Ok(p) => p,
        Err(m) => {
            return Err(create_error_response(m));
        },
    };
    if let Err(m) = validate_amount(req.lamports, "lamports") {
        return Err(create_error_response(m));
    }
    let built = system_transfer_instruction(&from, &to, req.lamports);
    let data = instruction_to_response(&built);
    Ok(ApiResponse::success(data, "SOL transfer instruction created successfully".to_owned()))
}

/// All three address fields of a token transfer request are present.
pub open spec fn send_token_fields_present(req: SendTokenRequest) -> bool {
    &&& req.destination@.len() != 0
    &&& req.mint@.len() != 0
    &&& req.owner@.len() != 0
}

/// The inputs on which a token transfer succeeds: all three fields name
/// public keys and the amount is positive.
pub open spec fn send_token_accepted(req: SendTokenRequest) -> bool {
    &&& valid_pubkey_string(req.destination@)
    &&& valid_pubkey_string(req.mint@)
    &&& valid_pubkey_string(req.owner@)
    &&& req.amount != 0
}

/// The payload of a token transfer instruction: tag 3 and the amount in
/// little-endian order.
pub open spec fn token_transfer_data(amount: u64) -> Seq<u8> {
    seq![3u8] + vstd::bytes::spec_u64_to_le_bytes(amount)
}

/// Create a token transfer instruction between the associated token
/// accounts of the owner and of the destination wallet, with the owner
/// as readonly signer.
pub fn send_token(req: &SendTokenRequest) -> (r: Result<
    ApiResponse<InstructionResponse>,
    (u16, ApiResponse<()>),
>)
    ensures
        r is Ok <==> send_token_accepted(*req),
        req.destination@.len() == 0 ==> (r matches Err(e) && is_error_outcome(
            e,
            "Missing destination address"@,
        )),
        req.destination@.len() != 0 && req.mint@.len() == 0 ==> (r matches Err(e)
            && is_error_outcome(e, "Missing mint address"@)),
        req.destination@.len() != 0 && req.mint@.len() != 0 && req.owner@.len() == 0 ==> (
        r matches Err(e) && is_error_outcome(e, "Missing owner address"@)),
        send_token_fields_present(*req) && !valid_pubkey_string(req.destination@) ==> (
        r matches Err(e) && is_error_outcome(e, invalid_pubkey_message(req.destination@))),
        send_token_fields_present(*req) && valid_pubkey_string(req.destination@)
            && !valid_pubkey_string(req.mint@) ==> (r matches Err(e) && is_error_outcome(
            e,
            invalid_pubkey_message(req.mint@),
        )),
        send_token_fields_present(*req) && valid_pubkey_string(req.destination@)
            && valid_pubkey_string(req.mint@) && !valid_pubkey_string(req.owner@) ==> (
        r matches Err(e) && is_error_outcome(e, invalid_pubkey_message(req.owner@))),
        valid_pubkey_string(req.destination@) && valid_pubkey_string(req.mint@)
            && valid_pubkey_string(req.owner@) && req.amount == 0 ==> (r matches Err(e)
            && is_error_outcome(e, amount_error_message("amount"@))),
        r matches Err(e) ==> e.1.wf(),
        r matches Ok(resp) ==> {
            &&& resp.success == true
            &&& resp.wf()
            &&& resp.message@ == "Token transfer instruction created successfully"@
            &&& resp.data matches Some(d) && {
                let owner = pubkey_bytes_of(req.owner@);
                let mint = pubkey_bytes_of(req.mint@);
                let destination = pubkey_bytes_of(req.destination@);
                &&& d.program_id@ == token_program_address()
                &&& d.accounts@.len() == 3
                &&& d.accounts@[0].public_key@ == base58_encoding(
                    associated_token_address(owner, mint),
                )
                &&& d.accounts@[0].is_signer == false
                &&& d.accounts@[0].is_writable == true
                &&& d.accounts@[1].public_key@ == base58_encoding(
                    associated_token_address(destination, mint),
                )
                &&& d.accounts@[1].is_signer == false
                &&& d.accounts@[1].is_writable == true
                &&& d.accounts@[2].public_key@ == base58_encoding(owner)
                &&& d.accounts@[2].is_signer == true
                &&& d.accounts@[2].is_writable == false
                &&& d.instruction_data@ == base64_encoding(token_transfer_data(req.amount))
            }
        },
{
    if let Err(m) = validate_send_token_request(req) {
        return Err(create_error_response(m));
    }
    let destination = match parse_public_key(req.destination.as_str()) {
        Ok(p) => p,
        Err(m) => {
            return Err(create_error_response(m));
        },
    };
    let mint = match parse_public_key(req.mint.as_str()) {
        Ok(p) => p,
        Err(m) => {
            return Err(create_error_response(m));
        },
    };
    let owner = match parse_public_key(req.owner.as_str()) {
        Ok(p) => p,
        Err(m) => {
            return Err(create_error_response(m));
        },
    };
    if let Err(m) = validate_amount(req.amount, "amount") {
        return Err(create_error_response(m));
    }
    let source_ata = derive_associated_token_account(&owner, &mint);
    let dest_ata = derive_associated_token_account(&destination, &mint);
    let token_program = spl_token_program();
    let built = match token_transfer_instruction(
        &token_program,
        &source_ata,
        &dest_ata,
        &owner,
        req.amount,
    ) {
        Ok(ix) => ix,
        Err(()) => {
            return Err(create_error_response("Failed to create transfer instruction".to_owned()));
        },
    };
    let data = instruction_to_response(&built);
    Ok(ApiResponse::success(data, "Token transfer instruction created successfully".to_owned()))
}

} // verus!
