//! SPL token endpoints: creating a mint and minting to an account.

use vstd::prelude::*;

use crate::codec::base64_encoding;
use crate::handlers::{create_error_response, instruction_to_response, is_error_outcome};
use crate::sdk::{
    initialize_mint_instruction, mint_to_instruction, rent_sysvar_address, spl_token_program,
    token_program_address,
};
use crate::types::{ApiResponse, CreateTokenRequest, InstructionResponse, MintTokenRequest};
use crate::utils::{
    amount_error_message, invalid_pubkey_message, parse_public_key, pubkey_bytes_of,
    valid_pubkey_string, validate_amount, validate_create_token_request,
    validate_mint_token_request,
};

verus! {

/// The inputs on which creating a mint succeeds: both fields name public
/// keys (and are in particular nonempty).
pub open spec fn create_token_accepted(req: CreateTokenRequest) -> bool {
    &&& valid_pubkey_string(req.mint_authority@)
    &&& valid_pubkey_string(req.mint@)
}

/// The payload of an initialize-mint instruction: tag 0, the decimals,
/// the mint authority, and the same authority as the freeze authority
/// behind a one-byte option tag.
pub open spec fn initialize_mint_data(authority: Seq<u8>, decimals: u8) -> Seq<u8> {
    seq![0u8, decimals] + authority + seq![1u8] + authority
}

/// Create an initialize-mint instruction. Whatever the inputs, a
/// successful response's program id is the SPL token program's; the
/// accounts are the mint (writable) and the rent sysvar, and the payload
/// carries the decimals and the authority.
pub fn create_token(req: &CreateTokenRequest) -> (r: Result<
    ApiResponse<InstructionResponse>,
    (u16, ApiResponse<()>),
>)
    ensures
        r is Ok <==> create_token_accepted(*req),
        req.mint_authority@.len() == 0 ==> (r matches Err(e) && is_error_outcome(
            e,
            "Missing mint authority"@,
        )),
        req.mint_authority@.len() != 0 && req.mint@.len() == 0 ==> (r matches Err(e)
            && is_error_outcome(e, "Missing mint address"@)),
        req.mint_authority@.len() != 0 && req.mint@.len() != 0 && !valid_pubkey_string(
            req.mint_authority@,
        ) ==> (r matches Err(e) && is_error_outcome(
            e,
            invalid_pubkey_message(req.mint_authority@),
        )),
        req.mint_authority@.len() != 0 && req.mint@.len() != 0 && valid_pubkey_string(
            req.mint_authority@,
        ) && !valid_pubkey_string(req.mint@) ==> (r matches Err(e) && is_error_outcome(
            e,
            invalid_pubkey_message(req.mint@),
        )),
        r matches Err(e) ==> e.1.wf(),
        r matches Ok(resp) ==> {
            &&& resp.success == true
            &&& resp.wf()
            &&& resp.message@ == "Token mint instruction created successfully"@
            &&& resp.data matches Some(d) && {
                &&& d.program_id@ == token_program_address()
                &&& d.accounts@.len() == 2
                &&& d.accounts@[0].public_key@ == crate::codec::base58_encoding(
                    pubkey_bytes_of(req.mint@),
                )
                &&& d.accounts@[0].is_signer == false
                &&& d.accounts@[0].is_writable == true
                &&& d.accounts@[1].public_key@ == rent_sysvar_address()
                &&& d.accounts@[1].is_signer == false
                &&& d.accounts@[1].is_writable == false
                &&& d.instruction_data@ == base64_encoding(
                    initialize_mint_data(pubkey_bytes_of(req.mint_authority@), req.decimals),
                )
            }
        },
{
    if let Err(m) = validate_create_token_request(req) {
        return Err(create_error_response(m));
    }
    let mint_authority = match parse_public_key(req.mint_authority.as_str()) {
        Ok(p) => p,
        Err(m) => {
            return Err(create_error_response(m));
        },
    };
    let mint = match parse_public_key(req.mint.as_str()) {
        Ok(p) => p,
        Err(m) => {
            return Err(create_error_response(m));
        },
    };
    let token_program = spl_token_program();
    let built = match initialize_mint_instruction(
        &token_program,
        &mint,
        &mint_authority,
        &mint_authority,
        req.decimals,
    ) {
        Ok(ix) => ix,
        Err(()) => {
            return Err(
                create_error_response("Failed to create initialize mint instruction".to_owned()),
            );
        },
    };
    let data = instruction_to_response(&built);
    Ok(ApiResponse::success(data, "Token mint instruction created successfully".to_owned()))
}

/// The inputs on which minting succeeds: all three fields name public
/// keys and the amount is positive.
pub open spec fn mint_token_accepted(req: MintTokenRequest) -> bool {
    &&& valid_pubkey_string(req.mint@)
    &&& valid_pubkey_string(req.destination@)
    &&& valid_pubkey_string(req.authority@)
    &&& req.amount != 0
}

/// The payload of a mint-to instruction: tag 7 and the amount in
/// little-endian order.
pub open spec fn mint_to_data(amount: u64) -> Seq<u8> {
    seq![7u8] + vstd::bytes::spec_u64_to_le_bytes(amount)
}

/// Create a mint-to instruction for the given mint, destination account
/// and mint authority.
pub fn mint_token(req: &MintTokenRequest) -> (r: Result<
    ApiResponse<InstructionResponse>,
    (u16, ApiResponse<()>),
>)
    ensures
        r is Ok <==> mint_token_accepted(*req),
        req.mint@.len() == 0 ==> (r matches Err(e) && is_error_outcome(
            e,
            "Missing mint address"@,
        )),
        req.mint@.len() != 0 && req.destination@.len() == 0 ==> (r matches Err(e)
            && is_error_outcome(e, "Missing destination address"@)),
        req.mint@.len() != 0 && req.destination@.len() != 0 && req.authority@.len() == 0 ==> (
        r matches Err(e) && is_error_outcome(e, "Missing authority address"@)),
        fields_present(*req) && !valid_pubkey_string(req.mint@) ==> (r matches Err(e)
            && is_error_outcome(e, invalid_pubkey_message(req.mint@))),
        fields_present(*req) && valid_pubkey_string(req.mint@) && !valid_pubkey_string(
            req.destination@,
        ) ==> (r matches Err(e) && is_error_outcome(e, invalid_pubkey_message(req.destination@))),
        fields_present(*req) && valid_pubkey_string(req.mint@) && valid_pubkey_string(
            req.destination@,
        ) && !valid_pubkey_string(req.authority@) ==> (r matches Err(e) && is_error_outcome(
            e,
            invalid_pubkey_message(req.authority@),
        )),
        valid_pubkey_string(req.mint@) && valid_pubkey_string(req.destination@)
            && valid_pubkey_string(req.authority@) && req.amount == 0 ==> (r matches Err(e)
            && is_error_outcome(e, amount_error_message("amount"@))),
        r matches Err(e) ==> e.1.wf(),
        r matches Ok(resp) ==> {
            &&& resp.success == true
            &&& resp.wf()
            &&& resp.message@ == "Mint instruction created successfully"@
            &&& resp.data matches Some(d) && {
                &&& d.program_id@ == token_program_address()
                &&& d.accounts@.len() == 3
                &&& d.accounts@[0].public_key@ == crate::codec::base58_encoding(
                    pubkey_bytes_of(req.mint@),
                )
                &&& d.accounts@[0].is_signer == false
                &&& d.accounts@[0].is_writable == true
                &&& d.accounts@[1].public_key@ == crate::codec::base58_encoding(
                    pubkey_bytes_of(req.destination@),
                )
                &&& d.accounts@[1].is_signer == false
                &&& d.accounts@[1].is_writable == true
                &&& d.accounts@[2].public_key@ == crate::codec::base58_encoding(
                    pubkey_bytes_of(req.authority@),
                )
                &&& d.accounts@[2].is_signer == true
                &&& d.accounts@[2].is_writable == false
                &&& d.instruction_data@ == base64_encoding(mint_to_data(req.amount))
            }
        },
{
    if let Err(m) = validate_mint_token_request(req) {
        return Err(create_error_response(m));
    }
    let mint = match parse_public_key(req.mint.as_str()) {
        Ok(p) => p,
        Err(m) => {
            return Err(create_error_response(m));
        },
    };
    let destination = match parse_public_key(req.destination.as_str()) {
        Ok(p) => p,
        Err(m) => {
            return Err(create_error_response(m));
        },
    };
    let authority = match parse_public_key(req.authority.as_str()) {
        Ok(p) => p,
        Err(m) => {
            return Err(create_error_response(m));
        },
    };
    if let Err(m) = validate_amount(req.amount, "amount") {
        return Err(create_error_response(m));
    }
    let token_program = spl_token_program();
    let built = match mint_to_instruction(
        &token_program,
        &mint,
        &destination,
        &authority,
        req.amount,
    ) {
        Ok(ix) => ix,
        Err(()) => {
            return Err(create_error_response("Failed to create mint instruction".to_owned()));
        },
    };
    let data = instruction_to_response(&built);
    Ok(ApiResponse::success(data, "Mint instruction created successfully".to_owned()))
}

/// All three address fields of a mint request are present.
pub open spec fn fields_present(req: MintTokenRequest) -> bool {
    &&& req.mint@.len() != 0
    &&& req.destination@.len() != 0
    &&& req.authority@.len() != 0
}

} // verus!
