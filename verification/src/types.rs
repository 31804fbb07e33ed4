//! Request and response shapes for the endpoints, and the uniform response
//! envelope that every endpoint wraps its result in.

use vstd::prelude::*;

verus! {

/// Uniform response envelope. Exactly one of a successful payload or an
/// error message is carried: `success` holds if and only if `data` does.
#[derive(Debug)]
pub struct ApiResponse<T> {
    pub success: bool,
    pub data: Option<T>,
    pub message: String,
}

impl<T> ApiResponse<T> {
    /// The envelope invariant: a successful envelope carries a payload,
    /// a failed one carries none.
    pub open spec fn wf(self) -> bool {
        self.success <==> self.data is Some
    }

    pub fn success(data: T, message: String) -> (r: Self)
        ensures
            r.success == true,
            r.data == Some(data),
            r.message == message,
            r.wf(),
    {
        Self { success: true, data: Some(data), message }
    }

    pub fn error(message: String) -> (r: Self)
        ensures
            r.success == false,
            r.data is None,
            r.message == message,
            r.wf(),
    {
        Self { success: false, data: None, message }
    }
}

/// A public key held as its raw bytes; well-formed when exactly 32 bytes.
#[derive(Debug)]
pub struct Pubkey {
    pub bytes: Vec<u8>,
}

impl Pubkey {
    pub open spec fn wf(self) -> bool {
        self.bytes@.len() == 32
    }
}

/// A signing key held as its raw 64 bytes (seed followed by public key),
/// accepted by the signing backend.
pub struct SecretKey {
    pub bytes: Vec<u8>,
}

#[derive(Debug)]
pub struct KeypairResponse {
    pub public_key: String,
    pub secret_key: String,
}

pub struct CreateTokenRequest {
    pub mint_authority: String,
    pub mint: String,
    pub decimals: u8,
}

pub struct MintTokenRequest {
    pub mint: String,
    pub destination: String,
    pub authority: String,
    pub amount: u64,
}

pub struct SignMessageRequest {
    pub message: String,
    pub secret: String,
}

#[derive(Debug)]
pub struct SignMessageResponse {
    pub signature: String,
    pub public_key: String,
    pub message: String,
}

pub struct VerifyMessageRequest {
    pub message: String,
    pub signature: String,
    pub pubkey: String,
}

#[derive(Debug)]
pub struct VerifyMessageResponse {
    pub is_valid: bool,
    pub message: String,
    pub public_key: String,
}

pub struct SendSolRequest {
    pub from: String,
    pub to: String,
    pub lamports: u64,
}

pub struct SendTokenRequest {
    pub destination: String,
    pub mint: String,
    pub owner: String,
    pub amount: u64,
}

/// Account metadata as it appears in an instruction response.
#[derive(Debug)]
pub struct AccountInfo {
    pub public_key: String,
    pub is_signer: bool,
    pub is_writable: bool,
}

/// An unsigned instruction, ready for serialization: program id and account
/// keys as base58 strings, payload as a base64 string.
#[derive(Debug)]
pub struct InstructionResponse {
    pub program_id: String,
    pub accounts: Vec<AccountInfo>,
    pub instruction_data: String,
}

} // verus!
