//! The dispatch surface: one handler per endpoint, plus the helpers every
//! handler shares. Each handler validates its request, delegates the
//! cryptographic or encoding work, and wraps the result (or the first
//! error) in the uniform envelope with status 400 for failures.

pub mod info;
pub mod keypair;
pub mod message;
pub mod token;
pub mod transfer;

use vstd::prelude::*;

use crate::codec::{base58_encode, base58_encoding, base64_encode, base64_encoding};
use crate::sdk::{BuiltInstruction, InstructionAccount};
use crate::types::{AccountInfo, ApiResponse, InstructionResponse};

verus! {

/// The HTTP status every error response carries.
pub open spec fn bad_request() -> u16 {
    400
}

/// An error outcome: status 400 and a failure envelope with the given
/// message and no payload.
pub open spec fn is_error_outcome(e: (u16, ApiResponse<()>), message: Seq<char>) -> bool {
    &&& e.0 == bad_request()
    &&& e.1.success == false
    &&& e.1.data is None
    &&& e.1.message@ == message
}

/// Builds the standardized error outcome for a message.
pub fn create_error_response(message: String) -> (r: (u16, ApiResponse<()>))
    ensures
        is_error_outcome(r, message@),
{
    (400, ApiResponse::error(message))
}

/// An account was rendered from an instruction's account reference: the
/// key re-encoded as base58, the flags copied.
pub open spec fn account_rendered(a: AccountInfo, m: InstructionAccount) -> bool {
    &&& a.public_key@ == base58_encoding(m.pubkey.bytes@)
    &&& a.is_signer == m.is_signer
    &&& a.is_writable == m.is_writable
}

/// A response was rendered from a built instruction: the program id and
/// every account key re-encoded as base58, the payload as base64.
pub open spec fn instruction_rendered(r: InstructionResponse, ix: BuiltInstruction) -> bool {
    &&& r.program_id@ == base58_encoding(ix.program_id.bytes@)
    &&& r.accounts@.len() == ix.accounts@.len()
    &&& forall|i: int|
        0 <= i < ix.accounts@.len() ==> account_rendered(
            #[trigger] r.accounts@[i],
            ix.accounts@[i],
        )
    &&& r.instruction_data@ == base64_encoding(ix.data@)
}

/// Renders a built instruction for the response envelope.
pub fn instruction_to_response(ix: &BuiltInstruction) -> (r: InstructionResponse)
    ensures
        instruction_rendered(r, *ix),
{
    let program_id = base58_encode(ix.program_id.bytes.as_slice());
    let mut accounts: Vec<AccountInfo> = Vec::new();
    let mut i: usize = 0;
    while i < ix.accounts.len()
        invariant
            i <= ix.accounts@.len(),
            accounts@.len() == i,
            forall|j: int|
                0 <= j < i ==> account_rendered(#[trigger] accounts@[j], ix.accounts@[j]),
        decreases ix.accounts@.len() - i,
    {
        let a = &ix.accounts[i];
        accounts.push(
            AccountInfo {
                public_key: base58_encode(a.pubkey.bytes.as_slice()),
                is_signer: a.is_signer,
                is_writable: a.is_writable,
            },
        );
        i += 1;
    }
    InstructionResponse {
        program_id,
        accounts,
        instruction_data: base64_encode(ix.data.as_slice()),
    }
}

} // verus!
