//! Keypair generation endpoint.

use vstd::prelude::*;

use crate::codec::{base58_decoding, base58_encode, base58_encoding};
use crate::sdk::{generate_keypair_bytes, keypair_bytes_wf};
use crate::types::{ApiResponse, KeypairResponse};

verus! {

/// Generate a new keypair and return both keys in base58 form. The two
/// strings encode, and decode back to, a 64-byte secret accepted by the
/// signing backend and its embedded 32-byte public key; nothing more can
/// be promised of a randomly drawn key.
pub fn generate_keypair() -> (r: ApiResponse<KeypairResponse>)
    ensures
        r.success == true,
        r.wf(),
        r.message@ == "Keypair generated successfully"@,
        r.data matches Some(k) ==> {
            &&& exists|sk: Seq<u8>|
                {
                    &&& sk.len() == 64
                    &&& #[trigger] keypair_bytes_wf(sk)
                    &&& k.secret_key@ == base58_encoding(sk)
                    &&& k.public_key@ == base58_encoding(sk.subrange(32, 64))
                    &&& base58_decoding(k.secret_key@) == Some(sk)
                    &&& base58_decoding(k.public_key@) == Some(sk.subrange(32, 64))
                }
            &&& k.public_key@.len() > 0
            &&& k.secret_key@.len() > 0
        },
{
    let kp = generate_keypair_bytes();
    let public_key = base58_encode(kp.public.as_slice());
    let secret_key = base58_encode(kp.secret.as_slice());
    let data = KeypairResponse { public_key, secret_key };
    ApiResponse::success(data, "Keypair generated successfully".to_owned())
}

} // verus!
