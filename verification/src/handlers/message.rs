//! Message signing and verification endpoints.

use vstd::prelude::*;

use crate::codec::{base58_encoding, base64_decode, base64_decoding, base64_encode, base64_encoding};
use crate::handlers::{create_error_response, is_error_outcome};
use crate::sdk::{ed25519_signature, ed25519_verifies, sign_message_bytes, verify_signature_bytes};
use crate::types::{
    ApiResponse, SignMessageRequest, SignMessageResponse, VerifyMessageRequest,
    VerifyMessageResponse,
};
use crate::utils::{
    bytes_range, empty_error_message, has_content, invalid_pubkey_message, parse_public_key,
    parse_secret_error_message, parse_secret_key, pubkey_bytes_of, secret_bytes_of,
    valid_pubkey_string, valid_secret_string, validate_not_empty,
};

verus! {

use vstd::utf8::encode_utf8;

/// What the verification endpoint decides for a public key string, a
/// message and a signature string: `None` when one of the strings is
/// rejected, otherwise whether the signature verifies the message's
/// UTF-8 bytes under the key.
pub open spec fn verification_outcome(
    pubkey_str: Seq<char>,
    message: Seq<char>,
    signature_str: Seq<char>,
) -> Option<bool> {
    if valid_pubkey_string(pubkey_str) {
        match base64_decoding(signature_str) {
            Some(sig) => if sig.len() == 64 {
                Some(ed25519_verifies(pubkey_bytes_of(pubkey_str), encode_utf8(message), sig))
            } else {
                None
            },
            None => None,
        }
    } else {
        None
    }
}

/// The inputs on which signing succeeds: message and secret non-empty
/// after trimming, and the secret names a key.
pub open spec fn sign_request_accepted(req: SignMessageRequest) -> bool {
    &&& has_content(req.message@)
    &&& has_content(req.secret@)
    &&& valid_secret_string(req.secret@)
}

/// Sign a message with a secret key. On success the payload carries the
/// base64 signature, the base58 public key embedded in the secret, and
/// the message; the signature it reports verifies under that key, so a
/// verification call on this payload returns true.
pub fn sign_message(req: &SignMessageRequest) -> (r: Result<
    ApiResponse<SignMessageResponse>,
    (u16, ApiResponse<()>),
>)
    ensures
        r is Ok <==> sign_request_accepted(*req),
        !has_content(req.message@) ==> (r matches Err(e) && is_error_outcome(
            e,
            empty_error_message("message"@),
        )),
        has_content(req.message@) && !has_content(req.secret@) ==> (r matches Err(e)
            && is_error_outcome(e, empty_error_message("secret"@))),
        has_content(req.message@) && has_content(req.secret@) && !valid_secret_string(req.secret@)
            ==> (r matches Err(e) && is_error_outcome(e, parse_secret_error_message(req.secret@))),
        r matches Err(e) ==> e.1.wf(),
        r matches Ok(resp) ==> {
            &&& resp.success == true
            &&& resp.wf()
            &&& resp.message@ == "Message signed successfully"@
            &&& resp.data matches Some(d) && {
                let sk = secret_bytes_of(req.secret@);
                &&& d.signature@ == base64_encoding(
                    ed25519_signature(sk, encode_utf8(req.message@)),
                )
                &&& d.public_key@ == base58_encoding(sk.subrange(32, 64))
                &&& d.message@ == req.message@
                &&& verification_outcome(d.public_key@, d.message@, d.signature@) == Some(true)
            }
        },
{
    if let Err(m) = validate_not_empty(req.message.as_str(), "message") {
        return Err(create_error_response(m));
    }
    if let Err(m) = validate_not_empty(req.secret.as_str(), "secret") {
        return Err(create_error_response(m));
    }
    let secret = match parse_secret_key(req.secret.as_str()) {
        Ok(k) => k,
        Err(m) => {
            return Err(create_error_response(m));
        },
    };
    let signature = sign_message_bytes(secret.bytes.as_slice(), req.message.as_str().as_bytes());
    let public_bytes = bytes_range(secret.bytes.as_slice(), 32, 64);
    let data = SignMessageResponse {
        signature: base64_encode(signature.as_slice()),
        public_key: crate::codec::base58_encode(public_bytes.as_slice()),
        message: req.message.clone(),
    };
    Ok(ApiResponse::success(data, "Message signed successfully".to_owned()))
}

/// Verify a signed message. The key must be base58 for 32 bytes and the
/// signature base64 for 64 bytes; the payload then reports whether the
/// signature verifies the message under the key, echoing both.
pub fn verify_message(req: &VerifyMessageRequest) -> (r: Result<
    ApiResponse<VerifyMessageResponse>,
    (u16, ApiResponse<()>),
>)
    ensures
        r is Ok <==> verification_outcome(req.pubkey@, req.message@, req.signature@) is Some,
        !valid_pubkey_string(req.pubkey@) ==> (r matches Err(e) && is_error_outcome(
            e,
            invalid_pubkey_message(req.pubkey@),
        )),
        valid_pubkey_string(req.pubkey@) && base64_decoding(req.signature@) is None ==> (
        r matches Err(e) && is_error_outcome(e, "Invalid signature format"@)),
        valid_pubkey_string(req.pubkey@) && (base64_decoding(req.signature@) matches Some(sig)
            && sig.len() != 64) ==> (r matches Err(e) && is_error_outcome(e, "Invalid signature"@)),
        r matches Err(e) ==> e.1.wf(),
        r matches Ok(resp) ==> {
            &&& resp.success == true
            &&& resp.wf()
            &&& resp.data matches Some(d) && {
                &&& d.is_valid == verification_outcome(
                    req.pubkey@,
                    req.message@,
                    req.signature@,
                )->Some_0
                &&& d.message@ == req.message@
                &&& d.public_key@ == req.pubkey@
                &&& resp.message@ == (if d.is_valid {
                    "Message verification successful"@
                } else {
                    "Message verification failed"@
                })
            }
        },
{
    let pubkey = match parse_public_key(req.pubkey.as_str()) {
        Ok(p) => p,
        Err(m) => {
            return Err(create_error_response(m));
        },
    };
    let signature_bytes = match base64_decode(req.signature.as_str()) {
        Some(b) => b,
        None => {
            return Err(create_error_response("Invalid signature format".to_owned()));
        },
    };
    if signature_bytes.len() != 64 {
        return Err(create_error_response("Invalid signature".to_owned()));
    }
    let is_valid = verify_signature_bytes(
        pubkey.bytes.as_slice(),
        req.message.as_str().as_bytes(),
        signature_bytes.as_slice(),
    );
    let data = VerifyMessageResponse {
        is_valid,
        message: req.message.clone(),
        public_key: req.pubkey.clone(),
    };
    let note = if is_valid {
        "Message verification successful".to_owned()
    } else {
        "Message verification failed".to_owned()
    };
    Ok(ApiResponse::success(data, note))
}

} // verus!
