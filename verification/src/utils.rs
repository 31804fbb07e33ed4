//! Shared validation helpers: amount and emptiness checks, key parsing,
//! and the rendering of the error messages they produce.

use vstd::prelude::*;

use crate::codec::{base58_decode, base58_decoding};
use crate::sdk::{keypair_bytes_check, keypair_bytes_wf};
use crate::types::{CreateTokenRequest, MintTokenRequest, Pubkey, SecretKey, SendTokenRequest};

verus! {

use vstd::string::StrSliceExecFns;
use vstd::string::StringExecFns;

/// Whether a character counts as whitespace; the name for what
/// `char::is_whitespace` returns.
pub uninterp spec fn char_is_whitespace(c: char) -> bool;

/// Relies on `char::is_whitespace` of core: the Unicode white space
/// property of the character.
pub assume_specification[ char::is_whitespace ](c: char) -> (r: bool)
    ensures
        r == char_is_whitespace(c),
;

/// A string has content when some character of it is not whitespace;
/// trimming leaves such a string non-empty.
pub open spec fn has_content(s: Seq<char>) -> bool {
    exists|i: int| 0 <= i < s.len() && !(#[trigger] char_is_whitespace(s[i]))
}

/// A string names a public key when it decodes as base58 to 32 bytes;
/// such a string is in particular nonempty.
pub open spec fn valid_pubkey_string(s: Seq<char>) -> bool {
    &&& s.len() != 0
    &&& base58_decoding(s) matches Some(b) && b.len() == 32
}

/// The key bytes a valid public key string denotes.
pub open spec fn pubkey_bytes_of(s: Seq<char>) -> Seq<u8>
    recommends
        valid_pubkey_string(s),
{
    base58_decoding(s)->Some_0
}

/// A string names a secret key when it decodes as base58 to 64 bytes that
/// the signing backend accepts.
pub open spec fn valid_secret_string(s: Seq<char>) -> bool {
    &&& base58_decoding(s) matches Some(b)
    &&& b.len() == 64
    &&& keypair_bytes_wf(b)
}

/// The secret bytes a valid secret key string denotes.
pub open spec fn secret_bytes_of(s: Seq<char>) -> Seq<u8>
    recommends
        valid_secret_string(s),
{
    base58_decoding(s)->Some_0
}

/// The error message for a zero amount in the given field.
pub open spec fn amount_error_message(field_name: Seq<char>) -> Seq<char> {
    field_name + " must be greater than 0"@
}

/// The error message for an empty (or all-whitespace) field.
pub open spec fn empty_error_message(field_name: Seq<char>) -> Seq<char> {
    field_name + " cannot be empty"@
}

/// The error message for a string that does not name a public key.
pub open spec fn invalid_pubkey_message(s: Seq<char>) -> Seq<char> {
    "Invalid public key format: '"@ + s + "'. Expected a base58 encoded string."@
}

/// The error message for a base58 secret key of the wrong length.
pub open spec fn secret_length_message(len: nat) -> Seq<char> {
    "Invalid secret key length: expected 64 bytes, got "@ + decimal_repr(len)
}

/// The decimal digit for a value below ten.
pub open spec fn decimal_digit(d: nat) -> char {
    if d == 0 {
        '0'
    } else if d == 1 {
        '1'
    } else if d == 2 {
        '2'
    } else if d == 3 {
        '3'
    } else if d == 4 {
        '4'
    } else if d == 5 {
        '5'
    } else if d == 6 {
        '6'
    } else if d == 7 {
        '7'
    } else if d == 8 {
        '8'
    } else {
        '9'
    }
}

/// The decimal rendering of a natural number, most significant digit
/// first, with no leading zeroes (a single zero for zero itself).
pub open spec fn decimal_repr(n: nat) -> Seq<char>
    decreases n,
{
    if n < 10 {
        seq![decimal_digit(n)]
    } else {
        decimal_repr(n / 10) + seq![decimal_digit(n % 10)]
    }
}

/// Renders a number in decimal.
pub fn usize_to_string(n: usize) -> (r: String)
    ensures
        r@ == decimal_repr(n as nat),
    decreases n,
{
    let d = n % 10;
    let digit: &str = if d == 0 {
        "0"
    } else if d == 1 {
        "1"
    } else if d == 2 {
        "2"
    } else if d == 3 {
        "3"
    } else if d == 4 {
        "4"
    } else if d == 5 {
        "5"
    } else if d == 6 {
        "6"
    } else if d == 7 {
        "7"
    } else if d == 8 {
        "8"
    } else {
        "9"
    };
    proof {
        reveal_strlit("0");
        reveal_strlit("1");
        reveal_strlit("2");
        reveal_strlit("3");
        reveal_strlit("4");
        reveal_strlit("5");
        reveal_strlit("6");
        reveal_strlit("7");
        reveal_strlit("8");
        reveal_strlit("9");
        assert(digit@ =~= seq![decimal_digit(d as nat)]);
    }
    if n < 10 {
        digit.to_owned()
    } else {
        let mut s = usize_to_string(n / 10);
        s.append(digit);
        proof {
            assert(s@ =~= decimal_repr(n as nat));
        }
        s
    }
}

/// Whether some character of the string is not whitespace: the string
/// survives trimming.
pub fn has_visible_char(s: &str) -> (r: bool)
    ensures
        r == has_content(s@),
{
    let n = s.unicode_len();
    let mut i: usize = 0;
    while i < n
        invariant
            i <= n,
            n == s@.len(),
            forall|j: int| 0 <= j < i ==> char_is_whitespace(s@[j]),
        decreases n - i,
    {
        let c = s.get_char(i);
        if !c.is_whitespace() {
            return true;
        }
        i += 1;
    }
    false
}

/// Validate that an amount is greater than zero; the error names the
/// offending field.
pub fn validate_amount(amount: u64, field_name: &str) -> (r: Result<(), String>)
    ensures
        r is Ok <==> amount != 0,
        r matches Err(m) ==> m@ == amount_error_message(field_name@),
{
    if amount == 0 {
        let mut m = field_name.to_owned();
        m.append(" must be greater than 0");
        Err(m)
    } else {
        Ok(())
    }
}

/// Validate that a string is not empty and not only whitespace; the error
/// names the offending field.
pub fn validate_not_empty(value: &str, field_name: &str) -> (r: Result<(), String>)
    ensures
        r is Ok <==> has_content(value@),
        r matches Err(m) ==> m@ == empty_error_message(field_name@),
{
    if has_visible_char(value) {
        Ok(())
    } else {
        let mut m = field_name.to_owned();
        m.append(" cannot be empty");
        Err(m)
    }
}

/// Parse a base58 encoded public key string into its 32 key bytes.
pub fn parse_public_key(pubkey_str: &str) -> (r: Result<Pubkey, String>)
    ensures
        r is Ok <==> valid_pubkey_string(pubkey_str@),
        r matches Ok(p) ==> p.wf() && p.bytes@ == pubkey_bytes_of(pubkey_str@),
        r matches Err(m) ==> m@ == invalid_pubkey_message(pubkey_str@),
{
    match base58_decode(pubkey_str) {
        Some(bytes) => {
            if bytes.len() == 32 {
                Ok(Pubkey { bytes })
            } else {
                Err(invalid_pubkey_error(pubkey_str))
            }
        },
        None => Err(invalid_pubkey_error(pubkey_str)),
    }
}

/// Parse a base58 encoded secret key string into its 64 secret bytes; the
/// decoded bytes must be exactly 64 and accepted by the signing backend.
pub fn parse_secret_key(secret_str: &str) -> (r: Result<SecretKey, String>)
    ensures
        r is Ok <==> valid_secret_string(secret_str@),
        r matches Ok(k) ==> k.bytes@ == secret_bytes_of(secret_str@) && k.bytes@.len() == 64
            && keypair_bytes_wf(k.bytes@),
        r matches Err(m) ==> m@ == parse_secret_error_message(secret_str@),
{
    match base58_decode(secret_str) {
        Some(bytes) => {
            if bytes.len() != 64 {
                let mut m = "Invalid secret key length: expected 64 bytes, got ".to_owned();
                let rendered = usize_to_string(bytes.len());
                m.append(rendered.as_str());
                Err(m)
            } else {
                match keypair_bytes_check(bytes.as_slice()) {
                    Ok(()) => Ok(SecretKey { bytes }),
                    Err(detail) => {
                        let mut m = "Failed to create keypair from secret key: ".to_owned();
                        m.append(detail.as_str());
                        proof {
                            reveal_strlit("Failed to create keypair from secret key: ");
                            reveal_strlit("signature error");
                            reveal_strlit("Failed to create keypair from secret key: signature error");
                            assert(m@ =~= "Failed to create keypair from secret key: signature error"@);
                        }
                        Err(m)
                    },
                }
            }
        },
        None => Err("Invalid secret key format. Expected a base58 encoded string.".to_owned()),
    }
}

/// The message `parse_secret_key` reports for each way a string can fail
/// to name a secret key.
pub open spec fn parse_secret_error_message(s: Seq<char>) -> Seq<char> {
    match base58_decoding(s) {
        Some(b) => if b.len() != 64 {
            secret_length_message(b.len())
        } else {
            "Failed to create keypair from secret key: signature error"@
        },
        None => "Invalid secret key format. Expected a base58 encoded string."@,
    }
}

/// Validate that the fields of a create-token request are present.
pub fn validate_create_token_request(payload: &CreateTokenRequest) -> (r: Result<(), String>)
    ensures
        r is Ok <==> payload.mint_authority@.len() != 0 && payload.mint@.len() != 0,
        r matches Err(m) ==> m@ == (if payload.mint_authority@.len() == 0 {
            "Missing mint authority"@
        } else {
            "Missing mint address"@
        }),
{
    if payload.mint_authority.as_str().is_empty() {
        return Err("Missing mint authority".to_owned());
    }
    if payload.mint.as_str().is_empty() {
        return Err("Missing mint address".to_owned());
    }
    Ok(())
}

/// Validate that the fields of a mint-token request are present.
pub fn validate_mint_token_request(payload: &MintTokenRequest) -> (r: Result<(), String>)
    ensures
        r is Ok <==> payload.mint@.len() != 0 && payload.destination@.len() != 0
            && payload.authority@.len() != 0,
        r matches Err(m) ==> m@ == (if payload.mint@.len() == 0 {
            "Missing mint address"@
        } else if payload.destination@.len() == 0 {
            "Missing destination address"@
        } else {
            "Missing authority address"@
        }),
{
    if payload.mint.as_str().is_empty() {
        return Err("Missing mint address".to_owned());
    }
    if payload.destination.as_str().is_empty() {
        return Err("Missing destination address".to_owned());
    }
    if payload.authority.as_str().is_empty() {
        return Err("Missing authority address".to_owned());
    }
    Ok(())
}

/// Validate that the fields of a send-token request are present.
pub fn validate_send_token_request(payload: &SendTokenRequest) -> (r: Result<(), String>)
    ensures
        r is Ok <==> payload.destination@.len() != 0 && payload.mint@.len() != 0
            && payload.owner@.len() != 0,
        r matches Err(m) ==> m@ == (if payload.destination@.len() == 0 {
            "Missing destination address"@
        } else if payload.mint@.len() == 0 {
            "Missing mint address"@
        } else {
            "Missing owner address"@
        }),
{
    if payload.destination.as_str().is_empty() {
        return Err("Missing destination address".to_owned());
    }
    if payload.mint.as_str().is_empty() {
        return Err("Missing mint address".to_owned());
    }
    if payload.owner.as_str().is_empty() {
        return Err("Missing owner address".to_owned());
    }
    Ok(())
}

/// Copies the bytes of a range out of a slice.
pub fn bytes_range(v: &[u8], start: usize, end: usize) -> (r: Vec<u8>)
    requires
        start <= end <= v@.len(),
    ensures
        r@ == v@.subrange(start as int, end as int),
{
    let mut out: Vec<u8> = Vec::new();
    let mut i: usize = start;
    while i < end
        invariant
            start <= i <= end <= v@.len(),
            out@ == v@.subrange(start as int, i as int),
        decreases end - i,
    {
        out.push(v[i]);
        proof {
            assert(out@ =~= v@.subrange(start as int, i + 1 as int));
        }
        i += 1;
    }
    out
}

/// Builds the error message for a string that does not name a public key.
fn invalid_pubkey_error(pubkey_str: &str) -> (r: String)
    ensures
        r@ == invalid_pubkey_message(pubkey_str@),
{
    let mut m = "Invalid public key format: '".to_owned();
    m.append(pubkey_str);
    m.append("'. Expected a base58 encoded string.");
    m
}

} // verus!
