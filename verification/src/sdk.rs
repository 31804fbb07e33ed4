//! Trusted boundary to the blockchain SDK: key generation, ed25519 signing
//! and verification, and construction of system and token instructions.
//!
//! Every function here is a thin wrapper around one call into the SDK
//! crates; its contract states what that call returns, as the crates'
//! sources show it. Results that are functions of the arguments alone but
//! are too long to state (a signature, a derived address, the acceptance
//! of a candidate keypair) are given names as uninterpreted spec functions.

use solana_sdk::signer::Signer as _;
use vstd::prelude::*;

use crate::codec::base58_encoding;
use crate::types::Pubkey;

verus! {

/// Whether 64 candidate bytes are accepted as a keypair: the second half
/// must be the public key that the first half (the seed) derives.
pub uninterp spec fn keypair_bytes_wf(b: Seq<u8>) -> bool;

/// The ed25519 signature of a message under a 64-byte secret. Ed25519
/// signing is deterministic, so this is a function of its arguments.
pub uninterp spec fn ed25519_signature(secret: Seq<u8>, message: Seq<u8>) -> Seq<u8>;

/// Whether a signature verifies a message under a public key (strict
/// ed25519 verification; false as well when the key bytes are no key).
pub uninterp spec fn ed25519_verifies(pubkey: Seq<u8>, message: Seq<u8>, signature: Seq<u8>) -> bool;

/// The associated token account derived from a wallet and a mint: a
/// deterministic program-derived address.
pub uninterp spec fn associated_token_address(wallet: Seq<u8>, mint: Seq<u8>) -> Seq<u8>;

/// The base58 form of the system program id.
pub open spec fn system_program_address() -> Seq<char> {
    "11111111111111111111111111111111"@
}

/// The base58 form of the SPL token program id.
pub open spec fn token_program_address() -> Seq<char> {
    "TokenkegQfeZyiNwAJbNbGKPFXCWuBvf9Ss623VQ5DA"@
}

/// The base58 form of the rent sysvar id.
pub open spec fn rent_sysvar_address() -> Seq<char> {
    "SysvarRent111111111111111111111111111111111"@
}

/// One account reference of a built instruction.
pub struct InstructionAccount {
    pub pubkey: Pubkey,
    pub is_signer: bool,
    pub is_writable: bool,
}

impl InstructionAccount {
    pub open spec fn wf(self) -> bool {
        self.pubkey.wf()
    }

    /// The account is the given key with the given flags.
    pub open spec fn is(self, key: Seq<u8>, signer: bool, writable: bool) -> bool {
        &&& self.pubkey.bytes@ == key
        &&& self.is_signer == signer
        &&& self.is_writable == writable
    }
}

/// An instruction as the SDK built it, held as raw bytes: program id,
/// account references, and payload.
pub struct BuiltInstruction {
    pub program_id: Pubkey,
    pub accounts: Vec<InstructionAccount>,
    pub data: Vec<u8>,
}

impl BuiltInstruction {
    pub open spec fn wf(self) -> bool {
        &&& self.program_id.wf()
        &&& forall|i: int| 0 <= i < self.accounts@.len() ==> (#[trigger] self.accounts@[i]).wf()
    }
}

/// A freshly generated keypair, as raw bytes.
pub struct GeneratedKeypair {
    pub public: Vec<u8>,
    pub secret: Vec<u8>,
}

/// Relies on `Keypair::new` and `Keypair::to_bytes`: the 64 secret bytes
/// are the seed followed by the derived public key, and are accepted back
/// by `Keypair::try_from`. Nothing more is promised of a random key.
#[verifier::external_body]
pub fn generate_keypair_bytes() -> (r: GeneratedKeypair)
    ensures
        r.secret@.len() == 64,
        r.public@ == r.secret@.subrange(32, 64),
        keypair_bytes_wf(r.secret@),
{
    let kp = solana_sdk::signature::Keypair::new();
    GeneratedKeypair { public: kp.pubkey().to_bytes().to_vec(), secret: kp.to_bytes().to_vec() }
}

/// Relies on `Keypair::try_from(&[u8])`: it accepts exactly the 64-byte
/// strings whose second half matches the public key derived from the
/// seed. On rejection it hands back the error's text, which the SDK
/// keeps deliberately opaque: it displays as `signature error` whatever
/// the cause.
#[verifier::external_body]
pub fn keypair_bytes_check(secret: &[u8]) -> (r: Result<(), String>)
    ensures
        r is Ok <==> keypair_bytes_wf(secret@),
        r is Ok ==> secret@.len() == 64,
        r matches Err(m) ==> m@ == "signature error"@,
{
    match solana_sdk::signature::Keypair::try_from(secret) {
        Ok(_) => Ok(()),
        Err(e) => Err(format!("{}", e)),
    }
}

/// Relies on `Keypair::try_from` and `Signer::sign_message`: deterministic
/// ed25519 signing; the signature is 64 bytes and verifies the message
/// under the keypair's public key (the secret's second half).
#[verifier::external_body]
pub fn sign_message_bytes(secret: &[u8], message: &[u8]) -> (r: Vec<u8>)
    requires
        keypair_bytes_wf(secret@),
    ensures
        r@ == ed25519_signature(secret@, message@),
        r@.len() == 64,
        ed25519_verifies(secret@.subrange(32, 64), message@, r@),
{
    let kp = solana_sdk::signature::Keypair::try_from(secret).unwrap();
    kp.sign_message(message).as_ref().to_vec()
}

/// Relies on `Signature::verify`: strict ed25519 verification of the
/// message under the given public key bytes; false when the bytes are not
/// a valid public key.
#[verifier::external_body]
pub fn verify_signature_bytes(pubkey: &[u8], message: &[u8], signature: &[u8]) -> (r: bool)
    requires
        signature@.len() == 64,
    ensures
        r == ed25519_verifies(pubkey@, message@, signature@),
{
    let arr: [u8; 64] = signature.try_into().unwrap();
    solana_sdk::signature::Signature::from(arr).verify(pubkey, message)
}

/// Relies on `spl_token::id()`, declared in the SPL token crate by its
/// base58 form `TokenkegQfeZyiNwAJbNbGKPFXCWuBvf9Ss623VQ5DA`.
#[verifier::external_body]
pub fn spl_token_program() -> (r: Pubkey)
    ensures
        r.wf(),
        base58_encoding(r.bytes@) == token_program_address(),
{
    Pubkey { bytes: spl_token::id().to_bytes().to_vec() }
}

/// Relies on `solana_system_interface::instruction::transfer`: a transfer
/// instruction of the system program, whose payload is the little-endian
/// variant tag 2 followed by the lamports in little-endian order, with the
/// funding account first (writable signer) and the recipient second
/// (writable).
#[verifier::external_body]
pub fn system_transfer_instruction(from: &Pubkey, to: &Pubkey, lamports: u64) -> (r:
    BuiltInstruction)
    requires
        from.wf(),
        to.wf(),
    ensures
        r.wf(),
        base58_encoding(r.program_id.bytes@) == system_program_address(),
        r.accounts@.len() == 2,
        r.accounts@[0].is(from.bytes@, true, true),
        r.accounts@[1].is(to.bytes@, false, true),
        r.data@ == seq![2u8, 0u8, 0u8, 0u8] + vstd::bytes::spec_u64_to_le_bytes(lamports),
{
    let f = solana_sdk::pubkey::Pubkey::new_from_array(from.bytes.as_slice().try_into().unwrap());
    let t = solana_sdk::pubkey::Pubkey::new_from_array(to.bytes.as_slice().try_into().unwrap());
    let ix = solana_system_interface::instruction::transfer(&f, &t, lamports);
    BuiltInstruction {
        program_id: Pubkey { bytes: ix.program_id.to_bytes().to_vec() },
        accounts: ix.accounts.into_iter().map(|a| InstructionAccount {
            pubkey: Pubkey { bytes: a.pubkey.to_bytes().to_vec() }, is_signer: a.is_signer, is_writable: a.is_writable,
        }).collect(),
        data: ix.data,
    }
}

/// Relies on `spl_token::instruction::initialize_mint`: succeeds exactly
/// when the given program id is the SPL token program's; the payload is
/// tag 0, the decimals, the mint authority, and the freeze authority
/// behind a one-byte option tag; the accounts are the mint (writable) and
/// the rent sysvar (readonly).
#[verifier::external_body]
pub fn initialize_mint_instruction(
    token_program: &Pubkey,
    mint: &Pubkey,
    mint_authority: &Pubkey,
    freeze_authority: &Pubkey,
    decimals: u8,
) -> (r: Result<BuiltInstruction, ()>)
    requires
        token_program.wf(),
        mint.wf(),
        mint_authority.wf(),
        freeze_authority.wf(),
    ensures
        r is Ok <==> base58_encoding(token_program.bytes@) == token_program_address(),
        r matches Ok(ix) ==> {
            &&& ix.wf()
            &&& ix.program_id.bytes@ == token_program.bytes@
            &&& ix.accounts@.len() == 2
            &&& ix.accounts@[0].is(mint.bytes@, false, true)
            &&& ix.accounts@[1].is_signer == false
            &&& ix.accounts@[1].is_writable == false
            &&& base58_encoding(ix.accounts@[1].pubkey.bytes@) == rent_sysvar_address()
            &&& ix.data@ == seq![0u8, decimals] + mint_authority.bytes@ + seq![1u8]
                + freeze_authority.bytes@
        },
{
    let conv = |p: &Pubkey| spl_token::solana_program::pubkey::Pubkey::new_from_array(p.bytes.as_slice().try_into().unwrap());
    let fa = conv(freeze_authority);
    match spl_token::instruction::initialize_mint(&conv(token_program), &conv(mint), &conv(mint_authority), Some(&fa), decimals) {
        Ok(ix) => Ok(BuiltInstruction {
            program_id: Pubkey { bytes: ix.program_id.to_bytes().to_vec() },
            accounts: ix.accounts.into_iter().map(|a| InstructionAccount {
                pubkey: Pubkey { bytes: a.pubkey.to_bytes().to_vec() }, is_signer: a.is_signer, is_writable: a.is_writable,
            }).collect(),
            data: ix.data,
        }),
        Err(_) => Err(()),
    }
}

/// Relies on `spl_token::instruction::mint_to` with no extra signers:
/// succeeds exactly when the given program id is the SPL token program's;
/// the payload is tag 7 followed by the amount in little-endian order; the
/// accounts are the mint (writable), the destination account (writable)
/// and the mint authority (readonly signer).
#[verifier::external_body]
pub fn mint_to_instruction(
    token_program: &Pubkey,
    mint: &Pubkey,
    account: &Pubkey,
    authority: &Pubkey,
    amount: u64,
) -> (r: Result<BuiltInstruction, ()>)
    requires
        token_program.wf(),
        mint.wf(),
        account.wf(),
        authority.wf(),
    ensures
        r is Ok <==> base58_encoding(token_program.bytes@) == token_program_address(),
        r matches Ok(ix) ==> {
            &&& ix.wf()
            &&& ix.program_id.bytes@ == token_program.bytes@
            &&& ix.accounts@.len() == 3
            &&& ix.accounts@[0].is(mint.bytes@, false, true)
            &&& ix.accounts@[1].is(account.bytes@, false, true)
            &&& ix.accounts@[2].is(authority.bytes@, true, false)
            &&& ix.data@ == seq![7u8] + vstd::bytes::spec_u64_to_le_bytes(amount)
        },
{
    let conv = |p: &Pubkey| spl_token::solana_program::pubkey::Pubkey::new_from_array(p.bytes.as_slice().try_into().unwrap());
    match spl_token::instruction::mint_to(&conv(token_program), &conv(mint), &conv(account), &conv(authority), &[], amount) {
        Ok(ix) => Ok(BuiltInstruction {
            program_id: Pubkey { bytes: ix.program_id.to_bytes().to_vec() },
            accounts: ix.accounts.into_iter().map(|a| InstructionAccount {
                pubkey: Pubkey { bytes: a.pubkey.to_bytes().to_vec() }, is_signer: a.is_signer, is_writable: a.is_writable,
            }).collect(),
            data: ix.data,
        }),
        Err(_) => Err(()),
    }
}

/// Relies on `spl_token::instruction::transfer` with no extra signers:
/// succeeds exactly when the given program id is the SPL token program's;
/// the payload is tag 3 followed by the amount in little-endian order; the
/// accounts are the source (writable), the destination (writable) and the
/// authority (readonly signer).
#[verifier::external_body]
pub fn token_transfer_instruction(
    token_program: &Pubkey,
    source: &Pubkey,
    destination: &Pubkey,
    authority: &Pubkey,
    amount: u64,
) -> (r: Result<BuiltInstruction, ()>)
    requires
        token_program.wf(),
        source.wf(),
        destination.wf(),
        authority.wf(),
    ensures
        r is Ok <==> base58_encoding(token_program.bytes@) == token_program_address(),
        r matches Ok(ix) ==> {
            &&& ix.wf()
            &&& ix.program_id.bytes@ == token_program.bytes@
            &&& ix.accounts@.len() == 3
            &&& ix.accounts@[0].is(source.bytes@, false, true)
            &&& ix.accounts@[1].is(destination.bytes@, false, true)
            &&& ix.accounts@[2].is(authority.bytes@, true, false)
            &&& ix.data@ == seq![3u8] + vstd::bytes::spec_u64_to_le_bytes(amount)
        },
{
    let conv = |p: &Pubkey| spl_token::solana_program::pubkey::Pubkey::new_from_array(p.bytes.as_slice().try_into().unwrap());
    match spl_token::instruction::transfer(&conv(token_program), &conv(source), &conv(destination), &conv(authority), &[], amount) {
        Ok(ix) => Ok(BuiltInstruction {
            program_id: Pubkey { bytes: ix.program_id.to_bytes().to_vec() },
            accounts: ix.accounts.into_iter().map(|a| InstructionAccount {
                pubkey: Pubkey { bytes: a.pubkey.to_bytes().to_vec() }, is_signer: a.is_signer, is_writable: a.is_writable,
            }).collect(),
            data: ix.data,
        }),
        Err(_) => Err(()),
    }
}

/// Relies on `spl_associated_token_account::get_associated_token_address`:
/// the deterministic associated token account of a wallet and a mint.
#[verifier::external_body]
pub fn derive_associated_token_account(wallet: &Pubkey, mint: &Pubkey) -> (r: Pubkey)
    requires
        wallet.wf(),
        mint.wf(),
    ensures
        r.wf(),
        r.bytes@ == associated_token_address(wallet.bytes@, mint.bytes@),
{
    let w = spl_token::solana_program::pubkey::Pubkey::new_from_array(
        wallet.bytes.as_slice().try_into().unwrap());
    let m = spl_token::solana_program::pubkey::Pubkey::new_from_array(
        mint.bytes.as_slice().try_into().unwrap());
    let a = spl_associated_token_account::get_associated_token_address(&w, &m);
    Pubkey { bytes: a.to_bytes().to_vec() }
}

} // verus!
