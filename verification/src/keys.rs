//! Key utilities around the host chain's Ed25519 keypairs: generation,
//! recovery from base58 or base64 encodings, and public-key extraction.
//! The cryptography itself is the outside crates' work; this module
//! checks lengths, routes encodings, and assembles the JSON description
//! of a fresh keypair.

use vstd::prelude::*;
use vstd::string::StringExecFns;
use solana_sdk::pubkey::Pubkey;
use solana_sdk::signature::Keypair;
use solana_sdk::signature::Signer;

verus! {

/// Why a key could not be recovered from the given material.
#[derive(Clone, Copy, Debug, PartialEq, Eq, Structural)]
pub enum KeyError {
    /// The string is not valid base58 or base64.
    InvalidEncoding,
    /// The bytes do not form a valid keypair or public key.
    InvalidKey,
    /// The byte string has a length no key material can have.
    InvalidLength,
}

#[verifier::external_type_specification]
#[verifier::external_body]
pub struct ExKeypair(Keypair);

#[verifier::external_type_specification]
#[verifier::external_body]
pub struct ExPubkey(Pubkey);

/// Relies on solana_sdk's Keypair::generate with the operating system's
/// entropy source: a fresh random Ed25519 keypair, of which nothing can
/// be promised.
#[verifier::external_body]
pub fn generate_keypair() -> Keypair {
    let mut rng = rand::rngs::OsRng;
    Keypair::generate(&mut rng)
}

/// Relies on solana_sdk's Keypair::to_bytes: the 64-byte form of a
/// keypair, the 32 secret-key bytes then the 32 public-key bytes.
#[verifier::external_body]
fn keypair_to_bytes(keypair: &Keypair) -> (r: Vec<u8>)
    ensures
        r@.len() == 64,
{
    keypair.to_bytes().to_vec()
}

/// Relies on solana_sdk's Keypair::from_bytes: recovery of a keypair
/// from its 64-byte form, which fails on any other length (and on 64
/// bytes whose public half is not a valid curve point).
#[verifier::external_body]
fn keypair_from_bytes_checked(bytes: &[u8]) -> (r: Option<Keypair>)
    ensures
        bytes@.len() != 64 ==> r is None,
{
    match Keypair::from_bytes(bytes) {
        Ok(keypair) => Some(keypair),
        Err(_) => None,
    }
}

/// Relies on solana_sdk's Signer::pubkey for Keypair: the public half of
/// a keypair.
#[verifier::external_body]
fn keypair_pubkey(keypair: &Keypair) -> Pubkey {
    keypair.pubkey()
}

/// Relies on solana_sdk's TryFrom<&[u8]> for Pubkey: a public key from
/// exactly 32 bytes, failing on every other length.
#[verifier::external_body]
fn pubkey_try_from_bytes(bytes: &[u8]) -> (r: Option<Pubkey>)
    ensures
        r is Some <==> bytes@.len() == 32,
{
    Pubkey::try_from(bytes).ok()
}

/// Relies on solana_sdk's Display for Pubkey: the base58 string of a
/// public key.
#[verifier::external_body]
fn pubkey_to_string(pubkey: &Pubkey) -> String {
    pubkey.to_string()
}

/// Relies on base64's encode (the padded standard alphabet): four output
/// characters for every three input bytes, the last group padded.
#[verifier::external_body]
fn b64_encode(bytes: &[u8]) -> (r: String)
    ensures
        r@.len() == 4 * ((bytes@.len() + 2) / 3),
{
    base64::encode(bytes)
}

/// Relies on base64's decode (the padded standard alphabet): the bytes a
/// base64 string spells, or nothing where the string is not base64.
#[verifier::external_body]
fn b64_decode(s: &str) -> Option<Vec<u8>> {
    base64::decode(s).ok()
}

/// Relies on bs58's decode: the bytes a base58 string spells, or nothing
/// where the string is not base58.
#[verifier::external_body]
fn bs58_decode_vec(s: &str) -> Option<Vec<u8>> {
    bs58::decode(s).into_vec().ok()
}

/// Relies on spl_token's id: the token program's own identity.
#[verifier::external_body]
fn spl_token_program_id() -> Pubkey {
    spl_token::id()
}

/// Relies on spl_associated_token_account's
/// get_associated_token_address_with_program_id: the derived address of
/// the wallet's associated token account for the given mint under the
/// given token program.
#[verifier::external_body]
fn associated_token_address(
    wallet_address: &Pubkey,
    token_mint_address: &Pubkey,
    token_program_id: &Pubkey,
) -> Pubkey {
    spl_associated_token_account::get_associated_token_address_with_program_id(
        wallet_address,
        token_mint_address,
        token_program_id,
    )
}

/// The JSON document describing a keypair: its public key and its
/// base64-encoded 64-byte secret form.
pub open spec fn spec_keypair_json(pubkey: Seq<char>, secret_b64: Seq<char>) -> Seq<char> {
    "{\n  \"pubkey\": \""@ + pubkey + "\",\n  \"secretKey\": \""@ + secret_b64 + "\"\n}"@
}

/// Renders the JSON document for an already-extracted public-key string
/// and base64 secret form.
pub fn render_keypair_json(pubkey: &String, secret_b64: &String) -> (r: String)
    ensures
        r@ == spec_keypair_json(pubkey@, secret_b64@),
{
    let mut out = String::from_str("{\n  \"pubkey\": \"");
    out.append(pubkey.as_str());
    out.append("\",\n  \"secretKey\": \"");
    out.append(secret_b64.as_str());
    out.append("\"\n}");
    assert(out@ =~= spec_keypair_json(pubkey@, secret_b64@));
    out
}

/// Generates a fresh keypair and renders its JSON description. The key
/// material is random, so only the document's shape is promised: it is
/// the JSON rendering of some public-key string and an 88-character
/// base64 secret (the padded encoding of 64 bytes).
pub fn generate_keypair_json() -> (r: String)
    ensures
        exists|pk: Seq<char>, sec: Seq<char>|
            r@ == #[trigger] spec_keypair_json(pk, sec) && sec.len() == 88,
{
    let keypair = generate_keypair();
    let secret_bytes = keypair_to_bytes(&keypair);
    let pubkey_string = pubkey_to_string(&keypair_pubkey(&keypair));
    let secret_b64 = b64_encode(secret_bytes.as_slice());
    let r = render_keypair_json(&pubkey_string, &secret_b64);
    assert(r@ == spec_keypair_json(pubkey_string@, secret_b64@) && secret_b64@.len() == 88);
    r
}

/// Recovers a keypair from a base58-encoded 64-byte form.
pub fn keypair_from_base58(base58_string: &str) -> (r: Result<Keypair, KeyError>)
    ensures
        r matches Err(e) ==> e == KeyError::InvalidEncoding || e == KeyError::InvalidKey,
{
    let bytes = match bs58_decode_vec(base58_string) {
        Some(b) => b,
        None => {
            return Err(KeyError::InvalidEncoding);
        },
    };
    match keypair_from_bytes_checked(bytes.as_slice()) {
        Some(keypair) => Ok(keypair),
        None => Err(KeyError::InvalidKey),
    }
}

/// Recovers a keypair from a base64-encoded 64-byte form.
pub fn keypair_from_base64(base64_string: &str) -> (r: Result<Keypair, KeyError>)
    ensures
        r matches Err(e) ==> e == KeyError::InvalidEncoding || e == KeyError::InvalidKey,
{
    let bytes = match b64_decode(base64_string) {
        Some(b) => b,
        None => {
            return Err(KeyError::InvalidEncoding);
        },
    };
    match keypair_from_bytes_checked(bytes.as_slice()) {
        Some(keypair) => Ok(keypair),
        None => Err(KeyError::InvalidKey),
    }
}

/// Recovers a public key from raw key material: the public half of a
/// 64-byte keypair form, or a 32-byte public key as it stands. Exactly
/// the other lengths are rejected as `InvalidLength`, and 32 bytes
/// always succeed.
pub fn pubkey_from_bytes(bytes: &[u8]) -> (r: Result<Pubkey, KeyError>)
    ensures
        bytes@.len() != 64 && bytes@.len() != 32 ==> r == Err::<Pubkey, KeyError>(
            KeyError::InvalidLength,
        ),
        bytes@.len() == 32 ==> r is Ok,
        r matches Err(e) ==> e == KeyError::InvalidLength || e == KeyError::InvalidKey,
{
    if bytes.len() != 64 && bytes.len() != 32 {
        return Err(KeyError::InvalidLength);
    }
    if bytes.len() == 64 {
        match keypair_from_bytes_checked(bytes) {
            Some(keypair) => Ok(keypair_pubkey(&keypair)),
            None => Err(KeyError::InvalidKey),
        }
    } else {
        match pubkey_try_from_bytes(bytes) {
            Some(pubkey) => Ok(pubkey),
            None => Err(KeyError::InvalidKey),
        }
    }
}

/// Derives the associated token account address for a wallet and a token
/// mint, both given as base58 strings. A string that is not base58 fails
/// `InvalidEncoding`; one that spells other than 32 bytes fails
/// `InvalidLength`. With two well-formed addresses the derivation always
/// succeeds.
pub fn get_associated_token_address(wallet_address: &str, token_mint: &str) -> (r: Result<
    String,
    KeyError,
>)
    ensures
        r matches Err(e) ==> e == KeyError::InvalidEncoding || e == KeyError::InvalidLength,
{
    let wallet_bytes = match bs58_decode_vec(wallet_address) {
        Some(b) => b,
        None => {
            return Err(KeyError::InvalidEncoding);
        },
    };
    let wallet = match pubkey_try_from_bytes(wallet_bytes.as_slice()) {
        Some(p) => p,
        None => {
            return Err(KeyError::InvalidLength);
        },
    };
    let mint_bytes = match bs58_decode_vec(token_mint) {
        Some(b) => b,
        None => {
            return Err(KeyError::InvalidEncoding);
        },
    };
    let mint = match pubkey_try_from_bytes(mint_bytes.as_slice()) {
        Some(p) => p,
        None => {
            return Err(KeyError::InvalidLength);
        },
    };
    let address = associated_token_address(&wallet, &mint, &spl_token_program_id());
    Ok(pubkey_to_string(&address))
}

} // verus!
