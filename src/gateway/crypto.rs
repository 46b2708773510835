use vstd::prelude::*;

use crate::error::ContractError;

verus! {

/// The SHA-256 digest of `data`.
pub uninterp spec fn sha256_of(data: Seq<u8>) -> Seq<u8>;

/// The RIPEMD-160 digest of `data`.
pub uninterp spec fn ripemd160_of(data: Seq<u8>) -> Seq<u8>;

/// The bech32 string of `data` under human-readable part `hrp`, if `hrp` is valid.
pub uninterp spec fn bech32_of(hrp: Seq<char>, data: Seq<u8>) -> Option<Seq<char>>;

/// The verdict of secp256k1 verification of `signature` over the 32-byte `hash` under
/// `public_key`; none where an input is malformed.
pub uninterp spec fn secp256k1_outcome(hash: Seq<u8>, signature: Seq<u8>, public_key: Seq<u8>) -> Option<bool>;

/// Relies on sha2's `Sha256::digest`: a function of the bytes alone, 32 bytes long.
#[verifier::external_body]
fn sha256(data: &Vec<u8>) -> (r: Vec<u8>)
    ensures
        r@ == sha256_of(data@),
        r@.len() == 32,
{
    <sha2::Sha256 as sha2::Digest>::digest(data.as_slice()).to_vec()
}

/// Relies on ripemd's `Ripemd160::digest`: a function of the bytes alone, 20 bytes long.
#[verifier::external_body]
fn ripemd160(data: &Vec<u8>) -> (r: Vec<u8>)
    ensures
        r@ == ripemd160_of(data@),
        r@.len() == 20,
{
    <ripemd::Ripemd160 as ripemd::Digest>::digest(data.as_slice()).to_vec()
}

/// Relies on bech32's `encode` with the BIP-173 (`Bech32`) checksum; it fails only on an
/// invalid human-readable part.
#[verifier::external_body]
fn bech32_encode(hrp: &str, data: &Vec<u8>) -> (r: Option<String>)
    ensures
        match r {
            Some(s) => bech32_of(hrp@, data@) == Some(s@),
            None => bech32_of(hrp@, data@) is None,
        },
{
    bech32::encode(hrp, bech32::ToBase32::to_base32(data), bech32::Variant::Bech32).ok()
}

/// Relies on cosmwasm_std's `Api::secp256k1_verify` of the native `MockApi`, which runs
/// cosmwasm_crypto's verifier: a verdict that depends on the three inputs alone, and an
/// error on malformed input.
#[verifier::external_body]
fn secp256k1_check(hash: &Vec<u8>, signature: &Vec<u8>, public_key: &Vec<u8>) -> (r: Option<bool>)
    ensures
        r == secp256k1_outcome(hash@, signature@, public_key@),
{
    cosmwasm_std::Api::secp256k1_verify(
        &cosmwasm_std::testing::MockApi::default(),
        hash.as_slice(),
        signature.as_slice(),
        public_key.as_slice(),
    ).ok()
}

/// The address of `public_key` under `hrp`: bech32 of the RIPEMD-160 of its SHA-256.
pub open spec fn derived_address(hrp: Seq<char>, public_key: Seq<u8>) -> Option<Seq<char>> {
    bech32_of(hrp, ripemd160_of(sha256_of(public_key)))
}

/// The address of `public_key` under `hrp`, if `hrp` is a valid prefix.
pub fn pub_to_addr(public_key: &Vec<u8>, hrp: &str) -> (r: Option<String>)
    ensures
        match r {
            Some(s) => derived_address(hrp@, public_key@) == Some(s@),
            None => derived_address(hrp@, public_key@) is None,
        },
{
    let digest = sha256(public_key);
    let hash = ripemd160(&digest);
    bech32_encode(hrp, &hash)
}

/// Whether a derived address (`derived`) names `owner`; anything else is a key that does
/// not belong to the owner.
pub fn check_key_owner(derived: Option<String>, owner: &String) -> (r: Result<(), ContractError>)
    ensures
        r is Ok <==> (derived is Some && derived->Some_0@ == owner@),
        r is Err ==> r == Err::<(), ContractError>(ContractError::InvalidPubKey {  }),
{
    match derived {
        Some(a) => if a == *owner {
            Ok(())
        } else {
            Err(ContractError::InvalidPubKey {  })
        },
        None => Err(ContractError::InvalidPubKey {  }),
    }
}

/// Whether `public_key` derives, under `hrp`, to `owner`.
pub fn assert_key_of(public_key: &Vec<u8>, hrp: &str, owner: &String) -> (r: Result<(), ContractError>)
    ensures
        r is Ok <==> derived_address(hrp@, public_key@) == Some(owner@),
        r is Err ==> r == Err::<(), ContractError>(ContractError::InvalidPubKey {  }),
{
    check_key_owner(pub_to_addr(public_key, hrp), owner)
}

/// What a verifier's verdict means for a signed batch: only a clean `true` accepts it.
pub fn check_signature_verdict(verdict: Option<bool>) -> (r: Result<(), ContractError>)
    ensures
        r is Ok <==> verdict == Some(true),
        r is Err ==> r == Err::<(), ContractError>(ContractError::InvalidPubKey {  }),
{
    match verdict {
        Some(true) => Ok(()),
        _ => Err(ContractError::InvalidPubKey {  }),
    }
}

/// Whether `signature` signs the SHA-256 of `msgs` under `public_key`.
pub fn verify_batch(msgs: &Vec<u8>, signature: &Vec<u8>, public_key: &Vec<u8>) -> (r: Result<
    (),
    ContractError,
>)
    ensures
        r is Ok <==> secp256k1_outcome(sha256_of(msgs@), signature@, public_key@) == Some(true),
        r is Err ==> r == Err::<(), ContractError>(ContractError::InvalidPubKey {  }),
{
    let digest = sha256(msgs);
    check_signature_verdict(secp256k1_check(&digest, signature, public_key))
}

/// The lower-case hexadecimal digit of `n < 16`.
pub open spec fn hex_digit(n: u8) -> char {
    if n < 10 {
        (48 + n) as char
    } else {
        (87 + n) as char
    }
}

/// Two lower-case hexadecimal digits per byte.
pub open spec fn hex_of(bytes: Seq<u8>) -> Seq<char>
    decreases bytes.len(),
{
    if bytes.len() == 0 {
        Seq::empty()
    } else {
        hex_of(bytes.drop_last()) + seq![
            hex_digit(bytes.last() / 16),
            hex_digit(bytes.last() % 16),
        ]
    }
}

fn hex_char(n: u8) -> (r: char)
    requires
        n < 16,
    ensures
        r == hex_digit(n),
{
    if n < 10 {
        (48 + n) as char
    } else {
        (87 + n) as char
    }
}

/// `bytes` in lower-case hexadecimal.
pub fn to_hex(bytes: &Vec<u8>) -> (r: String)
    ensures
        r@ == hex_of(bytes@),
{
    let mut out: Vec<char> = Vec::new();
    let mut i: usize = 0;
    while i < bytes.len()
        invariant
            i <= bytes@.len(),
            out@ == hex_of(bytes@.take(i as int)),
        decreases bytes@.len() - i,
    {
        proof {
            assert(bytes@.take(i + 1).drop_last() =~= bytes@.take(i as int));
        }
        let b = bytes[i];
        out.push(hex_char(b / 16));
        out.push(hex_char(b % 16));
        proof {
            assert(out@ =~= hex_of(bytes@.take(i + 1)));
        }
        i = i + 1;
    }
    proof {
        assert(bytes@.take(i as int) =~= bytes@);
    }
    string_of_chars(&out)
}

/// Relies on std's `String: FromIterator<char>`: the characters, in order.
#[verifier::external_body]
fn string_of_chars(cs: &Vec<char>) -> (r: String)
    ensures
        r@ == cs@,
{
    cs.iter().collect()
}

} // verus!
