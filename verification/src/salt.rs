//! The salt under which a creator's project instance is deployed: the
//! SHA-256 digest of the creator's address in its XDR encoding.

use crate::address::{Address, AddressKind};
use soroban_sdk::address_payload::AddressPayload;
use soroban_sdk::xdr::ToXdr;
use vstd::prelude::*;

verus! {

/// The SHA-256 digest of `data`.
pub uninterp spec fn sha256_digest(data: Seq<u8>) -> Seq<u8>;

/// `ToXdr::to_xdr` of `soroban_sdk`, on the address rebuilt from its kind
/// and key by `Address::from_payload`. Trusted: the bytes are the value tag
/// 18, the kind tag (0 with key type 0 for an account, 1 for a contract)
/// and the key, as `Address::xdr` spells out.
#[verifier::external_body]
fn address_xdr(address: &Address) -> (bytes: Vec<u8>)
    ensures
        bytes@ == address.xdr(),
{
    let env = soroban_sdk::Env::default();
    let key = soroban_sdk::BytesN::from_array(&env, &address.key);
    let payload = match address.kind {
        AddressKind::Account => AddressPayload::AccountIdPublicKeyEd25519(key),
        AddressKind::Contract => AddressPayload::ContractIdHash(key),
    };
    let outside = soroban_sdk::Address::from_payload(&env, payload);
    outside.to_xdr(&env).iter().collect()
}

/// `Crypto::sha256` of `soroban_sdk`. Trusted: the result is the SHA-256
/// digest of `data`. The host meters the hash against a fixed budget and
/// fails beyond it; an input of at most 1024 bytes stays far below.
#[verifier::external_body]
fn sha256(data: &Vec<u8>) -> (digest: [u8; 32])
    requires
        data@.len() <= 1024,
    ensures
        digest@ == sha256_digest(data@),
{
    let env = soroban_sdk::Env::default();
    let bytes = soroban_sdk::Bytes::from_slice(&env, data);
    env.crypto().sha256(&bytes).to_array()
}

/// The salt that fixes where `creator`'s project instance is deployed. It
/// depends on the creator alone, so one creator has one deployment address.
pub fn deployment_salt(creator: &Address) -> (salt: [u8; 32])
    ensures
        salt@ == sha256_digest(creator.xdr()),
{
    let encoded = address_xdr(creator);
    sha256(&encoded)
}

} // verus!
