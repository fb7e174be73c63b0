//! The calls this library makes into the Soroban host, each behind a
//! specification that the host's documentation states and that Verus takes
//! on trust.
use vstd::prelude::*;
use soroban_sdk::Env;

verus! {

/// The Soroban environment handle; opaque here, only passed to host calls.
#[verifier::external_type_specification]
#[verifier::external_body]
pub struct ExEnv(Env);

/// SHA-256 of a byte string, as the host computes it.
pub uninterp spec fn sha256_digest(data: Seq<u8>) -> Seq<u8>;

/// Calls `soroban_sdk::crypto::Crypto::sha256` on `data` (copied into host
/// bytes) and returns the 32-byte digest. The contract claims that the digest
/// is SHA-256 of `data`, a function of the bytes alone. The host meters the
/// call against the environment's budget and stops the invocation when the
/// budget runs out; that budget is not modelled here.
#[verifier::external_body]
pub fn host_sha256(env: &Env, data: &[u8]) -> (r: [u8; 32])
    ensures
        r@ == sha256_digest(data@),
{
    let bytes = soroban_sdk::Bytes::from_slice(env, data);
    env.crypto().sha256(&bytes).to_array()
}

} // verus!
