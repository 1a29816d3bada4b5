//! The single-use staging key pair an upgrade stages its buffer under.

use vstd::prelude::*;

verus! {

/// The base58 address of the key pair with the given 64-byte encoding: what
/// Signer::pubkey followed by the address's base58 rendering computes. The
/// address is a function of the bytes alone, so it carries a name here
/// rather than a rendering written out.
pub uninterp spec fn staging_address_of(bytes: Seq<u8>) -> Seq<char>;

/// A staging key pair: the 64-byte secret-then-public encoding that the
/// external tools read from a keypair file, and the base58 address the
/// buffer will live at — the address of exactly these bytes.
pub struct StagingKey {
    pub keypair_bytes: Vec<u8>,
    pub address: String,
}

impl StagingKey {
    /// The bytes are a whole keypair encoding and the address belongs to
    /// them.
    pub open spec fn wf(self) -> bool {
        &&& self.keypair_bytes@.len() == 64
        &&& self.address@ == staging_address_of(self.keypair_bytes@)
    }
}

/// Relies on solana_sdk::signer::keypair::Keypair::new, which draws a fresh
/// random Ed25519 key pair (through rand's generator, seeded from the
/// operating system's entropy source), on Keypair::to_bytes, whose result is
/// the 64-byte secret-then-public encoding, and on Signer::pubkey with the
/// address's base58 rendering. The draw is random: nothing relates two
/// calls, and nothing is promised of the outcome beyond the encoding length
/// and that the returned address is the address of the returned bytes.
#[verifier::external_body]
fn generate_keypair() -> (r: (Vec<u8>, String))
    ensures
        r.0@.len() == 64,
        r.1@ == staging_address_of(r.0@),
{
    let kp = solana_sdk::signer::keypair::Keypair::new();
    let address = solana_sdk::signer::Signer::pubkey(&kp).to_string();
    (kp.to_bytes().to_vec(), address)
}

impl StagingKey {
    /// Draws a fresh staging key pair. Every call draws anew, so no two
    /// upgrades stage under the same address except by a failure of the
    /// entropy source.
    pub fn fresh() -> (r: StagingKey)
        ensures
            r.wf(),
    {
        let (keypair_bytes, address) = generate_keypair();
        StagingKey { keypair_bytes, address }
    }
}

} // verus!
