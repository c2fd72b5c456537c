//! The group instance id that a genesis must carry.

use vstd::bytes::{spec_u64_to_le_bytes, u64_to_le_bytes};
use vstd::prelude::*;

verus! {

/// The 256-bit BLAKE2b digest of `data` under the personalization `personal`.
pub uninterp spec fn blake2b_256(personal: Seq<u8>, data: Seq<u8>) -> Seq<u8>;

/// Relies on blake2b_rs::Blake2bBuilder (new, personal, build) and
/// Blake2b::update / Blake2b::finalize: a 32-byte digest that depends on the
/// personalization and the data alone. `personal` panics above 16 bytes.
#[verifier::external_body]
fn blake2b_256_personal(personal: &[u8], data: &[u8]) -> (r: [u8; 32])
    requires
        personal@.len() <= 16,
    ensures
        r@ == blake2b_256(personal@, data@),
{
    let mut hasher = blake2b_rs::Blake2bBuilder::new(32).personal(personal).build();
    hasher.update(data);
    let mut r = [0u8; 32];
    hasher.finalize(&mut r);
    r
}

/// The personalization of the ledger's default hash, "ckb-default-hash".
pub const HASH_PERSONALIZATION: [u8; 16] = [
    0x63, 0x6b, 0x62, 0x2d, 0x64, 0x65, 0x66, 0x61, 0x75, 0x6c, 0x74, 0x2d, 0x68, 0x61, 0x73, 0x68,
];

pub open spec fn hash_personalization() -> Seq<u8> {
    seq![
        0x63u8, 0x6bu8, 0x62u8, 0x2du8, 0x64u8, 0x65u8, 0x66u8, 0x61u8,
        0x75u8, 0x6cu8, 0x74u8, 0x2du8, 0x68u8, 0x61u8, 0x73u8, 0x68u8,
    ]
}

/// The id bound to a genesis: the reference of the distinguished consumed
/// record followed by the number of produced group records, little-endian.
pub open spec fn type_id_of(first_input: Seq<u8>, outputs_count: u64) -> Seq<u8> {
    blake2b_256(hash_personalization(), first_input + spec_u64_to_le_bytes(outputs_count))
}

pub fn calculate_type_id(first_input: &[u8], outputs_count: u64) -> (r: [u8; 32])
    ensures
        r@ == type_id_of(first_input@, outputs_count),
{
    let mut data: Vec<u8> = Vec::new();
    let mut i: usize = 0;
    while i < first_input.len()
        invariant
            i <= first_input@.len(),
            data@ == first_input@.take(i as int),
        decreases first_input@.len() - i,
    {
        data.push(first_input[i]);
        i = i + 1;
    }
    let count = u64_to_le_bytes(outputs_count);
    let mut j: usize = 0;
    while j < count.len()
        invariant
            j <= count@.len(),
            i == first_input@.len(),
            data@ == first_input@ + count@.take(j as int),
        decreases count@.len() - j,
    {
        proof {
            assert(first_input@.take(i as int) =~= first_input@);
        }
        data.push(count[j]);
        j = j + 1;
        proof {
            assert(first_input@ + count@.take(j as int) =~= (first_input@ + count@.take(j - 1))
                .push(count@[j - 1]));
        }
    }
    let personal = HASH_PERSONALIZATION;
    assert(personal@ =~= hash_personalization());
    assert(count@.take(j as int) =~= count@);
    blake2b_256_personal(&personal, data.as_slice())
}

} // verus!
