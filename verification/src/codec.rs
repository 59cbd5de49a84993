//! Encodings the library takes from outside crates: textual UUIDs (`uuid`),
//! SHA-256 digests (`sha2`) and hexadecimal text (`hex`).

use vstd::prelude::*;
use sha2::Digest;

verus! {

/// The lowercase hexadecimal digit for `d` (< 16).
pub open spec fn hex_digit(d: nat) -> char {
    if d < 10 { (('0' as nat) + d) as char } else { (('a' as nat) + (d - 10)) as char }
}

/// The last `width` hexadecimal digits of `x`, most significant first.
pub open spec fn hex_fixed(x: nat, width: nat) -> Seq<char>
    decreases width,
{
    if width == 0 {
        Seq::empty()
    } else {
        hex_fixed(x / 16, (width - 1) as nat).push(hex_digit(x % 16))
    }
}

/// `hex_fixed` has exactly `width` digits.
pub proof fn lemma_hex_fixed_len(x: nat, width: nat)
    ensures
        hex_fixed(x, width).len() == width,
    decreases width,
{
    if width > 0 {
        lemma_hex_fixed_len(x / 16, (width - 1) as nat);
    }
}

/// The text of a UUID has 36 characters, the first eight of them the
/// eight leading hex digits.
pub proof fn lemma_uuid_len(id: u128)
    ensures
        uuid_hyphenated(id).len() == 36,
        uuid_hyphenated(id).take(8) == hex_fixed(id as nat, 32).subrange(0, 8),
{
    lemma_hex_fixed_len(id as nat, 32);
    reveal_strlit("-");
    let h = hex_fixed(id as nat, 32);
    assert(uuid_hyphenated(id).take(8) =~= h.subrange(0, 8));
}

/// The hyphenated lowercase form of a UUID, its 32 hex digits grouped
/// 8-4-4-4-12.
pub open spec fn uuid_hyphenated(id: u128) -> Seq<char> {
    let h = hex_fixed(id as nat, 32);
    h.subrange(0, 8) + "-"@ + h.subrange(8, 12) + "-"@ + h.subrange(12, 16) + "-"@ + h.subrange(16, 20)
        + "-"@ + h.subrange(20, 32)
}

/// Two lowercase hexadecimal digits per byte.
pub open spec fn hex_bytes(bytes: Seq<u8>) -> Seq<char>
    decreases bytes.len(),
{
    if bytes.len() == 0 {
        Seq::empty()
    } else {
        hex_bytes(bytes.drop_last()) + hex_fixed(bytes.last() as nat, 2)
    }
}

/// The text of a UUID: `Uuid::from_u128` then `Uuid::to_string`, which
/// writes the hyphenated lowercase form.
#[verifier::external_body]
pub(crate) fn uuid_to_string(id: u128) -> (s: String)
    ensures
        s@ == uuid_hyphenated(id),
{
    uuid::Uuid::from_u128(id).to_string()
}

/// A version-4 UUID: version nibble 4 and the RFC 4122 variant bits `10`.
pub open spec fn is_v4_uuid(id: u128) -> bool {
    (id >> 76u128) & 0xfu128 == 4 && (id >> 62u128) & 0x3u128 == 2
}

/// `Uuid::new_v4`: random bits with the version and variant bits of a
/// version-4 UUID set. The other 122 bits are random; nothing is stated of
/// them.
#[verifier::external_body]
pub(crate) fn new_uuid_v4() -> (id: u128)
    ensures
        is_v4_uuid(id),
{
    uuid::Uuid::new_v4().as_u128()
}

/// The SHA-256 digest of a byte sequence.
pub uninterp spec fn sha256(data: Seq<u8>) -> Seq<u8>;

/// `Sha256::digest`: the 32-byte SHA-256 digest of `data`.
#[verifier::external_body]
pub(crate) fn sha256_digest(data: &[u8]) -> (d: Vec<u8>)
    ensures
        d@ == sha256(data@),
        d@.len() == 32,
{
    sha2::Sha256::digest(data).to_vec()
}

/// `hex::encode`: two lowercase hexadecimal digits per byte.
#[verifier::external_body]
pub(crate) fn hex_encode(data: &[u8]) -> (s: String)
    ensures
        s@ == hex_bytes(data@),
{
    hex::encode(data)
}

} // verus!
