//! Pseudonyms for Telegram user IDs.
use vstd::prelude::*;
use vstd::utf8::encode_utf8;

verus! {

/// The HMAC-SHA256 tag of a message under a key, as the `hmac` and `sha2`
/// crates compute it.
pub uninterp spec fn hmac_sha256_tag(key: Seq<u8>, message: Seq<u8>) -> Seq<u8>;

/// `hmac::Hmac::<sha2::Sha256>`, made from `key` with `new_from_slice` (which
/// takes a key of any length), fed `message` with `update`, and read with
/// `finalize`: the tag, which is 32 bytes long.
#[verifier::external_body]
fn hmac_sha256(key: &[u8], message: &[u8]) -> (tag: Vec<u8>)
    ensures
        tag@ == hmac_sha256_tag(key@, message@),
        tag@.len() == 32,
{
    let mut mac = <hmac::Hmac<sha2::Sha256> as hmac::Mac>::new_from_slice(key)
        .expect("HMAC accepts keys of any length");
    hmac::Mac::update(&mut mac, message);
    hmac::Mac::finalize(mac).into_bytes().to_vec()
}

/// The lowercase hexadecimal digit of `d`, for `d` below sixteen.
pub open spec fn hex_digit(d: int) -> char {
    if d < 10 {
        ('0' as int + d) as char
    } else {
        ('a' as int + (d - 10)) as char
    }
}

/// Two hexadecimal digits for each byte, the higher one first.
pub open spec fn hex_text(bytes: Seq<u8>) -> Seq<char> {
    Seq::new(
        2 * bytes.len(),
        |i: int|
            if i % 2 == 0 {
                hex_digit(bytes[i / 2] as int / 16)
            } else {
                hex_digit(bytes[i / 2] as int % 16)
            },
    )
}

/// `hex::encode`: two lowercase hexadecimal digits for each byte.
#[verifier::external_body]
fn hex_encode(bytes: &Vec<u8>) -> (text: String)
    ensures
        text@ == hex_text(bytes@),
{
    hex::encode(bytes)
}

/// The eight bytes of `n` in two's complement, the highest one first.
pub open spec fn be_bytes(n: i64) -> Seq<u8> {
    Seq::new(8, |i: int| ((n as u64) >> ((56 - 8 * i) as u64)) as u8)
}

/// The bytes of `n`, the highest one first.
fn to_be_bytes(n: i64) -> (bytes: Vec<u8>)
    ensures
        bytes@ == be_bytes(n),
{
    let u: u64 = n as u64;
    let mut bytes: Vec<u8> = Vec::new();
    let mut i: u64 = 0;
    while i < 8
        invariant
            i <= 8,
            u == n as u64,
            bytes@.len() == i,
            forall|j: int| 0 <= j < i ==> bytes@[j] == be_bytes(n)[j],
        decreases 8 - i,
    {
        bytes.push((u >> (56 - 8 * i)) as u8);
        i = i + 1;
    }
    bytes
}

/// The pseudonym of a user: the first 32 hexadecimal digits of the tag of the
/// ID's bytes under the salt.
pub open spec fn user_hash(telegram_id: i64, salt: Seq<char>) -> Seq<char> {
    hex_text(hmac_sha256_tag(encode_utf8(salt), be_bytes(telegram_id))).take(32)
}

/// The first 32 hexadecimal digits of a tag.
pub fn truncated_hex(tag: &Vec<u8>) -> (hash: String)
    requires
        tag@.len() >= 16,
    ensures
        hash@ == hex_text(tag@).take(32),
        hash@ == hex_text(tag@.take(16)),
        hash@.len() == 32,
{
    let full_hex = hex_encode(tag);
    let hash = full_hex.as_str().substring_char(0, 32);
    assert(full_hex@.subrange(0, 32) =~= full_hex@.take(32));
    assert(hash@ =~= hex_text(tag@.take(16)));
    hash.to_owned()
}

/// Deterministic pseudonymization of a Telegram user ID: 32 hexadecimal digits
/// (a truncated HMAC-SHA256), the same for the same ID and salt.
pub fn hash_user_id(telegram_id: i64, salt: &str) -> (hash: String)
    ensures
        hash@ == user_hash(telegram_id, salt@),
        hash@.len() == 32,
        forall|i: int| 0 <= i < 32 ==> is_hex_digit(#[trigger] hash@[i]),
{
    let message = to_be_bytes(telegram_id);
    let tag = hmac_sha256(salt.as_bytes(), message.as_slice());
    truncated_hex(&tag)
}

/// Whether `c` is a lowercase hexadecimal digit.
pub open spec fn is_hex_digit(c: char) -> bool {
    '0' <= c <= '9' || 'a' <= c <= 'f'
}

}
