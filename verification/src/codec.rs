//! Byte images of the values that are kept in storage cells.

use vstd::prelude::*;
use crate::account::AccountId;

verus! {

/// The image of a 32-bit word: its four bytes, least significant first.
pub open spec fn word_image(value: u32) -> Seq<u8> {
    seq![
        (value % 256) as u8,
        (value / 256 % 256) as u8,
        (value / 65536 % 256) as u8,
        (value / 16777216) as u8,
    ]
}

/// The word whose image the first four bytes of `bytes` are.
pub open spec fn word_at(bytes: Seq<u8>) -> u32
    recommends
        bytes.len() >= 4,
{
    (bytes[0] + 256 * bytes[1] + 65536 * bytes[2] + 16777216 * bytes[3]) as u32
}

/// What a cell that holds `bytes` reads as when a word is expected: the
/// word at its start, or nothing when the cell is too short to hold one.
pub open spec fn word_read(bytes: Seq<u8>) -> Option<u32> {
    if bytes.len() >= 4 {
        Some(word_at(bytes))
    } else {
        None
    }
}

/// What a cell that holds `bytes` reads as when an identity is expected:
/// its first 32 bytes, or nothing when the cell is shorter than that.
pub open spec fn account_read(bytes: Seq<u8>) -> Option<Seq<u8>> {
    if bytes.len() >= 32 {
        Some(bytes.subrange(0, 32))
    } else {
        None
    }
}

/// A word that is written and read back is the word that was written,
/// whatever follows its image in the cell.
pub proof fn lemma_word_read_back(value: u32, rest: Seq<u8>)
    ensures
        word_image(value).len() == 4,
        word_read(word_image(value) + rest) == Some(value),
{
}

/// An identity that is written and read back is the identity that was
/// written, whatever follows its image in the cell.
pub proof fn lemma_account_read_back(id: Seq<u8>, rest: Seq<u8>)
    requires
        id.len() == 32,
    ensures
        account_read(id + rest) == Some(id),
{
    assert((id + rest).subrange(0, 32) =~= id);
}

/// The image of `value`, as `<u32 as parity_scale_codec::Encode>::encode`
/// produces it: that impl hands out `value.to_le_bytes()`, four bytes with
/// the least significant first.
#[verifier::external_body]
pub(crate) fn encode_word(value: u32) -> (bytes: Vec<u8>)
    ensures
        bytes@ == word_image(value),
{
    parity_scale_codec::Encode::encode(&value)
}

/// The word at the start of `bytes`, as
/// `<u32 as parity_scale_codec::Decode>::decode` reads it from a byte slice:
/// that impl fails when fewer than four bytes are left, and otherwise takes
/// the first four as a little-endian number and leaves the rest unread.
#[verifier::external_body]
pub(crate) fn decode_word(bytes: &[u8]) -> (word: Option<u32>)
    ensures
        word == word_read(bytes@),
{
    let mut input = bytes;
    <u32 as parity_scale_codec::Decode>::decode(&mut input).ok()
}

/// The image of an identity: its 32 bytes.
pub fn account_image(id: &AccountId) -> (bytes: Vec<u8>)
    ensures
        bytes@ == id@,
{
    let mut bytes: Vec<u8> = Vec::new();
    let mut i: usize = 0;
    while i < 32
        invariant
            i <= 32,
            bytes@ == id@.subrange(0, i as int),
        decreases 32 - i,
    {
        bytes.push(id.bytes[i]);
        assert(bytes@ =~= id@.subrange(0, i + 1));
        i += 1;
    }
    assert(id@.subrange(0, 32) =~= id@);
    bytes
}

/// The identity at the start of `bytes`, if 32 bytes are there.
pub fn read_account(bytes: &[u8]) -> (id: Option<AccountId>)
    ensures
        match id {
            Some(found) => account_read(bytes@) == Some(found@),
            None => account_read(bytes@) is None,
        },
{
    if bytes.len() < 32 {
        return None;
    }
    let mut raw: [u8; 32] = [0u8; 32];
    let mut i: usize = 0;
    while i < 32
        invariant
            i <= 32,
            bytes@.len() >= 32,
            forall|j: int| 0 <= j < i ==> raw@[j] == bytes@[j],
        decreases 32 - i,
    {
        raw[i] = bytes[i];
        i += 1;
    }
    assert(raw@ =~= bytes@.subrange(0, 32));
    Some(AccountId::new(raw))
}

} // verus!
