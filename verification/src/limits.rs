//! The sizes that the host's storage takes.
//!
//! A record lives under a key made of the ledger's prefix byte, four bytes of
//! length and the session identifier in UTF-8; the host takes a key of up to
//! 2048 bytes. Its value is made of the score hash and the attester in UTF-8,
//! four bytes of length before each, and eight bytes of timestamp; the host
//! takes a value of up to 4,194,304 bytes.

use vstd::prelude::*;
use vstd::utf8::{encode_scalar, encode_utf8};

verus! {

/// The longest session identifier, in bytes of UTF-8, whose key the host
/// takes.
pub const MAX_SESSION_ID_BYTES: usize = 2043;

/// The most bytes of UTF-8 that the score hash and the attester of one
/// record may have together.
pub const MAX_RECORD_TEXT_BYTES: usize = 4_194_288;

/// How many bytes a text has in UTF-8.
pub open spec fn byte_len(text: Seq<char>) -> nat {
    encode_utf8(text).len()
}

/// Whether the host takes the key of this session identifier. An identifier
/// of up to 510 characters always fits, since no character takes more than
/// four bytes.
pub open spec fn session_fits(session_id: Seq<char>) -> bool {
    session_id.len() <= 510 || byte_len(session_id) <= MAX_SESSION_ID_BYTES
}

/// Whether the host takes a record with this score hash and this attester.
/// Texts of up to 1,048,572 characters together always fit.
pub open spec fn record_fits(score_hash: Seq<char>, attester: Seq<char>) -> bool {
    score_hash.len() + attester.len() <= 1_048_572 || byte_len(score_hash) + byte_len(attester)
        <= MAX_RECORD_TEXT_BYTES
}

/// A text has at least one byte and at most four bytes for each character.
pub proof fn lemma_byte_len_bounds(text: Seq<char>)
    ensures
        text.len() <= byte_len(text) <= 4 * text.len(),
    decreases text.len(),
{
    if text.len() > 0 {
        let first = encode_scalar(text[0] as u32);
        assert(1 <= first.len() <= 4);
        lemma_byte_len_bounds(text.drop_first());
        assert(encode_utf8(text) == first + encode_utf8(text.drop_first()));
    }
}

/// Decides whether the host takes the key of `session_id`.
pub fn is_session_within_limit(session_id: &str) -> (fits: bool)
    ensures
        fits == session_fits(session_id@),
{
    proof {
        lemma_byte_len_bounds(session_id@);
    }
    session_id.as_bytes().len() <= MAX_SESSION_ID_BYTES
}

/// Decides whether the host takes a record with `score_hash` and `attester`.
pub fn is_record_within_limit(score_hash: &str, attester: &str) -> (fits: bool)
    ensures
        fits == record_fits(score_hash@, attester@),
{
    proof {
        lemma_byte_len_bounds(score_hash@);
        lemma_byte_len_bounds(attester@);
    }
    let hash_bytes: usize = score_hash.as_bytes().len();
    let attester_bytes: usize = attester.as_bytes().len();
    hash_bytes <= MAX_RECORD_TEXT_BYTES && attester_bytes <= MAX_RECORD_TEXT_BYTES - hash_bytes
}

} // verus!
