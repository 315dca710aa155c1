//! The logs of the other chain's bridge: how a transfer request is read out
//! of the topics and the data of a log.
//!
//! A transfer request is logged with four topics (the event's signature,
//! the committee id, the token and the receiver) and 64 bytes of data (the
//! amount and the nonce). Each integer is a word of 32 bytes, most
//! significant byte first.

use crate::handler::{CrosschainTransferRequestFilter, MostEvents};
use vstd::prelude::*;

verus! {

/// Why a log could not be read as a transfer request.
#[derive(Debug, Clone, Copy, PartialEq, Eq)]
pub enum LogError {
    /// The log has not four topics and 64 bytes of data.
    Malformed,
    /// One of the integers does not fit 128 bits.
    TooLarge,
}

/// The number that the bytes write, most significant byte first.
pub open spec fn be_value(bytes: Seq<u8>) -> nat
    decreases bytes.len(),
{
    if bytes.len() == 0 {
        0
    } else {
        be_value(bytes.drop_last()) * 256 + bytes.last() as nat
    }
}

/// The number that a word writes, where it fits 128 bits.
pub open spec fn word_value(word: Seq<u8>) -> Option<u128> {
    if be_value(word) <= u128::MAX {
        Some(be_value(word) as u128)
    } else {
        None
    }
}

/// The transfer request that a log with these topics and this data holds.
pub open spec fn logged_request(topics: Seq<[u8; 32]>, data: Seq<u8>) -> Result<
    MostEvents,
    LogError,
> {
    if topics.len() != 4 || data.len() != 64 {
        Err(LogError::Malformed)
    } else {
        match (
            word_value(topics[1]@),
            word_value(data.subrange(0, 32)),
            word_value(data.subrange(32, 64)),
        ) {
            (Some(committee_id), Some(amount), Some(request_nonce)) => Ok(
                MostEvents::CrosschainTransferRequestFilter(
                    CrosschainTransferRequestFilter {
                        committee_id,
                        dest_token_address: topics[2],
                        amount,
                        dest_receiver_address: topics[3],
                        request_nonce,
                    },
                ),
            ),
            _ => Err(LogError::TooLarge),
        }
    }
}

/// More bytes write a number that is no smaller.
proof fn lemma_be_value_grows(bytes: Seq<u8>, k: int)
    requires
        0 <= k <= bytes.len(),
    ensures
        be_value(bytes.take(k)) <= be_value(bytes),
    decreases bytes.len() - k,
{
    if k == bytes.len() {
        assert(bytes.take(k) == bytes);
    } else {
        lemma_be_value_grows(bytes, k + 1);
        assert(bytes.take(k + 1).drop_last() == bytes.take(k));
    }
}

/// Reads the number that the bytes from `from` up to `to` write.
#[verifier::loop_isolation(false)]
fn read_word(bytes: &[u8], from: usize, to: usize) -> (r: Option<u128>)
    requires
        from <= to <= bytes@.len(),
    ensures
        r == word_value(bytes@.subrange(from as int, to as int)),
{
    let ghost word = bytes@.subrange(from as int, to as int);
    let mut value: u128 = 0;
    let mut i: usize = from;
    while i < to
        invariant
            from <= i <= to,
            value == be_value(word.take(i - from)),
        decreases to - i,
    {
        proof {
            assert(word.take(i - from + 1).drop_last() == word.take(i - from));
            assert(word.take(i - from + 1).last() == bytes@[i as int]);
            lemma_be_value_grows(word, i - from + 1);
        }
        let shifted = match value.checked_mul(256) {
            Some(shifted) => shifted,
            None => {
                return None;
            },
        };
        value = match shifted.checked_add(bytes[i] as u128) {
            Some(next) => next,
            None => {
                return None;
            },
        };
        i = i + 1;
    }
    assert(word.take(to - from) == word);
    Some(value)
}

/// Reads the number that a word writes, where it fits 128 bits.
pub fn word_to_u128(word: &[u8; 32]) -> (r: Option<u128>)
    ensures
        r == word_value(word@),
{
    assert(word@.subrange(0, 32) == word@);
    read_word(word.as_slice(), 0, 32)
}

/// Reads a transfer request out of the topics and the data of a log.
pub fn decode_transfer_request(topics: &Vec<[u8; 32]>, data: &Vec<u8>) -> (r: Result<
    MostEvents,
    LogError,
>)
    ensures
        r == logged_request(topics@, data@),
{
    if topics.len() != 4 || data.len() != 64 {
        return Err(LogError::Malformed);
    }
    let committee_id = word_to_u128(&topics[1]);
    let amount = read_word(data.as_slice(), 0, 32);
    let request_nonce = read_word(data.as_slice(), 32, 64);
    match (committee_id, amount, request_nonce) {
        (Some(committee_id), Some(amount), Some(request_nonce)) => Ok(
            MostEvents::CrosschainTransferRequestFilter(
                CrosschainTransferRequestFilter {
                    committee_id,
                    dest_token_address: topics[2],
                    amount,
                    dest_receiver_address: topics[3],
                    request_nonce,
                },
            ),
        ),
        _ => Err(LogError::TooLarge),
    }
}

} // verus!
