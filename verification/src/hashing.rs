//! Canonical request encoding and its Keccak-256 fingerprint.

use vstd::arithmetic::div_mod::lemma_div_denominator;
use vstd::arithmetic::power::{lemma_pow0, lemma_pow_positive, pow};
use vstd::prelude::*;

verus! {

/// A 32-byte account identifier or token address.
pub type AccountId = [u8; 32];

/// The 32-byte fingerprint of a canonical request.
pub type HashedRequest = [u8; 32];

/// The `i`-th byte, counted from the least significant one, of `x`.
pub open spec fn le_byte(x: u128, i: int) -> u8 {
    ((x as int / pow(256, i as nat)) % 256) as u8
}

/// The 16-byte little-endian encoding of `x`.
pub open spec fn le16(x: u128) -> Seq<u8> {
    Seq::new(16, |i: int| le_byte(x, i))
}

/// The canonical byte string of a request: its five fields in order, the
/// integers as 16 little-endian bytes each.
pub open spec fn encode_request(
    committee_id: u128,
    dest_token_address: [u8; 32],
    amount: u128,
    dest_receiver_address: [u8; 32],
    request_nonce: u128,
) -> Seq<u8> {
    le16(committee_id) + dest_token_address@ + le16(amount) + dest_receiver_address@ + le16(
        request_nonce,
    )
}

/// The Keccak-256 digest of a byte string.
pub uninterp spec fn keccak256_digest(bytes: Seq<u8>) -> Seq<u8>;

/// The fingerprint of a request: the Keccak-256 digest of its canonical encoding.
pub open spec fn request_digest(
    committee_id: u128,
    dest_token_address: [u8; 32],
    amount: u128,
    dest_receiver_address: [u8; 32],
    request_nonce: u128,
) -> Seq<u8> {
    keccak256_digest(
        encode_request(
            committee_id,
            dest_token_address,
            amount,
            dest_receiver_address,
            request_nonce,
        ),
    )
}

/// The fingerprint of a request as 32 bytes.
pub open spec fn request_hash(
    committee_id: u128,
    dest_token_address: [u8; 32],
    amount: u128,
    dest_receiver_address: [u8; 32],
    request_nonce: u128,
) -> HashedRequest {
    choose|hash: HashedRequest|
        hash@ == request_digest(
            committee_id,
            dest_token_address,
            amount,
            dest_receiver_address,
            request_nonce,
        )
}

/// Calls `ethers::utils::keccak256`, which feeds the bytes to a Keccak-256
/// hasher and returns its 32-byte output. The digest is a function of the
/// input bytes alone; nothing else is claimed of it.
#[verifier::external_body]
fn keccak256(bytes: &Vec<u8>) -> (out: [u8; 32])
    ensures
        out@ == keccak256_digest(bytes@),
{
    ethers::utils::keccak256(bytes)
}

/// Appends the 16 little-endian bytes of `x` to `out`.
fn push_le16(out: &mut Vec<u8>, x: u128)
    ensures
        final(out)@ == old(out)@ + le16(x),
{
    let ghost start = out@;
    let mut rest: u128 = x;
    let mut i: usize = 0;
    proof {
        lemma_pow0(256);
    }
    while i < 16
        invariant
            i <= 16,
            rest as int == x as int / pow(256, i as nat),
            out@ == start + le16(x).subrange(0, i as int),
        decreases 16 - i,
    {
        let b: u8 = (rest % 256) as u8;
        proof {
            lemma_pow_positive(256, i as nat);
            lemma_div_denominator(x as int, pow(256, i as nat), 256);
            vstd::arithmetic::power::lemma_pow1(256);
            vstd::arithmetic::power::lemma_pow_adds(256, i as nat, 1);
            assert(b == le_byte(x, i as int));
            assert(le16(x).subrange(0, i as int).push(b) == le16(x).subrange(0, i as int + 1));
        }
        out.push(b);
        rest = rest / 256;
        i = i + 1;
    }
    assert(le16(x).subrange(0, 16) == le16(x));
}

/// Appends the 32 bytes of `bytes` to `out`.
fn push_bytes32(out: &mut Vec<u8>, bytes: &[u8; 32])
    ensures
        final(out)@ == old(out)@ + bytes@,
{
    let ghost start = out@;
    let mut i: usize = 0;
    while i < 32
        invariant
            i <= 32,
            out@ == start + bytes@.subrange(0, i as int),
        decreases 32 - i,
    {
        out.push(bytes[i]);
        proof {
            assert(bytes@.subrange(0, i as int).push(bytes@[i as int]) == bytes@.subrange(
                0,
                i as int + 1,
            ));
        }
        i = i + 1;
    }
    assert(bytes@.subrange(0, 32) == bytes@);
}

/// Writes out the canonical encoding of a request.
pub fn encode_request_data(
    committee_id: u128,
    dest_token_address: &[u8; 32],
    amount: u128,
    dest_receiver_address: &[u8; 32],
    request_nonce: u128,
) -> (bytes: Vec<u8>)
    ensures
        bytes@ == encode_request(
            committee_id,
            *dest_token_address,
            amount,
            *dest_receiver_address,
            request_nonce,
        ),
{
    let mut bytes: Vec<u8> = Vec::new();
    push_le16(&mut bytes, committee_id);
    push_bytes32(&mut bytes, dest_token_address);
    push_le16(&mut bytes, amount);
    push_bytes32(&mut bytes, dest_receiver_address);
    push_le16(&mut bytes, request_nonce);
    bytes
}

/// Computes the fingerprint of a request.
pub fn hash_request_data(
    committee_id: u128,
    dest_token_address: [u8; 32],
    amount: u128,
    dest_receiver_address: [u8; 32],
    request_nonce: u128,
) -> (hash: HashedRequest)
    ensures
        hash@ == request_digest(
            committee_id,
            dest_token_address,
            amount,
            dest_receiver_address,
            request_nonce,
        ),
        hash == request_hash(
            committee_id,
            dest_token_address,
            amount,
            dest_receiver_address,
            request_nonce,
        ),
{
    let bytes = encode_request_data(
        committee_id,
        &dest_token_address,
        amount,
        &dest_receiver_address,
        request_nonce,
    );
    let hash = keccak256(&bytes);
    assert(hash =~= request_hash(
        committee_id,
        dest_token_address,
        amount,
        dest_receiver_address,
        request_nonce,
    ));
    hash
}

/// The number that the first `n` of the bytes write, least significant byte first.
pub open spec fn le_value(bytes: Seq<u8>, n: nat) -> int
    decreases n,
{
    if n == 0 {
        0
    } else {
        le_value(bytes, (n - 1) as nat) + bytes[n - 1] * pow(256, (n - 1) as nat)
    }
}

/// The first `n` bytes of the encoding of `x` write `x` modulo `256^n`.
proof fn lemma_le16_value(x: u128, n: nat)
    requires
        n <= 16,
    ensures
        le_value(le16(x), n) == (x as int) % pow(256, n),
    decreases n,
{
    lemma_pow_positive(256, n);
    if n == 0 {
        lemma_pow0(256);
    } else {
        let m = (n - 1) as nat;
        lemma_le16_value(x, m);
        lemma_pow_positive(256, m);
        vstd::arithmetic::power::lemma_pow1(256);
        vstd::arithmetic::power::lemma_pow_adds(256, m, 1);
        vstd::arithmetic::div_mod::lemma_mod_breakdown(x as int, pow(256, m), 256);
        assert(le16(x)[m as int] == le_byte(x, m as int));
        assert(((x as int / pow(256, m)) % 256) as u8 == (x as int / pow(256, m)) % 256);
        assert(pow(256, m) * ((x as int / pow(256, m)) % 256) == ((x as int / pow(256, m)) % 256)
            * pow(256, m)) by (nonlinear_arith);
    }
}

/// The 16 bytes of an encoding write the encoded number.
pub proof fn lemma_le16_writes(x: u128)
    ensures
        le_value(le16(x), 16) == x,
{
    lemma_le16_value(x, 16);
    assert(pow(256, 16) == 0x1_0000_0000_0000_0000_0000_0000_0000_0000int) by {
        reveal_with_fuel(pow, 17);
    }
    vstd::arithmetic::div_mod::lemma_small_mod(x as nat, pow(256, 16) as nat);
}

/// Different requests have different encodings.
pub proof fn lemma_encoding_is_injective(
    committee_id: u128,
    dest_token_address: [u8; 32],
    amount: u128,
    dest_receiver_address: [u8; 32],
    request_nonce: u128,
    other_committee_id: u128,
    other_dest_token_address: [u8; 32],
    other_amount: u128,
    other_dest_receiver_address: [u8; 32],
    other_request_nonce: u128,
)
    requires
        encode_request(
            committee_id,
            dest_token_address,
            amount,
            dest_receiver_address,
            request_nonce,
        ) == encode_request(
            other_committee_id,
            other_dest_token_address,
            other_amount,
            other_dest_receiver_address,
            other_request_nonce,
        ),
    ensures
        committee_id == other_committee_id,
        dest_token_address == other_dest_token_address,
        amount == other_amount,
        dest_receiver_address == other_dest_receiver_address,
        request_nonce == other_request_nonce,
{
    let one = encode_request(
        committee_id,
        dest_token_address,
        amount,
        dest_receiver_address,
        request_nonce,
    );
    let other = encode_request(
        other_committee_id,
        other_dest_token_address,
        other_amount,
        other_dest_receiver_address,
        other_request_nonce,
    );
    assert(one.subrange(0, 16) =~= le16(committee_id));
    assert(other.subrange(0, 16) =~= le16(other_committee_id));
    assert(one.subrange(16, 48) =~= dest_token_address@);
    assert(other.subrange(16, 48) =~= other_dest_token_address@);
    assert(one.subrange(48, 64) =~= le16(amount));
    assert(other.subrange(48, 64) =~= le16(other_amount));
    assert(one.subrange(64, 96) =~= dest_receiver_address@);
    assert(other.subrange(64, 96) =~= other_dest_receiver_address@);
    assert(one.subrange(96, 112) =~= le16(request_nonce));
    assert(other.subrange(96, 112) =~= le16(other_request_nonce));
    lemma_le16_writes(committee_id);
    lemma_le16_writes(other_committee_id);
    lemma_le16_writes(amount);
    lemma_le16_writes(other_amount);
    lemma_le16_writes(request_nonce);
    lemma_le16_writes(other_request_nonce);
    assert(dest_token_address =~= other_dest_token_address);
    assert(dest_receiver_address =~= other_dest_receiver_address);
}

} // verus!
