use most::handler::{
    handle_event, handle_events, vote_with_hash, CrosschainTransferRequestFilter, MostEvents, Vote,
};
use most::hashing::{encode_request_data, hash_request_data};

const TOKEN: [u8; 32] = [0x11; 32];
const RECEIVER: [u8; 32] = [0x22; 32];

fn counting(from: u8) -> [u8; 32] {
    let mut bytes = [0u8; 32];
    for (i, byte) in bytes.iter_mut().enumerate() {
        *byte = from + i as u8;
    }
    bytes
}

#[test]
fn encoding_is_the_five_fields_in_order() {
    let bytes = encode_request_data(0, &TOKEN, 100, &RECEIVER, 0);
    let mut expected = vec![0u8; 16];
    expected.extend_from_slice(&[0x11; 32]);
    expected.push(100);
    expected.extend_from_slice(&[0u8; 15]);
    expected.extend_from_slice(&[0x22; 32]);
    expected.extend_from_slice(&[0u8; 16]);
    assert_eq!(bytes.len(), 112);
    assert_eq!(bytes, expected);
}

#[test]
fn encoding_writes_integers_little_endian() {
    let bytes = encode_request_data(
        1,
        &counting(0),
        0x0102030405060708090a0b0c0d0e0f10,
        &counting(32),
        u128::MAX,
    );
    assert_eq!(&bytes[0..16], &[1, 0, 0, 0, 0, 0, 0, 0, 0, 0, 0, 0, 0, 0, 0, 0]);
    assert_eq!(&bytes[16..48], &counting(0));
    assert_eq!(&bytes[48..64], &[16, 15, 14, 13, 12, 11, 10, 9, 8, 7, 6, 5, 4, 3, 2, 1]);
    assert_eq!(&bytes[64..96], &counting(32));
    assert_eq!(&bytes[96..112], &[255u8; 16]);
    assert_eq!(&bytes[48..64], &0x0102030405060708090a0b0c0d0e0f10u128.to_le_bytes());
}

#[test]
fn hash_of_a_small_request() {
    assert_eq!(
        hash_request_data(0, TOKEN, 100, RECEIVER, 0),
        [
            133, 249, 220, 182, 195, 248, 158, 202, 193, 147, 106, 78, 120, 106, 199, 170, 90,
            127, 89, 105, 54, 192, 14, 20, 122, 198, 167, 200, 77, 214, 27, 60
        ]
    );
}

#[test]
fn hash_of_a_request_with_large_fields() {
    assert_eq!(
        hash_request_data(
            1,
            counting(0),
            0x0102030405060708090a0b0c0d0e0f10,
            counting(32),
            u128::MAX
        ),
        [
            142, 33, 52, 247, 185, 53, 84, 185, 116, 163, 178, 93, 152, 208, 135, 14, 33, 116,
            41, 250, 6, 164, 239, 157, 55, 115, 156, 1, 207, 69, 157, 58
        ]
    );
}

#[test]
fn hash_is_the_digest_of_the_encoding() {
    let bytes = encode_request_data(7, &TOKEN, 12345, &RECEIVER, 99);
    assert_eq!(
        hash_request_data(7, TOKEN, 12345, RECEIVER, 99),
        ethers::utils::keccak256(&bytes)
    );
    assert_ne!(hash_request_data(7, TOKEN, 12345, RECEIVER, 99).to_vec(), bytes);
}

#[test]
fn hash_is_the_same_on_both_chains() {
    let bytes = encode_request_data(3, &TOKEN, 5, &RECEIVER, 8);
    let mut on_chain = [0u8; 32];
    ink::env::hash_bytes::<ink::env::hash::Keccak256>(&bytes, &mut on_chain);
    assert_eq!(hash_request_data(3, TOKEN, 5, RECEIVER, 8), on_chain);
}

#[test]
fn hash_depends_on_every_field() {
    let hash = hash_request_data(0, TOKEN, 100, RECEIVER, 0);
    assert_ne!(hash, hash_request_data(1, TOKEN, 100, RECEIVER, 0));
    assert_ne!(hash, hash_request_data(0, RECEIVER, 100, RECEIVER, 0));
    assert_ne!(hash, hash_request_data(0, TOKEN, 101, RECEIVER, 0));
    assert_ne!(hash, hash_request_data(0, TOKEN, 100, TOKEN, 0));
    assert_ne!(hash, hash_request_data(0, TOKEN, 100, RECEIVER, 1));
    assert_eq!(
        hash_request_data(0, TOKEN, 101, RECEIVER, 0),
        [
            242, 249, 177, 174, 211, 132, 105, 62, 16, 20, 147, 189, 101, 191, 194, 187, 155, 99,
            50, 245, 25, 125, 30, 254, 45, 129, 226, 136, 252, 103, 92, 243
        ]
    );
}

fn transfer_request(amount: u128, request_nonce: u128) -> CrosschainTransferRequestFilter {
    CrosschainTransferRequestFilter {
        committee_id: 0,
        dest_token_address: TOKEN,
        amount,
        dest_receiver_address: RECEIVER,
        request_nonce,
    }
}

#[test]
fn handler_votes_with_the_hash_of_the_event() {
    let vote = handle_event(&MostEvents::CrosschainTransferRequestFilter(transfer_request(100, 0)));
    assert_eq!(
        vote,
        Some(Vote {
            request_hash: hash_request_data(0, TOKEN, 100, RECEIVER, 0),
            committee_id: 0,
            dest_token_address: TOKEN,
            amount: 100,
            dest_receiver_address: RECEIVER,
            request_nonce: 0,
        })
    );
}

#[test]
fn handler_ignores_other_events() {
    assert_eq!(handle_event(&MostEvents::RequestProcessedFilter { request_hash: [9; 32] }), None);
    assert_eq!(handle_event(&MostEvents::RequestSignedFilter { request_hash: [9; 32] }), None);
}

#[test]
fn handler_votes_on_each_request_of_a_block_in_order() {
    let events = vec![
        MostEvents::CrosschainTransferRequestFilter(transfer_request(100, 0)),
        MostEvents::RequestSignedFilter { request_hash: [9; 32] },
        MostEvents::CrosschainTransferRequestFilter(transfer_request(7, 1)),
    ];
    let votes = handle_events(&events);
    assert_eq!(votes.len(), 2);
    assert_eq!(votes[0].amount, 100);
    assert_eq!(votes[0].request_hash, hash_request_data(0, TOKEN, 100, RECEIVER, 0));
    assert_eq!(votes[1].amount, 7);
    assert_eq!(votes[1].request_hash, hash_request_data(0, TOKEN, 7, RECEIVER, 1));
    assert_eq!(handle_events(&Vec::new()), Vec::new());
}

#[test]
fn vote_carries_the_given_hash() {
    let vote = vote_with_hash(&transfer_request(5, 3), [7; 32]);
    assert_eq!(vote.request_hash, [7; 32]);
    assert_eq!(vote.amount, 5);
    assert_eq!(vote.request_nonce, 3);
    assert_eq!(vote.dest_token_address, TOKEN);
    assert_eq!(vote.dest_receiver_address, RECEIVER);
    assert_eq!(vote.committee_id, 0);
}
