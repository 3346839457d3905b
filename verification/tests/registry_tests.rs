use bid_contract::codec::{decode_bid, encode_bid};
use bid_contract::errors::{BidError, DecodeError};
use bid_contract::keys::AccountId;
use bid_contract::metadata::decode_metadata;
use bid_contract::registry::{BidAccount, BidBook};

fn id(n: u8) -> AccountId {
    AccountId::new(vec![n; 32])
}

#[test]
fn init_bid_then_duplicate_fails_and_original_stands() {
    let mut book = BidBook::empty();
    let bidder = id(1);
    let mint = id(2);
    assert_eq!(book.init_bid(&bidder, &mint, 700, 254), Ok(()));
    assert_eq!(book.init_bid(&bidder, &mint, 900, 253), Err(BidError::DuplicateBid));
    assert_eq!(book.bid_amount_of(&bidder, &mint), Some(700));
}

#[test]
fn init_bid_distinct_pairs_coexist() {
    let mut book = BidBook::empty();
    assert_eq!(book.init_bid(&id(1), &id(2), 10, 255), Ok(()));
    assert_eq!(book.init_bid(&id(1), &id(3), 20, 255), Ok(()));
    assert_eq!(book.init_bid(&id(4), &id(2), 30, 255), Ok(()));
    assert_eq!(book.bid_amount_of(&id(1), &id(2)), Some(10));
    assert_eq!(book.bid_amount_of(&id(1), &id(3)), Some(20));
    assert_eq!(book.bid_amount_of(&id(4), &id(2)), Some(30));
}

#[test]
fn update_bid_by_owner_replaces_amount() {
    let mut book = BidBook::empty();
    book.init_bid(&id(1), &id(2), 700, 255).unwrap();
    assert_eq!(book.update_bid(&id(1), &id(2), 1_000), Ok(()));
    assert_eq!(book.bid_amount_of(&id(1), &id(2)), Some(1_000));
}

#[test]
fn update_bid_by_non_owner_fails_and_amount_unchanged() {
    let mut book = BidBook::empty();
    book.init_bid(&id(1), &id(2), 700, 255).unwrap();
    assert_eq!(book.update_bid(&id(9), &id(2), 1_000), Err(BidError::NotOwner));
    assert_eq!(book.bid_amount_of(&id(1), &id(2)), Some(700));
}

#[test]
fn cancel_bid_removes_record_and_needs_owner() {
    let mut book = BidBook::empty();
    book.init_bid(&id(1), &id(2), 700, 255).unwrap();
    assert_eq!(book.cancel_bid(&id(9), &id(2)), Err(BidError::NotOwner));
    assert!(book.contains(&id(1), &id(2)));
    assert_eq!(book.cancel_bid(&id(1), &id(2)), Ok(()));
    assert!(!book.contains(&id(1), &id(2)));
    assert_eq!(book.cancel_bid(&id(1), &id(2)), Err(BidError::NotOwner));
}

#[test]
fn bid_record_address_matches_native_derivation() {
    let bidder = id(1);
    let mint = id(2);
    let (addr, bump) = BidBook::bid_record_address(&bidder, &mint).unwrap();
    let pid = solana_program::pubkey::Pubkey::new_from_array(
        bid_contract::seeds::program_id().bytes.try_into().unwrap(),
    );
    let (expected, expected_bump) = solana_program::pubkey::Pubkey::find_program_address(
        &[b"bid", &bidder.bytes, &mint.bytes],
        &pid,
    );
    assert_eq!(addr.bytes, expected.to_bytes().to_vec());
    assert_eq!(bump, expected_bump);
}

#[test]
fn bid_record_round_trips_through_wire_image() {
    let rec = BidAccount { bidder: id(11), mint: id(22), bid_amount: 123_456_789_012, bump: 254 };
    let wire = encode_bid(&rec);
    assert_eq!(wire.len(), 73);
    let back = decode_bid(&wire).expect("a 73-byte image decodes");
    assert_eq!(back.bidder.bytes, rec.bidder.bytes);
    assert_eq!(back.mint.bytes, rec.mint.bytes);
    assert_eq!(back.bid_amount, rec.bid_amount);
    assert_eq!(back.bump, rec.bump);
}

#[test]
fn bid_record_wire_layout_is_little_endian() {
    let rec = BidAccount { bidder: id(0), mint: id(0), bid_amount: 0x0102030405060708, bump: 9 };
    let wire = encode_bid(&rec);
    assert_eq!(&wire[64..72], &[8, 7, 6, 5, 4, 3, 2, 1]);
    assert_eq!(wire[72], 9);
}

#[test]
fn bid_record_of_wrong_length_does_not_decode() {
    assert!(decode_bid(&vec![0u8; 72]).is_none());
    assert!(decode_bid(&vec![0u8; 74]).is_none());
    assert!(decode_bid(&Vec::new()).is_none());
}

fn meta_bytes(sfbp: u16, creators: Option<Vec<(Vec<u8>, u8, u8)>>) -> Vec<u8> {
    let mut v = vec![0u8; 65];
    for _ in 0..3 {
        v.extend_from_slice(&0u32.to_le_bytes());
    }
    v.extend_from_slice(&sfbp.to_le_bytes());
    match creators {
        None => v.push(0),
        Some(list) => {
            v.push(1);
            v.extend_from_slice(&(list.len() as u32).to_le_bytes());
            for (addr, verified, share) in list {
                v.extend_from_slice(&addr);
                v.push(verified);
                v.push(share);
            }
        },
    }
    v
}

#[test]
fn metadata_without_creators_decodes() {
    let m = decode_metadata(&meta_bytes(500, None)).unwrap();
    assert_eq!(m.seller_fee_basis_points, 500);
    assert!(m.creators.is_none());
}

#[test]
fn metadata_with_creators_decodes_in_order() {
    let a = vec![5u8; 32];
    let b = vec![6u8; 32];
    let m = decode_metadata(&meta_bytes(750, Some(vec![(a.clone(), 1, 60), (b.clone(), 0, 40)])))
        .unwrap();
    assert_eq!(m.seller_fee_basis_points, 750);
    let cs = m.creators.unwrap();
    assert_eq!(cs.len(), 2);
    assert_eq!(cs[0].address.bytes, a);
    assert!(cs[0].verified);
    assert_eq!(cs[0].share, 60);
    assert_eq!(cs[1].address.bytes, b);
    assert!(!cs[1].verified);
    assert_eq!(cs[1].share, 40);
}

#[test]
fn metadata_with_named_strings_decodes() {
    let mut v = vec![3u8; 65];
    v.extend_from_slice(&4u32.to_le_bytes());
    v.extend_from_slice(b"name");
    v.extend_from_slice(&3u32.to_le_bytes());
    v.extend_from_slice(b"sym");
    v.extend_from_slice(&9u32.to_le_bytes());
    v.extend_from_slice(b"uri://x/y");
    v.extend_from_slice(&1234u16.to_le_bytes());
    v.push(0);
    v.extend_from_slice(&[9, 9, 9]);
    let m = decode_metadata(&v).unwrap();
    assert_eq!(m.seller_fee_basis_points, 1234);
    assert!(m.creators.is_none());
}

#[test]
fn metadata_too_short_fails() {
    assert!(matches!(decode_metadata(&Vec::new()), Err(DecodeError::TooShort)));
    assert!(matches!(decode_metadata(&vec![0u8; 64]), Err(DecodeError::TooShort)));
    let mut truncated = meta_bytes(500, Some(vec![(vec![1u8; 32], 1, 100)]));
    truncated.pop();
    assert!(matches!(decode_metadata(&truncated), Err(DecodeError::TooShort)));
}

#[test]
fn metadata_bad_option_tag_fails() {
    let mut v = meta_bytes(500, None);
    let last = v.len() - 1;
    v[last] = 2;
    assert!(matches!(decode_metadata(&v), Err(DecodeError::BadCreatorsFlag)));
}

#[test]
fn metadata_bad_verified_flag_fails() {
    let v = meta_bytes(500, Some(vec![(vec![1u8; 32], 7, 100)]));
    assert!(matches!(decode_metadata(&v), Err(DecodeError::BadVerifiedFlag)));
}

#[test]
fn metadata_string_length_past_end_fails() {
    let mut v = vec![0u8; 65];
    v.extend_from_slice(&1000u32.to_le_bytes());
    assert!(matches!(decode_metadata(&v), Err(DecodeError::TooShort)));
}
