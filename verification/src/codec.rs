use vstd::prelude::*;

use crate::keys::AccountId;
use crate::registry::{BidAccount, BidView};
use vstd::bytes::{spec_u64_from_le_bytes, spec_u64_to_le_bytes, lemma_auto_spec_u64_to_from_le_bytes};

verus! {

/// Length of a bid record on the wire: bidder, asset, amount, salt.
pub const BID_RECORD_LEN: usize = 73;

/// Bytes `start .. start + count` of a byte vector, copied out.
pub fn copy_range(src: &Vec<u8>, start: usize, count: usize) -> (r: Vec<u8>)
    requires
        start + count <= src@.len(),
    ensures
        r@ == src@.subrange(start as int, start as int + count as int),
{
    let n = src.len();
    let mut out: Vec<u8> = Vec::new();
    let mut i: usize = 0;
    while i < count
        invariant
            i <= count,
            start + count <= src@.len(),
            src@.len() == n,
            out@ == src@.subrange(start as int, start as int + i as int),
        decreases count - i,
    {
        out.push(src[start + i]);
        assert(out@ =~= src@.subrange(start as int, start as int + (i + 1) as int));
        i = i + 1;
    }
    out
}

/// The wire image of a bid record: bidder identity (32 bytes), asset
/// identity (32 bytes), amount (8 bytes, little endian), salt (1 byte).
pub open spec fn spec_encode_bid(b: BidView) -> Seq<u8> {
    b.bidder + b.mint + spec_u64_to_le_bytes(b.bid_amount) + seq![b.bump]
}

/// The record a 73-byte wire image decodes to; nothing else decodes.
pub open spec fn spec_decode_bid(s: Seq<u8>) -> Option<BidView> {
    if s.len() == BID_RECORD_LEN {
        Some(
            BidView {
                bidder: s.subrange(0, 32),
                mint: s.subrange(32, 64),
                bid_amount: spec_u64_from_le_bytes(s.subrange(64, 72)),
                bump: s[72],
            },
        )
    } else {
        None
    }
}

/// Serialize a bid record to its wire image.
pub fn encode_bid(b: &BidAccount) -> (r: Vec<u8>)
    requires
        b.wf(),
    ensures
        r@ == spec_encode_bid(b@),
        r@.len() == BID_RECORD_LEN,
{
    let mut out: Vec<u8> = crate::keys::copy_bytes(&b.bidder.bytes);
    let mut mint_bytes = crate::keys::copy_bytes(&b.mint.bytes);
    out.append(&mut mint_bytes);
    let mut amount_bytes = vstd::bytes::u64_to_le_bytes(b.bid_amount);
    out.append(&mut amount_bytes);
    out.push(b.bump);
    assert(out@ =~= spec_encode_bid(b@));
    out
}

/// Parse a wire image back into a bid record.
pub fn decode_bid(data: &Vec<u8>) -> (r: Option<BidAccount>)
    ensures
        r is Some <==> spec_decode_bid(data@) is Some,
        r matches Some(b) ==> Some(b@) == spec_decode_bid(data@) && b.wf(),
{
    if data.len() != BID_RECORD_LEN {
        return None;
    }
    let bidder = AccountId::new(copy_range(data, 0, 32));
    let mint = AccountId::new(copy_range(data, 32, 32));
    let amount_bytes = copy_range(data, 64, 8);
    let bid_amount = vstd::bytes::u64_from_le_bytes(amount_bytes.as_slice());
    let bump = data[72];
    Some(BidAccount { bidder, mint, bid_amount, bump })
}

/// Round trip: the wire image a bid record encodes to decodes back to the
/// identical (bidder, asset, amount, salt) tuple.
pub proof fn lemma_bid_round_trip(b: BidView)
    requires
        b.bidder.len() == 32,
        b.mint.len() == 32,
    ensures
        spec_decode_bid(spec_encode_bid(b)) == Some(b),
{
    lemma_auto_spec_u64_to_from_le_bytes();
    let e = spec_encode_bid(b);
    assert(e.len() == BID_RECORD_LEN);
    let d = spec_decode_bid(e).unwrap();
    assert(d.bidder =~= b.bidder);
    assert(d.mint =~= b.mint);
    assert(e.subrange(64, 72) =~= spec_u64_to_le_bytes(b.bid_amount));
    assert(d.bid_amount == b.bid_amount);
    assert(d.bump == b.bump);
}

} // verus!
