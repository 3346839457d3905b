use vstd::prelude::*;

use crate::codec::copy_range;
use crate::errors::DecodeError;
use crate::keys::AccountId;

verus! {

/// Mathematical image of one creator entry.
pub ghost struct CreatorView {
    pub address: Seq<u8>,
    pub verified: bool,
    pub share: u8,
}

/// One royalty creator: an identity, a verification flag, and an integer
/// share expressed as parts of 100.
pub struct Creator {
    pub address: AccountId,
    pub verified: bool,
    pub share: u8,
}

impl View for Creator {
    type V = CreatorView;

    open spec fn view(&self) -> CreatorView {
        CreatorView { address: self.address@, verified: self.verified, share: self.share }
    }
}

impl Creator {
    pub open spec fn wf(&self) -> bool {
        self.address.wf()
    }
}

/// Mathematical image of an asset's royalty configuration.
pub ghost struct RoyaltyView {
    pub seller_fee_basis_points: u16,
    pub creators: Option<Seq<CreatorView>>,
}

/// An asset's royalty configuration, recovered from the externally
/// authored metadata record: seller-fee basis points and an optional
/// ordered creator list. Shares are not required to sum to 100.
pub struct RoyaltyMetadata {
    pub seller_fee_basis_points: u16,
    pub creators: Option<Vec<Creator>>,
}

impl View for RoyaltyMetadata {
    type V = RoyaltyView;

    open spec fn view(&self) -> RoyaltyView {
        RoyaltyView {
            seller_fee_basis_points: self.seller_fee_basis_points,
            creators: match self.creators {
                Some(v) => Some(v@.map_values(|c: Creator| c@)),
                None => None,
            },
        }
    }
}

impl RoyaltyMetadata {
    pub open spec fn wf(&self) -> bool {
        match self.creators {
            Some(v) => forall|i: int| 0 <= i < v@.len() ==> (#[trigger] v@[i]).wf(),
            None => true,
        }
    }
}

/// The canonical metadata account of an asset: derived from the metadata
/// namespace tag, the metadata program's identity and the asset, under the
/// metadata program. The settlement engine recomputes this itself and
/// rejects any caller-supplied account that differs. Nothing comes back
/// only in the statistically improbable case that no bump derives.
pub fn get_metadata_account(mint: &AccountId) -> (r: Option<AccountId>)
    requires
        mint.wf(),
    ensures
        r is Some <==> crate::pda::found_pda(
            crate::seeds::spec_metadata_seeds(mint@),
            crate::seeds::spec_metadata_program_id(),
        ) is Some,
        r matches Some(a) ==> crate::pda::found_pda(
            crate::seeds::spec_metadata_seeds(mint@),
            crate::seeds::spec_metadata_program_id(),
        ) matches Some(p) && p.0 == a@ && a.wf(),
{
    let seeds = crate::seeds::metadata_seeds(mint);
    let mpid = crate::seeds::metadata_program_id();
    match crate::pda::try_find_pda(&seeds, &mpid) {
        Some((address, _canonical_bump)) => Some(address),
        None => None,
    }
}

/// Fixed front of the layout: a key byte and two 32-byte identities.
pub const META_HEADER_LEN: usize = 65;

/// Bytes of one serialized creator entry: identity, flag, share.
pub const CREATOR_ENTRY_LEN: usize = 34;

/// The 16-bit little-endian value at position `i`.
pub open spec fn spec_u16_le(s: Seq<u8>, i: int) -> u16 {
    (s[i] + 256 * s[i + 1]) as u16
}

/// The 32-bit little-endian value at position `i`.
pub open spec fn spec_u32_le(s: Seq<u8>, i: int) -> int {
    s[i] + 256 * s[i + 1] + 65536 * s[i + 2] + 16777216 * s[i + 3]
}

/// Where a length-prefixed string starting at `p` ends, if it lies within
/// the buffer: four length bytes, then that many content bytes.
pub open spec fn spec_str_end(s: Seq<u8>, p: int) -> Option<int> {
    if p + 4 <= s.len() && p + 4 + spec_u32_le(s, p) <= s.len() {
        Some(p + 4 + spec_u32_le(s, p))
    } else {
        None
    }
}

/// Position of the seller-fee field: past the fixed header and three
/// length-prefixed strings (name, symbol, uri).
pub open spec fn spec_fee_pos(s: Seq<u8>) -> Option<int> {
    if s.len() >= META_HEADER_LEN {
        match spec_str_end(s, META_HEADER_LEN as int) {
            Some(p1) => match spec_str_end(s, p1) {
                Some(p2) => spec_str_end(s, p2),
                None => None,
            },
            None => None,
        }
    } else {
        None
    }
}

/// The `k`-th creator entry of a list based at `base`.
pub open spec fn spec_creator_at(s: Seq<u8>, base: int, k: int) -> CreatorView {
    CreatorView {
        address: s.subrange(base + 34 * k, base + 34 * k + 32),
        verified: s[base + 34 * k + 32] == 1,
        share: s[base + 34 * k + 33],
    }
}

/// Every creator entry up to `n` carries a verification flag of 0 or 1.
pub open spec fn spec_creators_ok(s: Seq<u8>, base: int, n: int) -> bool {
    forall|k: int|
        0 <= k < n ==> ((#[trigger] s[base + 34 * k + 32]) == 0 || s[base + 34 * k + 32] == 1)
}

/// What a buffer decodes to, if anything: the seller-fee basis points and
/// the optional creator list of the royalty layout. A buffer that ends
/// early, an option tag other than 0 or 1, or a verification flag other
/// than 0 or 1 decodes to nothing. Bytes past the creator list are
/// ignored.
pub open spec fn spec_decode_metadata(s: Seq<u8>) -> Option<RoyaltyView> {
    match spec_fee_pos(s) {
        None => None,
        Some(p) => if p + 3 <= s.len() {
            if s[p + 2] == 0 {
                Some(RoyaltyView { seller_fee_basis_points: spec_u16_le(s, p), creators: None })
            } else if s[p + 2] == 1 && p + 7 <= s.len() {
                if p + 7 + 34 * spec_u32_le(s, p + 3) <= s.len() && spec_creators_ok(
                    s,
                    p + 7,
                    spec_u32_le(s, p + 3),
                ) {
                    Some(
                        RoyaltyView {
                            seller_fee_basis_points: spec_u16_le(s, p),
                            creators: Some(
                                Seq::new(
                                    spec_u32_le(s, p + 3) as nat,
                                    |k: int| spec_creator_at(s, p + 7, k),
                                ),
                            ),
                        },
                    )
                } else {
                    None
                }
            } else {
                None
            }
        } else {
            None
        },
    }
}

/// Read the 16-bit little-endian value at `p`.
fn read_u16_le(s: &Vec<u8>, p: usize) -> (r: u16)
    requires
        p + 2 <= s@.len(),
    ensures
        r == spec_u16_le(s@, p as int),
{
    let _n = s.len();
    (s[p] as u16) + 256 * (s[p + 1] as u16)
}

/// Read the 32-bit little-endian value at `p`.
fn read_u32_le(s: &Vec<u8>, p: usize) -> (r: u32)
    requires
        p + 4 <= s@.len(),
    ensures
        r as int == spec_u32_le(s@, p as int),
{
    let _n = s.len();
    (s[p] as u32) + 256 * (s[p + 1] as u32) + 65536 * (s[p + 2] as u32) + 16777216 * (s[p
        + 3] as u32)
}

/// Step over the length-prefixed string at `p`.
fn skip_string(s: &Vec<u8>, p: usize) -> (r: Option<usize>)
    requires
        p <= s@.len(),
    ensures
        r is Some <==> spec_str_end(s@, p as int) is Some,
        r matches Some(q) ==> Some(q as int) == spec_str_end(s@, p as int) && q <= s@.len(),
{
    let n = s.len();
    if n - p < 4 {
        return None;
    }
    let len = read_u32_le(s, p) as u64;
    if len > (n - (p + 4)) as u64 {
        return None;
    }
    Some(p + 4 + (len as usize))
}

/// Decode an asset's royalty configuration from the raw bytes of its
/// metadata record. Exactly the buffers `spec_decode_metadata` accepts
/// decode; any other fails with a decode error, which the settlement
/// engine treats as "no royalties owed", never as fatal.
#[verifier::loop_isolation(false)]
pub fn decode_metadata(data: &Vec<u8>) -> (r: Result<RoyaltyMetadata, DecodeError>)
    ensures
        r is Ok <==> spec_decode_metadata(data@) is Some,
        r matches Ok(m) ==> Some(m@) == spec_decode_metadata(data@) && m.wf(),
{
    let n = data.len();
    if n < META_HEADER_LEN {
        return Err(DecodeError::TooShort);
    }
    let p1 = match skip_string(data, META_HEADER_LEN) {
        Some(q) => q,
        None => { return Err(DecodeError::TooShort) },
    };
    let p2 = match skip_string(data, p1) {
        Some(q) => q,
        None => { return Err(DecodeError::TooShort) },
    };
    let p = match skip_string(data, p2) {
        Some(q) => q,
        None => { return Err(DecodeError::TooShort) },
    };
    if n - p < 3 {
        return Err(DecodeError::TooShort);
    }
    let fee = read_u16_le(data, p);
    let tag = data[p + 2];
    if tag == 0 {
        return Ok(RoyaltyMetadata { seller_fee_basis_points: fee, creators: None });
    }
    if tag != 1 {
        return Err(DecodeError::BadCreatorsFlag);
    }
    if n - p < 7 {
        return Err(DecodeError::TooShort);
    }
    let cnt32 = read_u32_le(data, p + 3);
    let base = p + 7;
    if (cnt32 as u64) * (CREATOR_ENTRY_LEN as u64) > (n - base) as u64 {
        return Err(DecodeError::TooShort);
    }
    let cnt = cnt32 as usize;
    let mut creators: Vec<Creator> = Vec::new();
    let mut k: usize = 0;
    while k < cnt
        invariant
            k <= cnt,
            creators@.len() == k as int,
            forall|j: int|
                0 <= j < k ==> (#[trigger] creators@[j])@ == spec_creator_at(
                    data@,
                    base as int,
                    j,
                ) && creators@[j].wf(),
            spec_creators_ok(data@, base as int, k as int),
        decreases cnt - k,
    {
        let off = base + CREATOR_ENTRY_LEN * k;
        let address = AccountId::new(copy_range(data, off, 32));
        let vflag = data[off + 32];
        if vflag > 1 {
            proof {
                assert(!spec_creators_ok(data@, base as int, cnt as int));
            }
            return Err(DecodeError::BadVerifiedFlag);
        }
        let share = data[off + 33];
        creators.push(Creator { address, verified: vflag == 1, share });
        k = k + 1;
    }
    let result = RoyaltyMetadata { seller_fee_basis_points: fee, creators: Some(creators) };
    proof {
        let expected = spec_decode_metadata(data@).unwrap();
        assert(result@.creators.unwrap() =~= expected.creators.unwrap());
    }
    Ok(result)
}

} // verus!
