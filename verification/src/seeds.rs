use vstd::prelude::*;

use crate::keys::AccountId;

verus! {

/// Namespace tag of a bid record's derived address: the bytes of "bid".
pub open spec fn spec_prefix_bid() -> Seq<u8> {
    seq![98u8, 105u8, 100u8]
}

/// Namespace tag of a vault's derived address: the bytes of "bidvault".
pub open spec fn spec_prefix_vault() -> Seq<u8> {
    seq![98u8, 105u8, 100u8, 118u8, 97u8, 117u8, 108u8, 116u8]
}

/// Namespace tag of a royalty-metadata derived address: the bytes of "metadata".
pub open spec fn spec_prefix_metadata() -> Seq<u8> {
    seq![109u8, 101u8, 116u8, 97u8, 100u8, 97u8, 116u8, 97u8]
}

/// This program's own identity, under which vault and bid addresses derive.
pub open spec fn spec_program_id() -> Seq<u8> {
    seq![
        8u8, 228u8, 208u8, 211u8, 151u8, 74u8, 176u8, 100u8,
        17u8, 191u8, 216u8, 195u8, 51u8, 140u8, 87u8, 95u8,
        18u8, 61u8, 131u8, 71u8, 240u8, 144u8, 172u8, 159u8,
        114u8, 129u8, 83u8, 178u8, 121u8, 104u8, 3u8, 180u8,
    ]
}

/// The metadata program's identity, under which royalty metadata derives.
pub open spec fn spec_metadata_program_id() -> Seq<u8> {
    seq![
        11u8, 112u8, 101u8, 177u8, 227u8, 209u8, 124u8, 69u8,
        56u8, 157u8, 82u8, 127u8, 107u8, 4u8, 195u8, 205u8,
        88u8, 184u8, 108u8, 115u8, 26u8, 160u8, 253u8, 181u8,
        73u8, 182u8, 209u8, 188u8, 3u8, 248u8, 41u8, 70u8,
    ]
}

/// The fixed platform-fee recipient's identity.
pub open spec fn spec_sales_tax_recipient() -> Seq<u8> {
    seq![
        40u8, 91u8, 251u8, 137u8, 92u8, 197u8, 185u8, 167u8,
        96u8, 167u8, 52u8, 116u8, 216u8, 8u8, 175u8, 228u8,
        200u8, 107u8, 97u8, 34u8, 78u8, 228u8, 118u8, 197u8,
        220u8, 87u8, 252u8, 221u8, 90u8, 30u8, 4u8, 204u8,
    ]
}

pub fn program_id() -> (r: AccountId)
    ensures
        r@ == spec_program_id(),
        r.wf(),
{
    let bytes: Vec<u8> = vec![
        8u8, 228u8, 208u8, 211u8, 151u8, 74u8, 176u8, 100u8,
        17u8, 191u8, 216u8, 195u8, 51u8, 140u8, 87u8, 95u8,
        18u8, 61u8, 131u8, 71u8, 240u8, 144u8, 172u8, 159u8,
        114u8, 129u8, 83u8, 178u8, 121u8, 104u8, 3u8, 180u8,
    ];
    assert(bytes@ =~= spec_program_id());
    AccountId { bytes }
}

pub fn metadata_program_id() -> (r: AccountId)
    ensures
        r@ == spec_metadata_program_id(),
        r.wf(),
{
    let bytes: Vec<u8> = vec![
        11u8, 112u8, 101u8, 177u8, 227u8, 209u8, 124u8, 69u8,
        56u8, 157u8, 82u8, 127u8, 107u8, 4u8, 195u8, 205u8,
        88u8, 184u8, 108u8, 115u8, 26u8, 160u8, 253u8, 181u8,
        73u8, 182u8, 209u8, 188u8, 3u8, 248u8, 41u8, 70u8,
    ];
    assert(bytes@ =~= spec_metadata_program_id());
    AccountId { bytes }
}

pub fn sales_tax_recipient() -> (r: AccountId)
    ensures
        r@ == spec_sales_tax_recipient(),
        r.wf(),
{
    let bytes: Vec<u8> = vec![
        40u8, 91u8, 251u8, 137u8, 92u8, 197u8, 185u8, 167u8,
        96u8, 167u8, 52u8, 116u8, 216u8, 8u8, 175u8, 228u8,
        200u8, 107u8, 97u8, 34u8, 78u8, 228u8, 118u8, 197u8,
        220u8, 87u8, 252u8, 221u8, 90u8, 30u8, 4u8, 204u8,
    ];
    assert(bytes@ =~= spec_sales_tax_recipient());
    AccountId { bytes }
}

/// Seeds of a bidder's vault address: the vault tag, then the bidder.
pub open spec fn spec_vault_seeds(bidder: Seq<u8>) -> Seq<Seq<u8>> {
    seq![spec_prefix_vault(), bidder]
}

/// Seeds of a bid record's address: the bid tag, the bidder, the asset.
pub open spec fn spec_bid_seeds(bidder: Seq<u8>, mint: Seq<u8>) -> Seq<Seq<u8>> {
    seq![spec_prefix_bid(), bidder, mint]
}

/// Seeds of an asset's royalty metadata: the metadata tag, the metadata
/// program's identity, the asset.
pub open spec fn spec_metadata_seeds(mint: Seq<u8>) -> Seq<Seq<u8>> {
    seq![spec_prefix_metadata(), spec_metadata_program_id(), mint]
}

pub fn vault_seeds(bidder: &AccountId) -> (r: Vec<Vec<u8>>)
    ensures
        r.deep_view() == spec_vault_seeds(bidder@),
{
    let tag: Vec<u8> = vec![98u8, 105u8, 100u8, 118u8, 97u8, 117u8, 108u8, 116u8];
    assert(tag@ =~= spec_prefix_vault());
    let mut r: Vec<Vec<u8>> = Vec::new();
    r.push(tag);
    r.push(crate::keys::copy_bytes(&bidder.bytes));
    assert(r.deep_view() =~~= spec_vault_seeds(bidder@));
    r
}

pub fn bid_seeds(bidder: &AccountId, mint: &AccountId) -> (r: Vec<Vec<u8>>)
    ensures
        r.deep_view() == spec_bid_seeds(bidder@, mint@),
{
    let tag: Vec<u8> = vec![98u8, 105u8, 100u8];
    assert(tag@ =~= spec_prefix_bid());
    let mut r: Vec<Vec<u8>> = Vec::new();
    r.push(tag);
    r.push(crate::keys::copy_bytes(&bidder.bytes));
    r.push(crate::keys::copy_bytes(&mint.bytes));
    assert(r.deep_view() =~~= spec_bid_seeds(bidder@, mint@));
    r
}

pub fn metadata_seeds(mint: &AccountId) -> (r: Vec<Vec<u8>>)
    ensures
        r.deep_view() == spec_metadata_seeds(mint@),
{
    let tag: Vec<u8> = vec![109u8, 101u8, 116u8, 97u8, 100u8, 97u8, 116u8, 97u8];
    assert(tag@ =~= spec_prefix_metadata());
    let mut r: Vec<Vec<u8>> = Vec::new();
    r.push(tag);
    r.push(metadata_program_id().bytes);
    r.push(crate::keys::copy_bytes(&mint.bytes));
    assert(r.deep_view() =~~= spec_metadata_seeds(mint@));
    r
}

} // verus!
