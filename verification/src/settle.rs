use vstd::prelude::*;

use crate::errors::BidError;
use crate::keys::{id_eq, AccountId};
use crate::metadata::{decode_metadata, spec_decode_metadata, RoyaltyView};
use crate::pda::found_pda;
use crate::registry::{bid_index, has_bid, BidAccount, BidBook, BidView};
use crate::seeds::{
    sales_tax_recipient, spec_metadata_program_id, spec_metadata_seeds, spec_sales_tax_recipient,
};
use crate::vault::{salt_proves, Vault};
use vstd::arithmetic::div_mod::{
    lemma_div_denominator, lemma_div_is_ordered, lemma_div_multiples_vanish,
};
use vstd::arithmetic::mul::lemma_mul_inequality;

verus! {

/// Platform sales fee, in basis points, charged on every accepted bid.
pub const SALES_TAX: u64 = 250;

/// Basis points in a whole.
pub const BPS_DENOM: u64 = 10000;

/// Divisor of the royalty-total formula. Deliberately ten times the basis
/// point denominator: the historical scaling this core must reproduce.
pub const ROYALTY_DENOM: u64 = 100000;

/// A creator share is expressed as parts of 100.
pub const SHARE_DENOM: u64 = 100;

/// Mathematical image of the fee configuration.
pub ghost struct FeeConfigView {
    pub recipient: Seq<u8>,
    pub fee_bps: u64,
}

/// The platform's immutable fee configuration: who receives the sales fee
/// and how many basis points it is. Injected rather than read from a
/// global, so alternate recipients can be exercised.
pub struct FeeConfig {
    pub recipient: AccountId,
    pub fee_bps: u64,
}

impl View for FeeConfig {
    type V = FeeConfigView;

    open spec fn view(&self) -> FeeConfigView {
        FeeConfigView { recipient: self.recipient@, fee_bps: self.fee_bps }
    }
}

impl FeeConfig {
    pub open spec fn wf(&self) -> bool {
        self.recipient.wf() && self.fee_bps <= BPS_DENOM
    }
}

/// The fixed production configuration: the hardcoded sales-tax recipient
/// and the standard platform fee.
pub fn standard_fee_config() -> (r: FeeConfig)
    ensures
        r.wf(),
        r@.recipient == spec_sales_tax_recipient(),
        r@.fee_bps == SALES_TAX,
{
    FeeConfig { recipient: sales_tax_recipient(), fee_bps: SALES_TAX }
}

/// Mathematical image of one royalty payout step.
pub ghost struct CreatorPayoutView {
    pub creator: Seq<u8>,
    pub amount: u64,
}

/// One royalty payout: seller pays `amount` to `creator`.
pub struct CreatorPayout {
    pub creator: AccountId,
    pub amount: u64,
}

impl View for CreatorPayout {
    type V = CreatorPayoutView;

    open spec fn view(&self) -> CreatorPayoutView {
        CreatorPayoutView { creator: self.creator@, amount: self.amount }
    }
}

/// Mathematical image of a settlement plan.
pub ghost struct SettlementPlanView {
    pub bidder: Seq<u8>,
    pub owner: Seq<u8>,
    pub tax_recipient: Seq<u8>,
    pub price: u64,
    pub platform_fee: u64,
    pub royalty_total: u64,
    pub payouts: Seq<CreatorPayoutView>,
}

/// Every transfer a validated acceptance performs, computed before any
/// funds move: the vault pays `price` to the owner, the asset's custody
/// unit moves from owner to bidder, the owner pays `platform_fee` to the
/// tax recipient and each listed payout to a creator, and the bid record
/// closes. The host applies it atomically or not at all.
pub struct SettlementPlan {
    pub bidder: AccountId,
    pub owner: AccountId,
    pub tax_recipient: AccountId,
    pub price: u64,
    pub platform_fee: u64,
    pub royalty_total: u64,
    pub payouts: Vec<CreatorPayout>,
}

impl View for SettlementPlan {
    type V = SettlementPlanView;

    open spec fn view(&self) -> SettlementPlanView {
        SettlementPlanView {
            bidder: self.bidder@,
            owner: self.owner@,
            tax_recipient: self.tax_recipient@,
            price: self.price,
            platform_fee: self.platform_fee,
            royalty_total: self.royalty_total,
            payouts: self.payouts@.map_values(|p: CreatorPayout| p@),
        }
    }
}

impl SettlementPlan {
    pub open spec fn wf(&self) -> bool {
        &&& self.bidder.wf()
        &&& self.owner.wf()
        &&& self.tax_recipient.wf()
        &&& forall|i: int|
            0 <= i < self@.payouts.len() ==> (#[trigger] self@.payouts[i]).creator.len() == 32
    }
}

/// The platform fee on a sale: truncating basis-point percentage.
pub open spec fn spec_platform_fee(fee_bps: u64, price: u64) -> int {
    fee_bps * price / (BPS_DENOM as int)
}

/// The royalty pool of a sale. The divisor is ten times the basis-point
/// denominator; this exact scaling is load bearing and preserved.
pub open spec fn spec_royalty_total(sfbp: u16, price: u64) -> int {
    sfbp * price / (ROYALTY_DENOM as int)
}

/// One creator's cut of the royalty pool: truncating parts-of-100 share.
pub open spec fn spec_creator_royalty(share: u8, royalty_total: u64) -> int {
    share * royalty_total / (SHARE_DENOM as int)
}

/// The supplied metadata account is the one derived from the asset.
pub open spec fn metadata_address_ok(mint: Seq<u8>, supplied: Seq<u8>) -> bool {
    match found_pda(spec_metadata_seeds(mint), spec_metadata_program_id()) {
        Some(p) => p.0 == supplied,
        None => false,
    }
}

/// Decoded metadata whose seller fee plus the platform fee exceeds the
/// whole. Undecodable metadata carries no fee to object to.
pub open spec fn fee_too_high(md: Option<RoyaltyView>, fee_bps: u64) -> bool {
    match md {
        Some(m) => m.seller_fee_basis_points + fee_bps > BPS_DENOM,
        None => false,
    }
}

/// The identities of a sequence of accounts.
pub open spec fn ids_view(v: Seq<AccountId>) -> Seq<Seq<u8>> {
    v.map_values(|a: AccountId| a@)
}

/// The supplied creator accounts fail to match a decoded creator list:
/// wrong length, or some position's identity differs. Without a decoded
/// creator list there is nothing to mismatch.
pub open spec fn creators_mismatch(md: Option<RoyaltyView>, supplied: Seq<Seq<u8>>) -> bool {
    match md {
        Some(m) => match m.creators {
            Some(cs) => cs.len() != supplied.len() || exists|i: int|
                0 <= i < cs.len() && (#[trigger] cs[i]).address != supplied[i],
            None => false,
        },
        None => false,
    }
}

/// All four acceptance validations pass: amount, metadata address,
/// royalty fee, creator list — in that order of checking.
pub open spec fn acceptance_valid(
    stored: BidView,
    bid_amount: u64,
    metadata_supplied: Seq<u8>,
    metadata_bytes: Seq<u8>,
    creators: Seq<Seq<u8>>,
    fee_bps: u64,
) -> bool {
    &&& bid_amount == stored.bid_amount
    &&& metadata_address_ok(stored.mint, metadata_supplied)
    &&& !fee_too_high(spec_decode_metadata(metadata_bytes), fee_bps)
    &&& !creators_mismatch(spec_decode_metadata(metadata_bytes), creators)
}

/// The plan a validated acceptance must produce: the stored price goes
/// from vault to owner, the platform fee is the truncating basis-point
/// percentage of the price, the royalty pool uses the ten-fold divisor,
/// and each decoded creator receives their truncating parts-of-100 share
/// of the pool — in list order, one payout per decoded creator, none when
/// metadata is undecodable or carries no list.
pub open spec fn plan_correct(
    p: SettlementPlanView,
    stored: BidView,
    owner: Seq<u8>,
    config: FeeConfigView,
    md: Option<RoyaltyView>,
) -> bool {
    &&& p.bidder == stored.bidder
    &&& p.owner == owner
    &&& p.tax_recipient == config.recipient
    &&& p.price == stored.bid_amount
    &&& p.platform_fee == spec_platform_fee(config.fee_bps, stored.bid_amount)
    &&& (match md {
        Some(m) => p.royalty_total == spec_royalty_total(
            m.seller_fee_basis_points,
            stored.bid_amount,
        ),
        None => p.royalty_total == 0,
    })
    &&& (match md {
        Some(m) => match m.creators {
            Some(cs) => p.payouts.len() == cs.len() && forall|i: int|
                0 <= i < cs.len() ==> (#[trigger] p.payouts[i]).creator == cs[i].address
                    && p.payouts[i].amount == spec_creator_royalty(cs[i].share, p.royalty_total),
            None => p.payouts.len() == 0,
        },
        None => p.payouts.len() == 0,
    })
}

/// Truncating `a * b / d`, exact over the full u64 range.
fn mul_div(a: u64, b: u64, d: u64) -> (r: u64)
    requires
        0 < d,
        a * b / (d as int) <= u64::MAX,
    ensures
        r == a * b / (d as int),
{
    proof {
        lemma_mul_inequality(a as int, u64::MAX as int, b as int);
        lemma_mul_inequality(b as int, u64::MAX as int, u64::MAX as int);
    }
    let q: u128 = ((a as u128) * (b as u128)) / (d as u128);
    q as u64
}

/// `a * b / d` never exceeds `b` when `a` is at most `d`.
proof fn lemma_fraction_at_most_whole(a: int, b: int, d: int)
    requires
        0 <= a <= d,
        0 <= b,
        0 < d,
    ensures
        a * b / d <= b,
{
    lemma_mul_inequality(a, d, b);
    lemma_div_is_ordered(a * b, d * b, d);
    lemma_div_multiples_vanish(b, d);
}

/// The royalty pool is at most a tenth of the price, and each creator's
/// cut therefore fits a u64.
proof fn lemma_royalty_bounds(sfbp: u16, price: u64, share: u8)
    requires
        sfbp as int <= BPS_DENOM as int,
    ensures
        spec_royalty_total(sfbp, price) <= price / 10,
        spec_royalty_total(sfbp, price) <= u64::MAX,
        share * ((spec_royalty_total(sfbp, price)) as u64) / (SHARE_DENOM as int) <= u64::MAX,
{
    let p = price as int;
    lemma_mul_inequality(sfbp as int, 10000, p);
    lemma_div_is_ordered(sfbp as int * p, 10000 * p, 100000);
    lemma_div_denominator(10000 * p, 10000, 10);
    lemma_div_multiples_vanish(p, 10000);
    assert(10000 * p / 100000 == p / 10);
    assert(spec_royalty_total(sfbp, price) <= p / 10);
    lemma_div_is_ordered(p, u64::MAX as int, 10);
    let rt = spec_royalty_total(sfbp, price) as u64;
    lemma_mul_inequality(share as int, 255, rt as int);
    lemma_div_is_ordered(share as int * rt as int, 255 * (rt as int), 100);
    lemma_mul_inequality(rt as int, u64::MAX as int / 10, 255);
    lemma_div_is_ordered(255 * (rt as int), 255 * (u64::MAX as int / 10), 100);
}

/// Validate an acceptance and compute every transfer it performs, without
/// moving anything. The checks come in the fixed order amount, metadata
/// address, royalty fee, creator list; the first to fail names the error
/// and nothing is planned. Undecodable metadata is no error: the plan then
/// carries no royalty payouts at all.
#[verifier::loop_isolation(false)]
pub fn settlement_plan(
    bid: &BidAccount,
    bid_amount: u64,
    owner: &AccountId,
    metadata_account: &AccountId,
    metadata_bytes: &Vec<u8>,
    creators: &Vec<AccountId>,
    config: &FeeConfig,
) -> (r: Result<SettlementPlan, BidError>)
    requires
        bid.wf(),
        owner.wf(),
        config.wf(),
    ensures
        r == Err::<SettlementPlan, BidError>(BidError::BidAmountMismatch) <==> bid_amount
            != bid@.bid_amount,
        r == Err::<SettlementPlan, BidError>(BidError::InvalidMetadata) <==> bid_amount
            == bid@.bid_amount && !metadata_address_ok(bid@.mint, metadata_account@),
        r == Err::<SettlementPlan, BidError>(BidError::InvalidRoyaltyFee) <==> bid_amount
            == bid@.bid_amount && metadata_address_ok(bid@.mint, metadata_account@)
            && fee_too_high(spec_decode_metadata(metadata_bytes@), config@.fee_bps),
        r == Err::<SettlementPlan, BidError>(BidError::CreatorMismatch) <==> bid_amount
            == bid@.bid_amount && metadata_address_ok(bid@.mint, metadata_account@)
            && !fee_too_high(spec_decode_metadata(metadata_bytes@), config@.fee_bps)
            && creators_mismatch(spec_decode_metadata(metadata_bytes@), ids_view(creators@)),
        r is Ok <==> bid_amount == bid@.bid_amount && metadata_address_ok(
            bid@.mint,
            metadata_account@,
        ) && !fee_too_high(spec_decode_metadata(metadata_bytes@), config@.fee_bps)
            && !creators_mismatch(spec_decode_metadata(metadata_bytes@), ids_view(creators@)),
        r matches Ok(plan) ==> plan.wf() && plan_correct(
            plan@,
            bid@,
            owner@,
            config@,
            spec_decode_metadata(metadata_bytes@),
        ),
{
    let price = bid.bid_amount;
    if bid_amount != price {
        return Err(BidError::BidAmountMismatch);
    }
    let address_ok = match crate::metadata::get_metadata_account(&bid.mint) {
        Some(derived) => id_eq(&derived, metadata_account),
        None => false,
    };
    if !address_ok {
        return Err(BidError::InvalidMetadata);
    }
    proof {
        lemma_fraction_at_most_whole(config@.fee_bps as int, price as int, BPS_DENOM as int);
    }
    let platform_fee = mul_div(config.fee_bps, price, BPS_DENOM);
    let md_res = decode_metadata(metadata_bytes);
    match md_res {
        Err(_decode_failure) => Ok(
            SettlementPlan {
                bidder: bid.bidder.duplicate(),
                owner: owner.duplicate(),
                tax_recipient: config.recipient.duplicate(),
                price,
                platform_fee,
                royalty_total: 0,
                payouts: Vec::new(),
            },
        ),
        Ok(m) => {
            let sfbp = m.seller_fee_basis_points;
            if sfbp as u64 + config.fee_bps > BPS_DENOM {
                return Err(BidError::InvalidRoyaltyFee);
            }
            proof {
                lemma_royalty_bounds(sfbp, price, 255);
            }
            let royalty_total = mul_div(sfbp as u64, price, ROYALTY_DENOM);
            match m.creators {
                None => Ok(
                    SettlementPlan {
                        bidder: bid.bidder.duplicate(),
                        owner: owner.duplicate(),
                        tax_recipient: config.recipient.duplicate(),
                        price,
                        platform_fee,
                        royalty_total,
                        payouts: Vec::new(),
                    },
                ),
                Some(list) => {
                    if list.len() != creators.len() {
                        return Err(BidError::CreatorMismatch);
                    }
                    let mut payouts: Vec<CreatorPayout> = Vec::new();
                    let mut i: usize = 0;
                    while i < creators.len()
                        invariant
                            i <= creators@.len(),
                            payouts@.len() == i as int,
                            forall|j: int|
                                0 <= j < i ==> (#[trigger] list@[j])@.address == creators@[j]@,
                            forall|j: int|
                                0 <= j < i ==> (#[trigger] payouts@[j])@.creator == list@[j]@.address
                                    && payouts@[j]@.amount == spec_creator_royalty(
                                    list@[j]@.share,
                                    royalty_total,
                                ),
                        decreases creators@.len() - i,
                    {
                        let entry = &list[i];
                        let supplied = &creators[i];
                        if !id_eq(&entry.address, supplied) {
                            proof {
                                let md = spec_decode_metadata(metadata_bytes@);
                                let cs = md.unwrap().creators.unwrap();
                                assert(cs[i as int] == list@[i as int]@);
                                assert(ids_view(creators@)[i as int] == creators@[i as int]@);
                                assert(cs[i as int].address != ids_view(creators@)[i as int]);
                                assert(creators_mismatch(md, ids_view(creators@)));
                            }
                            return Err(BidError::CreatorMismatch);
                        }
                        proof {
                            lemma_royalty_bounds(sfbp, price, entry@.share);
                        }
                        let amount = mul_div(entry.share as u64, royalty_total, SHARE_DENOM);
                        payouts.push(CreatorPayout { creator: supplied.duplicate(), amount });
                        i = i + 1;
                    }
                    let plan = SettlementPlan {
                        bidder: bid.bidder.duplicate(),
                        owner: owner.duplicate(),
                        tax_recipient: config.recipient.duplicate(),
                        price,
                        platform_fee,
                        royalty_total,
                        payouts,
                    };
                    Ok(plan)
                },
            }
        },
    }
}

/// Accept the live bid of `bidder` on `mint`. All validations and both
/// resource checks run before anything moves; only then does the escrowed
/// price leave the vault and the bid record close, and the full payout
/// plan is handed back for the host to perform in the same atomic step.
/// On any error the book and the vault are exactly as they were: a failed
/// acceptance performs zero transfers.
pub fn accept_bid(
    book: &mut BidBook,
    vault: &mut Vault,
    owner: &AccountId,
    bidder: &AccountId,
    mint: &AccountId,
    bid_amount: u64,
    bump_vault: u8,
    metadata_account: &AccountId,
    metadata_bytes: &Vec<u8>,
    creators: &Vec<AccountId>,
    config: &FeeConfig,
) -> (r: Result<SettlementPlan, BidError>)
    requires
        old(book).wf(),
        old(vault).wf(),
        owner.wf(),
        bidder.wf(),
        mint.wf(),
        config.wf(),
        has_bid(old(book)@, bidder@, mint@),
    ensures
        final(book).wf(),
        final(vault).wf(),
        final(vault)@.bidder == old(vault)@.bidder,
        final(vault)@.address == old(vault)@.address,
        final(vault)@.bump == old(vault)@.bump,
        r is Err ==> final(book)@ == old(book)@ && final(vault)@ == old(vault)@,
        ({
            let stored = old(book)@[bid_index(old(book)@, bidder@, mint@)];
            let md = spec_decode_metadata(metadata_bytes@);
            let valid = acceptance_valid(
                stored,
                bid_amount,
                metadata_account@,
                metadata_bytes@,
                ids_view(creators@),
                config@.fee_bps,
            );
            let proves = salt_proves(old(vault)@.bidder, bump_vault, old(vault)@.address);
            &&& (r == Err::<SettlementPlan, BidError>(BidError::BidAmountMismatch) <==> bid_amount
                != stored.bid_amount)
            &&& (r == Err::<SettlementPlan, BidError>(BidError::InvalidMetadata) <==> bid_amount
                == stored.bid_amount && !metadata_address_ok(stored.mint, metadata_account@))
            &&& (r == Err::<SettlementPlan, BidError>(BidError::InvalidRoyaltyFee) <==> bid_amount
                == stored.bid_amount && metadata_address_ok(stored.mint, metadata_account@)
                && fee_too_high(md, config@.fee_bps))
            &&& (r == Err::<SettlementPlan, BidError>(BidError::CreatorMismatch) <==> bid_amount
                == stored.bid_amount && metadata_address_ok(stored.mint, metadata_account@)
                && !fee_too_high(md, config@.fee_bps) && creators_mismatch(
                md,
                ids_view(creators@),
            ))
            &&& (r == Err::<SettlementPlan, BidError>(BidError::BadDerivation) <==> valid
                && !proves)
            &&& (r == Err::<SettlementPlan, BidError>(BidError::InsufficientFunds) <==> valid
                && proves && stored.bid_amount > old(vault)@.balance)
            &&& (r is Ok <==> valid && proves && stored.bid_amount <= old(vault)@.balance)
            &&& (r matches Ok(plan) ==> plan.wf() && plan_correct(
                plan@,
                stored,
                owner@,
                config@,
                md,
            ) && final(vault)@.balance == old(vault)@.balance - stored.bid_amount
                && final(book)@ =~= old(book)@.remove(bid_index(old(book)@, bidder@, mint@)))
        }),
{
    let i = match book.find_index(bidder, mint) {
        Some(i) => i,
        None => {
            proof {
                assert(false);
            }
            return Err(BidError::NotOwner);
        },
    };
    proof {
        book.lemma_index_unique(i as int, bidder@, mint@);
    }
    let stored = book.bids[i].duplicate();
    let plan = match settlement_plan(
        &stored,
        bid_amount,
        owner,
        metadata_account,
        metadata_bytes,
        creators,
        config,
    ) {
        Ok(p) => p,
        Err(e) => { return Err(e) },
    };
    let price = stored.bid_amount;
    match vault.withdraw_from_vault(price, bump_vault) {
        Ok(u) => u,
        Err(e) => { return Err(e) },
    };
    match book.cancel_bid(bidder, mint) {
        Ok(u) => u,
        Err(_impossible) => {
            proof {
                assert(false);
            }
            return Err(BidError::NotOwner);
        },
    };
    Ok(plan)
}

} // verus!
