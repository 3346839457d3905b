use vstd::prelude::*;

use crate::errors::BidError;
use crate::keys::{id_eq, AccountId};

verus! {

/// Mathematical image of one bid record.
pub ghost struct BidView {
    pub bidder: Seq<u8>,
    pub mint: Seq<u8>,
    pub bid_amount: u64,
    pub bump: u8,
}

/// One outstanding bid: who bids, on which asset, how much, and the
/// derivation salt that proves the record's address is the canonical one
/// for the (bidder, asset) pair.
pub struct BidAccount {
    pub bidder: AccountId,
    pub mint: AccountId,
    pub bid_amount: u64,
    pub bump: u8,
}

impl View for BidAccount {
    type V = BidView;

    open spec fn view(&self) -> BidView {
        BidView { bidder: self.bidder@, mint: self.mint@, bid_amount: self.bid_amount, bump: self.bump }
    }
}

impl BidAccount {
    pub open spec fn wf(&self) -> bool {
        self.bidder.wf() && self.mint.wf()
    }

    /// An independent copy of the record.
    pub fn duplicate(&self) -> (r: BidAccount)
        ensures
            r@ == self@,
    {
        BidAccount {
            bidder: self.bidder.duplicate(),
            mint: self.mint.duplicate(),
            bid_amount: self.bid_amount,
            bump: self.bump,
        }
    }
}

/// A live bid for the pair stands somewhere in the book.
pub open spec fn has_bid(s: Seq<BidView>, bidder: Seq<u8>, mint: Seq<u8>) -> bool {
    exists|i: int| 0 <= i < s.len() && s[i].bidder == bidder && s[i].mint == mint
}

/// The index of the pair's record; meaningful only when `has_bid` holds
/// (with a well-formed book it is then unique).
pub open spec fn bid_index(s: Seq<BidView>, bidder: Seq<u8>, mint: Seq<u8>) -> int {
    choose|i: int| 0 <= i < s.len() && s[i].bidder == bidder && s[i].mint == mint
}

/// A second creation for the same (bidder, asset) pair necessarily finds
/// the pair live: once `init_bid` has pushed the pair's record, the
/// duplicate condition under which `init_bid` fails with `DuplicateBid`
/// and leaves the book unchanged holds of the resulting book.
pub proof fn lemma_second_init_is_duplicate(
    s: Seq<BidView>,
    bidder: Seq<u8>,
    mint: Seq<u8>,
    bid_amount: u64,
    bump: u8,
)
    ensures
        has_bid(s.push(BidView { bidder, mint, bid_amount, bump }), bidder, mint),
{
    let pushed = s.push(BidView { bidder, mint, bid_amount, bump });
    assert(pushed[s.len() as int].bidder == bidder);
    assert(pushed[s.len() as int].mint == mint);
}

/// All live bid records. At most one per (bidder, asset) pair: each
/// record's address derives from that pair alone, so a second record for
/// the pair cannot be created beside the first.
pub struct BidBook {
    pub bids: Vec<BidAccount>,
}

impl View for BidBook {
    type V = Seq<BidView>;

    open spec fn view(&self) -> Seq<BidView> {
        self.bids@.map_values(|b: BidAccount| b@)
    }
}

impl BidBook {
    pub open spec fn wf(&self) -> bool {
        &&& forall|i: int|
            0 <= i < self@.len() ==> (#[trigger] self@[i]).bidder.len() == 32 && self@[i].mint.len()
                == 32
        &&& forall|i: int, j: int|
            0 <= i < j < self@.len() ==> !((#[trigger] self@[i]).bidder == (#[trigger] self@[j]).bidder
                && self@[i].mint == self@[j].mint)
    }

    /// An empty book.
    pub fn empty() -> (r: BidBook)
        ensures
            r.wf(),
            r@ =~= Seq::<BidView>::empty(),
    {
        BidBook { bids: Vec::new() }
    }

    /// Where the pair's record stands, if anywhere.
    pub fn find_index(&self, bidder: &AccountId, mint: &AccountId) -> (r: Option<usize>)
        ensures
            r matches Some(i) ==> 0 <= i < self@.len() && self@[i as int].bidder == bidder@
                && self@[i as int].mint == mint@,
            r is None ==> !has_bid(self@, bidder@, mint@),
    {
        let mut i: usize = 0;
        while i < self.bids.len()
            invariant
                i <= self@.len(),
                self@.len() == self.bids@.len(),
                forall|j: int|
                    0 <= j < i ==> !((#[trigger] self@[j]).bidder == bidder@ && self@[j].mint
                        == mint@),
            decreases self@.len() - i,
        {
            let b = &self.bids[i];
            if id_eq(&b.bidder, bidder) && id_eq(&b.mint, mint) {
                return Some(i);
            }
            i = i + 1;
        }
        None
    }

    /// Whether a live record for the pair exists.
    pub fn contains(&self, bidder: &AccountId, mint: &AccountId) -> (r: bool)
        requires
            self.wf(),
        ensures
            r == has_bid(self@, bidder@, mint@),
    {
        match self.find_index(bidder, mint) {
            Some(i) => {
                assert(has_bid(self@, bidder@, mint@));
                true
            },
            None => false,
        }
    }

    /// The stored amount of the pair's record, if one exists.
    pub fn bid_amount_of(&self, bidder: &AccountId, mint: &AccountId) -> (r: Option<u64>)
        requires
            self.wf(),
        ensures
            r is Some <==> has_bid(self@, bidder@, mint@),
            r matches Some(a) ==> a == self@[bid_index(self@, bidder@, mint@)].bid_amount,
    {
        match self.find_index(bidder, mint) {
            Some(i) => {
                proof {
                    assert(has_bid(self@, bidder@, mint@));
                    self.lemma_index_unique(i as int, bidder@, mint@);
                }
                Some(self.bids[i].bid_amount)
            },
            None => None,
        }
    }

    /// With a well-formed book, any index holding the pair is the pair's
    /// unique index.
    pub proof fn lemma_index_unique(&self, i: int, bidder: Seq<u8>, mint: Seq<u8>)
        requires
            self.wf(),
            0 <= i < self@.len(),
            self@[i].bidder == bidder,
            self@[i].mint == mint,
        ensures
            bid_index(self@, bidder, mint) == i,
    {
        assert(has_bid(self@, bidder, mint));
        let k = bid_index(self@, bidder, mint);
        if k < i {
            assert(!(self@[k].bidder == self@[i].bidder && self@[k].mint == self@[i].mint));
        } else if i < k {
            assert(!(self@[i].bidder == self@[k].bidder && self@[i].mint == self@[k].mint));
        }
    }

    /// The canonical address of the pair's record, with its derivation
    /// salt: derived from the bid namespace tag, the bidder and the asset,
    /// under this program. Creation at this address is what makes a second
    /// record for the pair impossible. Nothing comes back only in the
    /// statistically improbable case that no salt derives.
    pub fn bid_record_address(bidder: &AccountId, mint: &AccountId) -> (r: Option<(AccountId, u8)>)
        requires
            bidder.wf(),
            mint.wf(),
        ensures
            r is Some <==> crate::pda::found_pda(
                crate::seeds::spec_bid_seeds(bidder@, mint@),
                crate::seeds::spec_program_id(),
            ) is Some,
            r matches Some(p) ==> crate::pda::found_pda(
                crate::seeds::spec_bid_seeds(bidder@, mint@),
                crate::seeds::spec_program_id(),
            ) == Some((p.0@, p.1)) && p.0.wf(),
    {
        let seeds = crate::seeds::bid_seeds(bidder, mint);
        let pid = crate::seeds::program_id();
        crate::pda::try_find_pda(&seeds, &pid)
    }

    /// Create the pair's record. A record for the pair sits at an address
    /// derived from the pair alone, so creation fails when one already
    /// exists; nothing is stored then and the old record is unaffected.
    pub fn init_bid(
        &mut self,
        bidder: &AccountId,
        mint: &AccountId,
        bid_amount: u64,
        bump_bid: u8,
    ) -> (r: Result<(), BidError>)
        requires
            old(self).wf(),
            bidder.wf(),
            mint.wf(),
        ensures
            final(self).wf(),
            r is Err <==> has_bid(old(self)@, bidder@, mint@),
            r is Err ==> r == Err::<(), BidError>(BidError::DuplicateBid) && final(self)@ == old(self)@,
            r is Ok ==> final(self)@ =~= old(self)@.push(
                BidView { bidder: bidder@, mint: mint@, bid_amount, bump: bump_bid },
            ),
    {
        match self.find_index(bidder, mint) {
            Some(i) => {
                assert(has_bid(self@, bidder@, mint@));
                Err(BidError::DuplicateBid)
            },
            None => {
                let rec = BidAccount {
                    bidder: bidder.duplicate(),
                    mint: mint.duplicate(),
                    bid_amount,
                    bump: bump_bid,
                };
                self.bids.push(rec);
                assert(self@ =~= old(self)@.push(
                    BidView { bidder: bidder@, mint: mint@, bid_amount, bump: bump_bid },
                ));
                assert forall|i: int, j: int| 0 <= i < j < self@.len() implies !((#[trigger] self@[i]).bidder
                    == (#[trigger] self@[j]).bidder && self@[i].mint == self@[j].mint) by {
                    if j == self@.len() - 1 {
                        assert(!has_bid(old(self)@, bidder@, mint@));
                        assert(old(self)@[i] == self@[i]);
                    }
                }
                Ok(())
            },
        }
    }

    /// Replace the stored amount of the caller's record for the asset. Only
    /// the record's owner reaches it: the record is addressed by the
    /// caller's own identity, so a non-owning caller finds no record and
    /// fails with `NotOwner`, leaving every stored amount unchanged.
    pub fn update_bid(&mut self, bidder: &AccountId, mint: &AccountId, bid_amount: u64) -> (r:
        Result<(), BidError>)
        requires
            old(self).wf(),
        ensures
            final(self).wf(),
            r is Err <==> !has_bid(old(self)@, bidder@, mint@),
            r is Err ==> r == Err::<(), BidError>(BidError::NotOwner) && final(self)@ == old(self)@,
            r is Ok ==> final(self)@ =~= old(self)@.update(
                bid_index(old(self)@, bidder@, mint@),
                BidView { bid_amount, ..old(self)@[bid_index(old(self)@, bidder@, mint@)] },
            ),
    {
        match self.find_index(bidder, mint) {
            Some(i) => {
                proof {
                    assert(has_bid(self@, bidder@, mint@));
                    self.lemma_index_unique(i as int, bidder@, mint@);
                }
                let mut rec = self.bids.remove(i);
                rec.bid_amount = bid_amount;
                self.bids.insert(i, rec);
                assert(self@ =~= old(self)@.update(
                    i as int,
                    BidView { bid_amount, ..old(self)@[i as int] },
                ));
                Ok(())
            },
            None => Err(BidError::NotOwner),
        }
    }

    /// Destroy the caller's record for the asset, reclaiming its storage to
    /// the caller. Ownership is enforced as in `update_bid`. Any funds in
    /// the caller's vault stay where they are.
    pub fn cancel_bid(&mut self, bidder: &AccountId, mint: &AccountId) -> (r: Result<
        (),
        BidError,
    >)
        requires
            old(self).wf(),
        ensures
            final(self).wf(),
            r is Err <==> !has_bid(old(self)@, bidder@, mint@),
            r is Err ==> r == Err::<(), BidError>(BidError::NotOwner) && final(self)@ == old(self)@,
            r is Ok ==> final(self)@ =~= old(self)@.remove(bid_index(old(self)@, bidder@, mint@)),
    {
        match self.find_index(bidder, mint) {
            Some(i) => {
                proof {
                    assert(has_bid(self@, bidder@, mint@));
                    self.lemma_index_unique(i as int, bidder@, mint@);
                }
                self.bids.remove(i);
                assert(self@ =~= old(self)@.remove(i as int));
                Ok(())
            },
            None => Err(BidError::NotOwner),
        }
    }
}

} // verus!
