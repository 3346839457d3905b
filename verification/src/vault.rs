use vstd::prelude::*;

use crate::errors::BidError;
use crate::keys::AccountId;
use crate::pda::{create_pda, created_pda, found_pda, try_find_pda};
use crate::seeds::{program_id, spec_program_id, spec_vault_seeds, vault_seeds};

verus! {

/// Mathematical image of a vault.
pub ghost struct VaultView {
    pub bidder: Seq<u8>,
    pub address: Seq<u8>,
    pub bump: u8,
    pub balance: u64,
}

/// A program-controlled custody account holding one bidder's escrowed
/// funds. Its address derives from a fixed namespace tag plus the bidder's
/// identity; moving funds out needs that derivation re-proved, not the
/// bidder's signature. One vault aggregates the funds behind all of the
/// bidder's outstanding bids.
pub struct Vault {
    pub bidder: AccountId,
    pub address: AccountId,
    pub bump: u8,
    pub balance: u64,
}

impl View for Vault {
    type V = VaultView;

    open spec fn view(&self) -> VaultView {
        VaultView {
            bidder: self.bidder@,
            address: self.address@,
            bump: self.bump,
            balance: self.balance,
        }
    }
}

/// The supplied salt re-derives the vault's address: the authority proof
/// for moving funds out of the vault.
pub open spec fn salt_proves(bidder: Seq<u8>, salt: u8, address: Seq<u8>) -> bool {
    created_pda(spec_vault_seeds(bidder).push(seq![salt]), spec_program_id()) == Some(address)
}

impl Vault {
    pub open spec fn wf(&self) -> bool {
        self.bidder.wf() && self.address.wf()
    }

    /// Open (create empty) the vault of a bidder at its canonical derived
    /// address. Returns nothing only in the statistically improbable case
    /// that no derivation salt yields a valid address.
    pub fn open_vault(bidder: &AccountId) -> (r: Option<Vault>)
        requires
            bidder.wf(),
        ensures
            r is Some <==> found_pda(spec_vault_seeds(bidder@), spec_program_id()) is Some,
            r matches Some(v) ==> v.wf() && v@.bidder == bidder@ && v@.balance == 0
                && found_pda(spec_vault_seeds(bidder@), spec_program_id()) == Some(
                (v@.address, v@.bump),
            ) && salt_proves(bidder@, v@.bump, v@.address),
    {
        let seeds = vault_seeds(bidder);
        let pid = program_id();
        match try_find_pda(&seeds, &pid) {
            Some((address, bump)) => Some(
                Vault { bidder: bidder.duplicate(), address, bump, balance: 0 },
            ),
            None => None,
        }
    }

    /// Move `amount` of the bidder's free balance into the vault. The
    /// bidder authorizes this as transaction signer; it fails only when the
    /// free balance cannot cover the amount, and then changes nothing.
    pub fn add_to_vault(&mut self, available: u64, amount: u64) -> (r: Result<(), BidError>)
        requires
            old(self).wf(),
            old(self)@.balance + amount <= u64::MAX,
        ensures
            final(self).wf(),
            final(self)@.bidder == old(self)@.bidder,
            final(self)@.address == old(self)@.address,
            final(self)@.bump == old(self)@.bump,
            r is Err <==> amount > available,
            r is Err ==> r == Err::<(), BidError>(BidError::InsufficientFunds)
                && final(self)@.balance == old(self)@.balance,
            r is Ok ==> final(self)@.balance == old(self)@.balance + amount,
    {
        if amount > available {
            return Err(BidError::InsufficientFunds);
        }
        self.balance = self.balance + amount;
        Ok(())
    }

    /// Move `amount` from the vault back to the bidder. Authority over the
    /// program-owned vault is proved by re-deriving its address from the
    /// namespace tag, the bidder and the supplied salt; a salt that does
    /// not reproduce the address fails with `BadDerivation`, an amount
    /// above the balance with `InsufficientFunds`, and on any failure the
    /// balance is unchanged — it never goes below zero.
    pub fn withdraw_from_vault(&mut self, amount: u64, bump_vault: u8) -> (r: Result<
        (),
        BidError,
    >)
        requires
            old(self).wf(),
        ensures
            final(self).wf(),
            final(self)@.bidder == old(self)@.bidder,
            final(self)@.address == old(self)@.address,
            final(self)@.bump == old(self)@.bump,
            r == Err::<(), BidError>(BidError::BadDerivation) <==> !salt_proves(
                old(self)@.bidder,
                bump_vault,
                old(self)@.address,
            ),
            r == Err::<(), BidError>(BidError::InsufficientFunds) <==> salt_proves(
                old(self)@.bidder,
                bump_vault,
                old(self)@.address,
            ) && amount > old(self)@.balance,
            r is Err ==> final(self)@.balance == old(self)@.balance,
            r is Ok <==> salt_proves(old(self)@.bidder, bump_vault, old(self)@.address)
                && amount <= old(self)@.balance,
            r is Ok ==> final(self)@.balance == old(self)@.balance - amount,
    {
        let mut seeds = vault_seeds(&self.bidder);
        let mut salt: Vec<u8> = Vec::new();
        salt.push(bump_vault);
        seeds.push(salt);
        proof {
            assert(seeds.deep_view() =~~= spec_vault_seeds(self.bidder@).push(seq![bump_vault]));
        }
        let pid = program_id();
        let derived = create_pda(&seeds, &pid);
        let proves = match derived {
            Some(a) => crate::keys::id_eq(&a, &self.address),
            None => false,
        };
        if !proves {
            return Err(BidError::BadDerivation);
        }
        if amount > self.balance {
            return Err(BidError::InsufficientFunds);
        }
        self.balance = self.balance - amount;
        Ok(())
    }
}

} // verus!
