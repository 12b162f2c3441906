//! The escrow vault: a pooled balance of one configured stake asset.
//!
//! On a real host this is a ledger vault holding fungible tokens; here a
//! stake is a plain value naming its asset kind and its amount in whole
//! units, and the vault keeps, besides the pooled balance, running totals
//! of everything ever deposited and ever paid out, so that conservation
//! of stake is part of the vault's own well-formedness.

use vstd::prelude::*;

verus! {

/// A quantity of a fungible stake asset: the value handed to the
/// component with a move and handed back by a claim. `resource`
/// identifies the asset kind; `amount` counts whole stake units.
#[derive(Clone, Copy, PartialEq, Eq, Structural, Debug)]
pub struct Stake {
    pub resource: u64,
    pub amount: u64,
}

/// The escrow vault. `deposited` and `paid_out` are ghost running totals;
/// the executable state is the asset kind and the pooled balance.
pub struct Vault {
    pub resource: u64,
    pub balance: u64,
    pub deposited: Ghost<nat>,
    pub paid_out: Ghost<nat>,
}

/// `post` is `pre` after exactly one stake unit was deposited.
pub open spec fn deposited_one(pre: Vault, post: Vault) -> bool {
    &&& post.resource == pre.resource
    &&& post.balance == pre.balance + 1
    &&& post.deposited@ == pre.deposited@ + 1
    &&& post.paid_out@ == pre.paid_out@
}

/// `post` is `pre` after `amount` units were paid out.
pub open spec fn withdrew(pre: Vault, post: Vault, amount: u64) -> bool {
    &&& amount <= pre.balance
    &&& post.resource == pre.resource
    &&& post.balance == pre.balance - amount
    &&& post.deposited@ == pre.deposited@
    &&& post.paid_out@ == pre.paid_out@ + amount
}

impl Vault {
    /// Conservation of stake: the pooled balance is exactly the total
    /// deposited minus the total paid out.
    pub open spec fn wf(self) -> bool {
        &&& self.paid_out@ <= self.deposited@
        &&& self.balance == self.deposited@ - self.paid_out@
    }

    /// An empty vault for the given stake asset.
    pub fn new(resource: u64) -> (vault: Vault)
        ensures
            vault.wf(),
            vault.resource == resource,
            vault.balance == 0,
            vault.deposited@ == 0,
            vault.paid_out@ == 0,
    {
        Vault { resource, balance: 0, deposited: Ghost(0), paid_out: Ghost(0) }
    }

    /// Put a validated stake into the pool. Callers validate the asset
    /// kind and the amount before taking custody.
    pub fn deposit(&mut self, stake: Stake)
        requires
            old(self).wf(),
            stake.resource == old(self).resource,
            stake.amount == 1,
            old(self).balance < u64::MAX,
        ensures
            final(self).wf(),
            deposited_one(*old(self), *final(self)),
    {
        self.balance = self.balance + 1;
        proof {
            self.deposited@ = self.deposited@ + 1;
        }
    }

    /// Take `amount` units out of the pool, refusing rather than
    /// overdrawing: a request beyond the current balance returns `None`
    /// and changes nothing.
    pub fn withdraw(&mut self, amount: u64) -> (result: Option<Stake>)
        requires
            old(self).wf(),
        ensures
            final(self).wf(),
            amount <= old(self).balance ==> {
                &&& result == Some((Stake { resource: old(self).resource, amount }))
                &&& withdrew(*old(self), *final(self), amount)
            },
            amount > old(self).balance ==> {
                &&& result is None
                &&& *final(self) == *old(self)
            },
    {
        if amount <= self.balance {
            self.balance = self.balance - amount;
            proof {
                self.paid_out@ = self.paid_out@ + amount as nat;
            }
            Some(Stake { resource: self.resource, amount })
        } else {
            None
        }
    }

    /// Conservation of stake, stated on its own: in any well-formed vault
    /// the balance accounts exactly for the difference between stakes
    /// deposited and stakes paid out.
    pub proof fn lemma_conservation(self)
        requires
            self.wf(),
        ensures
            self.balance == self.deposited@ - self.paid_out@,
    {
    }
}

} // verus!
