//! Settlement: the legs an operation hands to the custodial-balance service,
//! and the balance snapshot against which they are checked and applied.
use vstd::prelude::*;
use crate::pool::{AmmError, PoolSigner, Side};

verus! {

/// An end of a transfer: the caller's holding or the pool's vault.
#[derive(Clone, Copy, Debug, PartialEq, Eq, Structural)]
pub enum Party {
    Caller,
    Vault,
}

/// Who authorizes a leg: the end caller, or the pool through its signer.
#[derive(Clone, Copy, Debug, PartialEq, Eq, Structural)]
pub enum Authority {
    Caller,
    Pool(PoolSigner),
}

/// One balance movement, in the order the legs are to be carried out.
#[derive(Clone, Copy, Debug, PartialEq, Eq, Structural)]
pub enum Leg {
    Transfer { asset: u64, from: Party, to: Party, amount: u64, authority: Authority },
    Burn { asset: u64, holder: Party, amount: u64, authority: Authority },
}

/// The live balances of the two vaults and of the caller's two holdings.
#[derive(Clone, Copy, Debug, PartialEq, Eq, Structural)]
pub struct Balances {
    pub vault_x: u64,
    pub vault_y: u64,
    pub user_x: u64,
    pub user_y: u64,
}

impl Balances {
    pub open spec fn vault(self, side: Side) -> u64 {
        match side {
            Side::X => self.vault_x,
            Side::Y => self.vault_y,
        }
    }

    pub open spec fn user(self, side: Side) -> u64 {
        match side {
            Side::X => self.user_x,
            Side::Y => self.user_y,
        }
    }

    /// The caller holds `amount` and the vault can take it.
    pub open spec fn can_deposit(self, side: Side, amount: u64) -> bool {
        self.user(side) >= amount && self.vault(side) + amount <= u64::MAX
    }

    /// The vault holds `amount` and the caller can take it.
    pub open spec fn can_pay_out(self, side: Side, amount: u64) -> bool {
        self.vault(side) >= amount && self.user(side) + amount <= u64::MAX
    }

    pub open spec fn after_deposit(self, side: Side, amount: u64) -> Balances {
        match side {
            Side::X => Balances {
                user_x: (self.user_x - amount) as u64,
                vault_x: (self.vault_x + amount) as u64,
                ..self
            },
            Side::Y => Balances {
                user_y: (self.user_y - amount) as u64,
                vault_y: (self.vault_y + amount) as u64,
                ..self
            },
        }
    }

    pub open spec fn after_pay_out(self, side: Side, amount: u64) -> Balances {
        match side {
            Side::X => Balances {
                vault_x: (self.vault_x - amount) as u64,
                user_x: (self.user_x + amount) as u64,
                ..self
            },
            Side::Y => Balances {
                vault_y: (self.vault_y - amount) as u64,
                user_y: (self.user_y + amount) as u64,
                ..self
            },
        }
    }

    /// Moves `amount` of `side` from the caller into the vault; refuses,
    /// changing nothing, when that leg cannot be carried out.
    pub fn deposit(&mut self, side: Side, amount: u64) -> (r: Result<(), AmmError>)
        ensures
            old(self).can_deposit(side, amount) ==> r is Ok && *final(self) == old(
                self,
            ).after_deposit(side, amount),
            !old(self).can_deposit(side, amount) ==> r == Err::<(), AmmError>(
                AmmError::TransferFailed,
            ) && *final(self) == *old(self),
    {
        match side {
            Side::X => {
                if self.user_x < amount || self.vault_x > u64::MAX - amount {
                    return Err(AmmError::TransferFailed);
                }
                self.user_x = self.user_x - amount;
                self.vault_x = self.vault_x + amount;
            },
            Side::Y => {
                if self.user_y < amount || self.vault_y > u64::MAX - amount {
                    return Err(AmmError::TransferFailed);
                }
                self.user_y = self.user_y - amount;
                self.vault_y = self.vault_y + amount;
            },
        }
        Ok(())
    }

    /// Moves `amount` of `side` from the vault to the caller; refuses,
    /// changing nothing, when that leg cannot be carried out.
    pub fn pay_out(&mut self, side: Side, amount: u64) -> (r: Result<(), AmmError>)
        ensures
            old(self).can_pay_out(side, amount) ==> r is Ok && *final(self) == old(
                self,
            ).after_pay_out(side, amount),
            !old(self).can_pay_out(side, amount) ==> r == Err::<(), AmmError>(
                AmmError::TransferFailed,
            ) && *final(self) == *old(self),
    {
        match side {
            Side::X => {
                if self.vault_x < amount || self.user_x > u64::MAX - amount {
                    return Err(AmmError::TransferFailed);
                }
                self.vault_x = self.vault_x - amount;
                self.user_x = self.user_x + amount;
            },
            Side::Y => {
                if self.vault_y < amount || self.user_y > u64::MAX - amount {
                    return Err(AmmError::TransferFailed);
                }
                self.vault_y = self.vault_y - amount;
                self.user_y = self.user_y + amount;
            },
        }
        Ok(())
    }
}

} // verus!
