//! The liquidity-withdrawal operation: burn shares, then pay out both assets.
use vstd::prelude::*;
use crate::curve::{lemma_share_below, withdraw_amounts, withdraw_quote};
use crate::pool::{curve_error, from_curve_error, side_of, AmmError, Pool, Side};
use crate::settlement::{Authority, Balances, Leg, Party};

verus! {

/// A withdrawal from one pool, over one consistent snapshot of its vaults,
/// its share supply and the caller's holdings, with the legs settled so far.
pub struct Withdraw {
    pub pool: Pool,
    pub balances: Balances,
    /// The caller's liquidity shares.
    pub user_shares: u64,
    pub legs: Vec<Leg>,
}

impl Withdraw {
    /// The pool record is valid, a pool with outstanding shares holds both
    /// assets, and the caller's shares are part of the supply.
    pub open spec fn wf(self) -> bool {
        &&& self.pool.wf()
        &&& self.pool.share_supply > 0 ==> self.balances.vault_x > 0 && self.balances.vault_y > 0
        &&& self.user_shares <= self.pool.share_supply
    }

    /// Pool, balances, shares and legs are the same in both.
    pub open spec fn same_state(self, other: Withdraw) -> bool {
        &&& self.pool == other.pool
        &&& self.balances == other.balances
        &&& self.user_shares == other.user_shares
        &&& self.legs@ == other.legs@
    }

    /// The caller holds `amount` shares and the supply covers them.
    pub open spec fn can_burn(self, amount: u64) -> bool {
        self.user_shares >= amount && self.pool.share_supply >= amount
    }

    /// The leg destroying `amount` of the caller's shares, signed by the pool.
    pub open spec fn burn_leg(self, amount: u64) -> Leg {
        Leg::Burn {
            asset: self.pool.share_asset_id,
            holder: Party::Caller,
            amount,
            authority: Authority::Pool(self.pool.signer_spec()),
        }
    }

    /// The leg paying `amount` of `side` out of its vault, signed by the pool.
    pub open spec fn pay_out_leg(self, side: Side, amount: u64) -> Leg {
        Leg::Transfer {
            asset: self.pool.asset_spec(side),
            from: Party::Vault,
            to: Party::Caller,
            amount,
            authority: Authority::Pool(self.pool.signer_spec()),
        }
    }

    /// The pool record once `amount` shares are burned.
    pub open spec fn burned_pool(self, amount: u64) -> Pool {
        Pool { share_supply: (self.pool.share_supply - amount) as u64, ..self.pool }
    }

    /// What burning `amount` shares returns: the first failing check in the
    /// order pause, amount, quote, slippage, burn, pay-out of X, pay-out of
    /// Y; otherwise the quoted amounts of X and Y.
    pub open spec fn withdraw_result(self, amount: u64, min_x: u64, min_y: u64) -> Result<
        (u64, u64),
        AmmError,
    > {
        if self.pool.locked {
            Err(AmmError::PoolLocked)
        } else if amount == 0 {
            Err(AmmError::InvalidAmount)
        } else {
            match withdraw_quote(
                self.balances.vault_x,
                self.balances.vault_y,
                self.pool.share_supply,
                amount,
            ) {
                Err(e) => Err(curve_error(e)),
                Ok((dx, dy)) => if dx < min_x || dy < min_y {
                    Err(AmmError::SlippageExceeded)
                } else if !self.can_burn(amount) {
                    Err(AmmError::TransferFailed)
                } else if !self.balances.can_pay_out(Side::X, dx) {
                    Err(AmmError::TransferFailed)
                } else if !self.balances.after_pay_out(Side::X, dx).can_pay_out(Side::Y, dy) {
                    Err(AmmError::TransferFailed)
                } else {
                    Ok((dx, dy))
                },
            }
        }
    }

    /// Burns `amount` of the caller's shares and pays out the proportional
    /// amounts of X and Y, if each meets its minimum. The burn leg is
    /// recorded first, then X, then Y; on any failure nothing changes.
    pub fn withdraw(&mut self, amount: u64, min_x: u64, min_y: u64) -> (r: Result<
        (u64, u64),
        AmmError,
    >)
        ensures
            r == old(self).withdraw_result(amount, min_x, min_y),
            old(self).pool.locked ==> r == Err::<(u64, u64), AmmError>(AmmError::PoolLocked),
            !old(self).pool.locked && amount == 0 ==> r == Err::<(u64, u64), AmmError>(
                AmmError::InvalidAmount,
            ),
            r matches Ok((dx, dy)) ==> {
                &&& final(self).pool == old(self).burned_pool(amount)
                &&& final(self).user_shares == old(self).user_shares - amount
                &&& final(self).balances == old(self).balances.after_pay_out(Side::X, dx).after_pay_out(
                    Side::Y,
                    dy,
                )
                &&& final(self).legs@ == old(self).legs@.push(old(self).burn_leg(amount)).push(
                    old(self).pay_out_leg(Side::X, dx),
                ).push(old(self).pay_out_leg(Side::Y, dy))
            },
            r is Err ==> final(self).same_state(*old(self)),
            old(self).wf() ==> final(self).wf(),
    {
        if self.pool.locked {
            return Err(AmmError::PoolLocked);
        }
        if amount == 0 {
            return Err(AmmError::InvalidAmount);
        }
        let quoted = withdraw_amounts(
            self.balances.vault_x,
            self.balances.vault_y,
            self.pool.share_supply,
            amount,
        );
        let (dx, dy) = match quoted {
            Ok(v) => v,
            Err(e) => {
                return Err(from_curve_error(e));
            },
        };
        if dx < min_x || dy < min_y {
            return Err(AmmError::SlippageExceeded);
        }
        let saved_pool = self.pool;
        let saved_shares = self.user_shares;
        let saved_balances = self.balances;
        match self.burn_lp_tokens(amount) {
            Ok(()) => {},
            Err(e) => {
                return Err(e);
            },
        }
        match self.withdraw_tokens(true, dx) {
            Ok(()) => {},
            Err(e) => {
                self.pool = saved_pool;
                self.user_shares = saved_shares;
                let _ = self.legs.pop();
                proof {
                    assert(self.legs@ =~= old(self).legs@);
                }
                return Err(e);
            },
        }
        match self.withdraw_tokens(false, dy) {
            Ok(()) => {},
            Err(e) => {
                self.pool = saved_pool;
                self.user_shares = saved_shares;
                self.balances = saved_balances;
                let _ = self.legs.pop();
                let _ = self.legs.pop();
                proof {
                    assert(self.legs@ =~= old(self).legs@);
                }
                return Err(e);
            },
        }
        proof {
            let pre = *old(self);
            if pre.wf() && self.pool.share_supply > 0 {
                lemma_share_below(
                    pre.balances.vault_x as nat,
                    amount as nat,
                    pre.pool.share_supply as nat,
                );
                lemma_share_below(
                    pre.balances.vault_y as nat,
                    amount as nat,
                    pre.pool.share_supply as nat,
                );
            }
        }
        Ok((dx, dy))
    }

    /// Pays `amount` of the side named by `is_x` out of its vault to the
    /// caller, authorized by the pool's signer, and records the leg.
    pub fn withdraw_tokens(&mut self, is_x: bool, amount: u64) -> (r: Result<(), AmmError>)
        ensures
            old(self).balances.can_pay_out(side_of(is_x), amount) ==> {
                &&& r is Ok
                &&& final(self).pool == old(self).pool
                &&& final(self).user_shares == old(self).user_shares
                &&& final(self).balances == old(self).balances.after_pay_out(side_of(is_x), amount)
                &&& final(self).legs@ == old(self).legs@.push(
                    old(self).pay_out_leg(side_of(is_x), amount),
                )
            },
            !old(self).balances.can_pay_out(side_of(is_x), amount) ==> r == Err::<(), AmmError>(
                AmmError::TransferFailed,
            ) && final(self).same_state(*old(self)),
    {
        let side = Side::from_is_x(is_x);
        match self.balances.pay_out(side, amount) {
            Ok(()) => {
                let asset = self.pool.asset(side);
                let signer = self.pool.signer();
                self.legs.push(
                    Leg::Transfer {
                        asset,
                        from: Party::Vault,
                        to: Party::Caller,
                        amount,
                        authority: Authority::Pool(signer),
                    },
                );
                Ok(())
            },
            Err(e) => Err(e),
        }
    }

    /// Burns `amount` of the caller's shares, authorized by the pool's
    /// signer, lowering the share supply by as much, and records the leg.
    pub fn burn_lp_tokens(&mut self, amount: u64) -> (r: Result<(), AmmError>)
        ensures
            old(self).can_burn(amount) ==> {
                &&& r is Ok
                &&& final(self).pool == old(self).burned_pool(amount)
                &&& final(self).user_shares == old(self).user_shares - amount
                &&& final(self).balances == old(self).balances
                &&& final(self).legs@ == old(self).legs@.push(old(self).burn_leg(amount))
            },
            !old(self).can_burn(amount) ==> r == Err::<(), AmmError>(AmmError::TransferFailed)
                && final(self).same_state(*old(self)),
    {
        if self.user_shares < amount || self.pool.share_supply < amount {
            return Err(AmmError::TransferFailed);
        }
        let asset = self.pool.share_asset_id;
        let signer = self.pool.signer();
        self.user_shares = self.user_shares - amount;
        self.pool.share_supply = self.pool.share_supply - amount;
        self.legs.push(
            Leg::Burn { asset, holder: Party::Caller, amount, authority: Authority::Pool(signer) },
        );
        Ok(())
    }
}

} // verus!
