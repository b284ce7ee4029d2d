//! The swap operation: quote, slippage check and two-leg settlement.
use vstd::prelude::*;
use crate::curve::{amount_out_given_x_in, amount_out_given_y_in, lemma_swap_keeps_product, swap_quote};
use crate::pool::{curve_error, from_curve_error, side_of, AmmError, Pool, Side};
use crate::settlement::{Authority, Balances, Leg, Party};

verus! {

/// A swap against one pool, over one consistent snapshot of its vaults and
/// of the caller's holdings, with the legs settled so far.
pub struct Swap {
    pub pool: Pool,
    pub balances: Balances,
    pub legs: Vec<Leg>,
}

impl Swap {
    /// The pool record is valid, and a pool with outstanding shares holds
    /// both assets.
    pub open spec fn wf(self) -> bool {
        &&& self.pool.wf()
        &&& self.pool.share_supply > 0 ==> self.balances.vault_x > 0 && self.balances.vault_y > 0
    }

    /// Pool, balances and legs are the same in both.
    pub open spec fn same_state(self, other: Swap) -> bool {
        &&& self.pool == other.pool
        &&& self.balances == other.balances
        &&& self.legs@ == other.legs@
    }

    /// The leg paying `amount` of `side` into its vault, signed by the caller.
    pub open spec fn deposit_leg(self, side: Side, amount: u64) -> Leg {
        Leg::Transfer {
            asset: self.pool.asset_spec(side),
            from: Party::Caller,
            to: Party::Vault,
            amount,
            authority: Authority::Caller,
        }
    }

    /// The leg paying `amount` of `side` out of its vault, signed by the pool.
    pub open spec fn pay_out_leg(self, side: Side, amount: u64) -> Leg {
        Leg::Transfer {
            asset: self.pool.asset_spec(side),
            from: Party::Vault,
            to: Party::Caller,
            amount,
            authority: Authority::Pool(self.pool.signer_spec()),
        }
    }

    /// What a swap of `amount` on the input side named by `is_x` returns:
    /// the first failing check in the order pause, amount, quote, slippage,
    /// deposit leg, pay-out leg; otherwise the quoted output.
    pub open spec fn swap_result(self, is_x: bool, amount: u64, min_out: u64) -> Result<u64, AmmError> {
        let side_in = side_of(is_x);
        let side_out = side_in.opposite();
        if self.pool.locked {
            Err(AmmError::PoolLocked)
        } else if amount == 0 {
            Err(AmmError::InvalidAmount)
        } else {
            match swap_quote(self.balances.vault(side_in), self.balances.vault(side_out), amount) {
                Err(e) => Err(curve_error(e)),
                Ok(out) => if out < min_out {
                    Err(AmmError::SlippageExceeded)
                } else if !self.balances.can_deposit(side_in, amount) {
                    Err(AmmError::TransferFailed)
                } else if !self.balances.after_deposit(side_in, amount).can_pay_out(side_out, out) {
                    Err(AmmError::TransferFailed)
                } else {
                    Ok(out)
                },
            }
        }
    }

    /// Swaps `amount` of the side named by `is_x` for the quoted amount of
    /// the other side, if that is at least `min_out`. The deposit leg is
    /// recorded before the pay-out leg; on any failure nothing changes.
    pub fn swap(&mut self, is_x: bool, amount: u64, min_out: u64) -> (r: Result<u64, AmmError>)
        ensures
            r == old(self).swap_result(is_x, amount, min_out),
            old(self).pool.locked ==> r == Err::<u64, AmmError>(AmmError::PoolLocked),
            !old(self).pool.locked && amount == 0 ==> r == Err::<u64, AmmError>(
                AmmError::InvalidAmount,
            ),
            r matches Ok(out) ==> {
                &&& final(self).pool == old(self).pool
                &&& final(self).balances == old(self).balances.after_deposit(side_of(is_x), amount).after_pay_out(
                    side_of(is_x).opposite(),
                    out,
                )
                &&& final(self).legs@ == old(self).legs@.push(
                    old(self).deposit_leg(side_of(is_x), amount),
                ).push(old(self).pay_out_leg(side_of(is_x).opposite(), out))
            },
            r is Ok ==> final(self).balances.vault_x * final(self).balances.vault_y
                >= old(self).balances.vault_x * old(self).balances.vault_y,
            r is Err ==> final(self).same_state(*old(self)),
            old(self).wf() ==> final(self).wf(),
    {
        if self.pool.locked {
            return Err(AmmError::PoolLocked);
        }
        if amount == 0 {
            return Err(AmmError::InvalidAmount);
        }
        let ghost pre = self.balances;
        let quoted = if is_x {
            amount_out_given_x_in(self.balances.vault_x, self.balances.vault_y, amount)
        } else {
            amount_out_given_y_in(self.balances.vault_x, self.balances.vault_y, amount)
        };
        let out = match quoted {
            Ok(v) => v,
            Err(e) => {
                return Err(from_curve_error(e));
            },
        };
        if out < min_out {
            return Err(AmmError::SlippageExceeded);
        }
        let saved = self.balances;
        match self.deposit_tokens(is_x, amount) {
            Ok(()) => {},
            Err(e) => {
                return Err(e);
            },
        }
        match self.withdraw_tokens(!is_x, out) {
            Ok(()) => {
                proof {
                    if is_x {
                        lemma_swap_keeps_product(pre.vault_x, pre.vault_y, amount);
                    } else {
                        lemma_swap_keeps_product(pre.vault_y, pre.vault_x, amount);
                        let (a, b, c, d) = (self.balances.vault_x as int, self.balances.vault_y as int, pre.vault_x as int, pre.vault_y as int);
                        assert(b * a == a * b && d * c == c * d) by (nonlinear_arith);
                    }
                }
                Ok(out)
            },
            Err(e) => {
                self.balances = saved;
                let _ = self.legs.pop();
                proof {
                    assert(self.legs@ =~= old(self).legs@);
                }
                Err(e)
            },
        }
    }

    /// Moves `amount` of the side named by `is_x` from the caller into its
    /// vault, authorized by the caller, and records the leg.
    pub fn deposit_tokens(&mut self, is_x: bool, amount: u64) -> (r: Result<(), AmmError>)
        ensures
            old(self).balances.can_deposit(side_of(is_x), amount) ==> {
                &&& r is Ok
                &&& final(self).pool == old(self).pool
                &&& final(self).balances == old(self).balances.after_deposit(side_of(is_x), amount)
                &&& final(self).legs@ == old(self).legs@.push(
                    old(self).deposit_leg(side_of(is_x), amount),
                )
            },
            !old(self).balances.can_deposit(side_of(is_x), amount) ==> r == Err::<(), AmmError>(
                AmmError::TransferFailed,
            ) && final(self).same_state(*old(self)),
    {
        let side = Side::from_is_x(is_x);
        match self.balances.deposit(side, amount) {
            Ok(()) => {
                let asset = self.pool.asset(side);
                self.legs.push(
                    Leg::Transfer {
                        asset,
                        from: Party::Caller,
                        to: Party::Vault,
                        amount,
                        authority: Authority::Caller,
                    },
                );
                Ok(())
            },
            Err(e) => Err(e),
        }
    }

    /// Moves `amount` of the side named by `is_x` from its vault to the
    /// caller, authorized by the pool's signer, and records the leg.
    pub fn withdraw_tokens(&mut self, is_x: bool, amount: u64) -> (r: Result<(), AmmError>)
        ensures
            old(self).balances.can_pay_out(side_of(is_x), amount) ==> {
                &&& r is Ok
                &&& final(self).pool == old(self).pool
                &&& final(self).balances == old(self).balances.after_pay_out(side_of(is_x), amount)
                &&& final(self).legs@ == old(self).legs@.push(
                    old(self).pay_out_leg(side_of(is_x), amount),
                )
            },
            !old(self).balances.can_pay_out(side_of(is_x), amount) ==> r == Err::<(), AmmError>(
                AmmError::TransferFailed,
            ) && final(self).same_state(*old(self)),
    {
        let side = Side::from_is_x(is_x);
        match self.balances.pay_out(side, amount) {
            Ok(()) => {
                let asset = self.pool.asset(side);
                let signer = self.pool.signer();
                self.legs.push(
                    Leg::Transfer {
                        asset,
                        from: Party::Vault,
                        to: Party::Caller,
                        amount,
                        authority: Authority::Pool(signer),
                    },
                );
                Ok(())
            },
            Err(e) => Err(e),
        }
    }
}

} // verus!
