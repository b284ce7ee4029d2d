//! The pool record, its sides and the errors of the operations on it.
use vstd::prelude::*;
use crate::curve::CurveError;

verus! {

/// Why a swap or a withdrawal was refused. A refused operation has no effect.
#[derive(Clone, Copy, Debug, PartialEq, Eq, Structural)]
pub enum AmmError {
    /// The pool is paused.
    PoolLocked,
    /// The input amount is zero.
    InvalidAmount,
    /// The quoted output is below the caller's minimum.
    SlippageExceeded,
    /// The operation would drain a vault to zero or below.
    InsufficientLiquidity,
    /// A balance would leave the range of `u64`.
    Overflow,
    /// A withdrawal was asked of a pool without shares.
    DivisionByZero,
    /// A settlement leg cannot be carried out.
    TransferFailed,
}

/// The operation error that a curve error becomes.
pub open spec fn curve_error(e: CurveError) -> AmmError {
    match e {
        CurveError::Overflow => AmmError::Overflow,
        CurveError::InsufficientLiquidity => AmmError::InsufficientLiquidity,
        CurveError::DivisionByZero => AmmError::DivisionByZero,
    }
}

/// Passes a curve error on, unchanged in kind.
pub fn from_curve_error(e: CurveError) -> (r: AmmError)
    ensures
        r == curve_error(e),
{
    match e {
        CurveError::Overflow => AmmError::Overflow,
        CurveError::InsufficientLiquidity => AmmError::InsufficientLiquidity,
        CurveError::DivisionByZero => AmmError::DivisionByZero,
    }
}

/// One of the two assets of a pool.
#[derive(Clone, Copy, Debug, PartialEq, Eq, Structural)]
pub enum Side {
    X,
    Y,
}

/// The side named by an "input is X" flag.
pub open spec fn side_of(is_x: bool) -> Side {
    if is_x {
        Side::X
    } else {
        Side::Y
    }
}

impl Side {
    /// Resolves an "is X" flag to a side, once, at an operation's boundary.
    pub fn from_is_x(is_x: bool) -> (r: Side)
        ensures
            r == side_of(is_x),
    {
        if is_x {
            Side::X
        } else {
            Side::Y
        }
    }

    /// The other side of the pool.
    pub open spec fn opposite(self) -> Side {
        match self {
            Side::X => Side::Y,
            Side::Y => Side::X,
        }
    }
}

/// The capability to sign for the pool's own vaults and share mint: the
/// seed and bump from which the pool's program-controlled identity derives.
#[derive(Clone, Copy, Debug, PartialEq, Eq, Structural)]
pub struct PoolSigner {
    pub seed: u64,
    pub bump: u8,
}

/// The durable record of one trading pair.
#[derive(Clone, Copy, Debug, PartialEq, Eq, Structural)]
pub struct Pool {
    /// Tells apart pools over the same pair of assets.
    pub seed: u64,
    pub asset_x_id: u64,
    pub asset_y_id: u64,
    /// The asset of the liquidity-share token.
    pub share_asset_id: u64,
    /// When set, swaps and withdrawals are refused.
    pub locked: bool,
    /// The bump of the pool's derived signing authority.
    pub authority_bump: u8,
    /// The bump of the share mint's derived address.
    pub share_bump: u8,
    /// The outstanding liquidity shares.
    pub share_supply: u64,
}

impl Pool {
    /// The two traded assets differ.
    pub open spec fn wf(self) -> bool {
        self.asset_x_id != self.asset_y_id
    }

    pub open spec fn asset_spec(self, side: Side) -> u64 {
        match side {
            Side::X => self.asset_x_id,
            Side::Y => self.asset_y_id,
        }
    }

    pub open spec fn signer_spec(self) -> PoolSigner {
        PoolSigner { seed: self.seed, bump: self.authority_bump }
    }

    /// The asset traded on `side`; each vault is keyed to its own asset.
    pub fn asset(&self, side: Side) -> (r: u64)
        ensures
            r == self.asset_spec(side),
    {
        match side {
            Side::X => self.asset_x_id,
            Side::Y => self.asset_y_id,
        }
    }

    /// The pool's signing capability, for the legs the pool authorizes.
    pub fn signer(&self) -> (r: PoolSigner)
        ensures
            r == self.signer_spec(),
    {
        PoolSigner { seed: self.seed, bump: self.authority_bump }
    }
}

} // verus!
