//! The curve engine: pure functions over reserve snapshots.
use vstd::prelude::*;

verus! {

/// Why a quote cannot be given.
#[derive(Clone, Copy, Debug, PartialEq, Eq, Structural)]
pub enum CurveError {
    /// A reserve would leave the range of `u64`.
    Overflow,
    /// The quote would drain the output reserve to zero or below.
    InsufficientLiquidity,
    /// A withdrawal was quoted against a share supply of zero.
    DivisionByZero,
}

/// The exact-curve output for `amount_in`, rounded down:
/// `floor(reserve_out * amount_in / (reserve_in + amount_in))`.
pub open spec fn quote(reserve_in: int, reserve_out: int, amount_in: int) -> int {
    reserve_out * amount_in / (reserve_in + amount_in)
}

/// What a swap quote gives: an error when the input reserve would leave `u64`
/// or the output would take all of the output reserve, otherwise `quote`.
pub open spec fn swap_quote(reserve_in: u64, reserve_out: u64, amount_in: u64) -> Result<u64, CurveError> {
    if reserve_in + amount_in > u64::MAX {
        Err(CurveError::Overflow)
    } else if reserve_out <= quote(reserve_in as int, reserve_out as int, amount_in as int) {
        Err(CurveError::InsufficientLiquidity)
    } else {
        Ok(quote(reserve_in as int, reserve_out as int, amount_in as int) as u64)
    }
}

/// The proportional share `floor(reserve * burned / total)`.
pub open spec fn share(reserve: int, burned: int, total: int) -> int {
    reserve * burned / total
}

/// What a withdrawal quote gives: `floor(reserve * burned / total)` for each
/// reserve, unless the supply is zero or more than the supply is burned.
pub open spec fn withdraw_quote(reserve_x: u64, reserve_y: u64, total_shares: u64, burned_shares: u64) -> Result<(u64, u64), CurveError> {
    if total_shares == 0 {
        Err(CurveError::DivisionByZero)
    } else if burned_shares > total_shares {
        Err(CurveError::InsufficientLiquidity)
    } else {
        Ok((
            share(reserve_x as int, burned_shares as int, total_shares as int) as u64,
            share(reserve_y as int, burned_shares as int, total_shares as int) as u64,
        ))
    }
}

proof fn lemma_product_fits(a: u64, b: u64)
    ensures
        a * b <= u128::MAX,
{
    assert(a * b <= u64::MAX * u64::MAX) by (nonlinear_arith)
        requires
            a <= u64::MAX,
            b <= u64::MAX,
    ;
}

/// `floor(a * b / c) <= a` whenever `b <= c`.
proof fn lemma_share_at_most(a: nat, b: nat, c: nat)
    requires
        c > 0,
        b <= c,
    ensures
        a * b / c <= a,
        b == c ==> a * b / c == a,
{
    assert(a * b <= a * c) by (nonlinear_arith)
        requires
            b <= c,
    ;
    assert(a * c / c == a) by (nonlinear_arith)
        requires
            c > 0,
    ;
    vstd::arithmetic::div_mod::lemma_div_is_ordered((a * b) as int, (a * c) as int, c as int);
}

/// The output of a swap of `amount_in` into the side holding `reserve_in`,
/// paid from the side holding `reserve_out`, rounded down.
pub fn amount_out(reserve_in: u64, reserve_out: u64, amount_in: u64) -> (r: Result<u64, CurveError>)
    requires
        amount_in > 0,
    ensures
        r == swap_quote(reserve_in, reserve_out, amount_in),
{
    if reserve_in > u64::MAX - amount_in {
        return Err(CurveError::Overflow);
    }
    proof {
        lemma_product_fits(reserve_out, amount_in);
    }
    let numerator: u128 = (reserve_out as u128) * (amount_in as u128);
    let denominator: u128 = (reserve_in as u128) + (amount_in as u128);
    let out: u128 = numerator / denominator;
    if out >= reserve_out as u128 {
        Err(CurveError::InsufficientLiquidity)
    } else {
        Ok(out as u64)
    }
}

/// The amount of Y paid for an exact input `dx` of X.
pub fn amount_out_given_x_in(reserve_x: u64, reserve_y: u64, dx: u64) -> (r: Result<u64, CurveError>)
    requires
        dx > 0,
    ensures
        r == swap_quote(reserve_x, reserve_y, dx),
{
    amount_out(reserve_x, reserve_y, dx)
}

/// The amount of X paid for an exact input `dy` of Y.
pub fn amount_out_given_y_in(reserve_x: u64, reserve_y: u64, dy: u64) -> (r: Result<u64, CurveError>)
    requires
        dy > 0,
    ensures
        r == swap_quote(reserve_y, reserve_x, dy),
{
    amount_out(reserve_y, reserve_x, dy)
}

/// The amounts of X and Y redeemed by burning `burned_shares` of a supply of
/// `total_shares`, each rounded down. Products are taken in 128 bits, so the
/// result is exact and never wraps.
pub fn withdraw_amounts(reserve_x: u64, reserve_y: u64, total_shares: u64, burned_shares: u64) -> (r:
    Result<(u64, u64), CurveError>)
    ensures
        r == withdraw_quote(reserve_x, reserve_y, total_shares, burned_shares),
{
    if total_shares == 0 {
        return Err(CurveError::DivisionByZero);
    }
    if burned_shares > total_shares {
        return Err(CurveError::InsufficientLiquidity);
    }
    proof {
        lemma_product_fits(reserve_x, burned_shares);
        lemma_product_fits(reserve_y, burned_shares);
        lemma_share_at_most(reserve_x as nat, burned_shares as nat, total_shares as nat);
        lemma_share_at_most(reserve_y as nat, burned_shares as nat, total_shares as nat);
    }
    let dx: u128 = (reserve_x as u128) * (burned_shares as u128) / (total_shares as u128);
    let dy: u128 = (reserve_y as u128) * (burned_shares as u128) / (total_shares as u128);
    Ok((dx as u64, dy as u64))
}

/// A partial withdrawal leaves a nonzero reserve nonzero.
pub(crate) proof fn lemma_share_below(a: nat, b: nat, c: nat)
    requires
        a > 0,
        b < c,
    ensures
        a * b / c < a,
{
    assert(a * b < a * c) by (nonlinear_arith)
        requires
            a > 0,
            b < c,
    ;
    lemma_floor_div((a * b) as int, c as int);
    let q = a * b / c;
    assert(q < a) by (nonlinear_arith)
        requires
            c * q <= a * b,
            a * b < a * c,
            c > 0,
    ;
}

/// Floor division by a positive divisor lies within one divisor below `n`.
proof fn lemma_floor_div(n: int, d: int)
    requires
        n >= 0,
        d > 0,
    ensures
        0 <= n / d,
        d * (n / d) <= n,
        n < d * (n / d) + d,
{
    vstd::arithmetic::div_mod::lemma_fundamental_div_mod(n, d);
    vstd::arithmetic::div_mod::lemma_mod_pos_bound(n, d);
    vstd::arithmetic::div_mod::lemma_div_pos_is_pos(n, d);
}

/// A swap never lowers the product of the reserves: after `dx` of one side is
/// paid in and the quoted `dy` of the other paid out, `(Rx + dx) * (Ry - dy)`
/// is at least `Rx * Ry`. Rounding favours the pool, never the trader.
pub proof fn lemma_swap_keeps_product(reserve_in: u64, reserve_out: u64, amount_in: u64)
    requires
        amount_in > 0,
        swap_quote(reserve_in, reserve_out, amount_in) is Ok,
    ensures
        ({
            let out = swap_quote(reserve_in, reserve_out, amount_in)->Ok_0;
            (reserve_in + amount_in) * (reserve_out - out) >= reserve_in * reserve_out
        }),
{
    let d = reserve_in + amount_in;
    let q = quote(reserve_in as int, reserve_out as int, amount_in as int);
    assert(reserve_out * amount_in >= 0) by (nonlinear_arith);
    lemma_floor_div(reserve_out * amount_in, d);
    assert(d * (reserve_out - q) >= reserve_in * reserve_out) by (nonlinear_arith)
        requires
            d == reserve_in + amount_in,
            d * q <= reserve_out * amount_in,
    ;
}

/// A round trip never creates value: swapping `dx` of X for `dy` of Y and
/// then, against the reserves that swap left, `dy` of Y back for X, always
/// succeeds and returns at most `dx`.
pub proof fn lemma_round_trip(reserve_x: u64, reserve_y: u64, dx: u64)
    requires
        dx > 0,
        swap_quote(reserve_x, reserve_y, dx) is Ok,
    ensures
        ({
            let dy = swap_quote(reserve_x, reserve_y, dx)->Ok_0;
            let back = swap_quote((reserve_y - dy) as u64, (reserve_x + dx) as u64, dy);
            back is Ok && back->Ok_0 <= dx
        }),
{
    let dy = swap_quote(reserve_x, reserve_y, dx)->Ok_0;
    let d = reserve_x + dx;
    assert(reserve_y * dx >= 0) by (nonlinear_arith);
    lemma_floor_div(reserve_y * dx, d);
    assert(d * dy <= reserve_y * dx);
    let n2 = d * dy;
    assert(n2 >= 0) by (nonlinear_arith)
        requires
            n2 == d * dy,
            d > 0,
            dy >= 0,
    ;
    lemma_floor_div(n2, reserve_y as int);
    let q2 = n2 / (reserve_y as int);
    assert(q2 == quote((reserve_y - dy) as u64 as int, (reserve_x + dx) as u64 as int, dy as int));
    assert(q2 < d) by (nonlinear_arith)
        requires
            reserve_y * q2 <= n2,
            n2 == d * dy,
            dy < reserve_y,
            d > 0,
    ;
    assert(q2 <= dx) by (nonlinear_arith)
        requires
            reserve_y * q2 <= n2,
            n2 <= reserve_y * dx,
            reserve_y > 0,
    ;
}

/// A withdrawal never pays out more than either reserve holds, and burning
/// the whole supply pays out both reserves exactly.
pub proof fn lemma_withdraw_within_reserves(
    reserve_x: u64,
    reserve_y: u64,
    total_shares: u64,
    burned_shares: u64,
)
    requires
        burned_shares <= total_shares,
    ensures
        total_shares > 0 ==> withdraw_quote(reserve_x, reserve_y, total_shares, burned_shares) is Ok,
        withdraw_quote(reserve_x, reserve_y, total_shares, burned_shares) matches Ok((dx, dy)) ==> dx
            <= reserve_x && dy <= reserve_y,
        total_shares > 0 ==> withdraw_quote(reserve_x, reserve_y, total_shares, total_shares)
            == Ok::<(u64, u64), CurveError>((reserve_x, reserve_y)),
{
    if total_shares > 0 {
        lemma_share_at_most(reserve_x as nat, burned_shares as nat, total_shares as nat);
        lemma_share_at_most(reserve_y as nat, burned_shares as nat, total_shares as nat);
        lemma_share_at_most(reserve_x as nat, total_shares as nat, total_shares as nat);
        lemma_share_at_most(reserve_y as nat, total_shares as nat, total_shares as nat);
    }
}

} // verus!
