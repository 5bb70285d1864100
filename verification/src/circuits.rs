//! What the pool's confidential computations compute, on the decrypted values.
//!
//! Inside the MPC cluster these run on encrypted inputs. The model here takes
//! integer arithmetic there to be exact, as the cluster evaluates it over a
//! prime field far wider than 128 bits: sums and products of 64-bit values do
//! not wrap. Here each computation takes and returns the plain
//! values: `(reserve_a, reserve_b)` for a pool, `(balance_a, balance_b)` for a
//! user. A value that the computation hands back as a `u64` must be a `u64`:
//! each function requires exactly that of its inputs.
use vstd::arithmetic::div_mod::*;
use vstd::prelude::*;

verus! {

/// The divisor guard of the computations: zero is replaced by one.
pub open spec fn nonzero_or_one(x: int) -> int {
    if x != 0 {
        x
    } else {
        1
    }
}

/// Whether a deposit of `(amount_a, amount_b)` pays for `lp_minted` liquidity
/// tokens against reserves `(reserve_a, reserve_b)` and a supply `lp_supply`:
/// `lp_minted / lp_supply` may not exceed `amount_a / reserve_a` nor
/// `amount_b / reserve_b` (with zero read as one).
pub open spec fn liquidity_deposit_covers(
    reserve_a: int,
    reserve_b: int,
    amount_a: int,
    amount_b: int,
    lp_supply: int,
    lp_minted: int,
) -> bool {
    &&& lp_minted * nonzero_or_one(reserve_a) <= amount_a * nonzero_or_one(lp_supply)
    &&& lp_minted * nonzero_or_one(reserve_b) <= amount_b * nonzero_or_one(lp_supply)
}

/// The liquidity tokens granted by `add_liquidity`: the requested amount when the
/// deposit covers it, else none.
pub open spec fn granted_liquidity(
    reserve_a: int,
    reserve_b: int,
    amount_a: int,
    amount_b: int,
    lp_supply: int,
    lp_minted: int,
) -> int {
    if liquidity_deposit_covers(reserve_a, reserve_b, amount_a, amount_b, lp_supply, lp_minted) {
        lp_minted
    } else {
        0
    }
}

/// The share of `reserve` that `lp_amount` of `lp_supply` liquidity tokens redeem.
pub open spec fn pro_rata_share(reserve: int, lp_amount: int, lp_supply: int) -> int {
    (reserve * lp_amount) / nonzero_or_one(lp_supply)
}

/// The input amount after the 0.3% fee, in thousandths.
pub open spec fn fee_adjusted_input(amount_in: int) -> int {
    amount_in * 997
}

/// The constant-product price: what `amount_in` buys out of `reserve_out`
/// when the pool holds `reserve_in` of the token paid in, after the 0.3% fee.
pub open spec fn swap_output(reserve_in: int, reserve_out: int, amount_in: int) -> int {
    (reserve_out * fee_adjusted_input(amount_in)) / nonzero_or_one(
        reserve_in * 1000 + fee_adjusted_input(amount_in),
    )
}

/// Reserves after a swap of `amount_in` in the direction `a_to_b`.
pub open spec fn reserves_after_swap(reserves: (int, int), amount_in: int, a_to_b: bool) -> (
    int,
    int,
) {
    if a_to_b {
        let out = swap_output(reserves.0, reserves.1, amount_in);
        (reserves.0 + amount_in, reserves.1 - out)
    } else {
        let out = swap_output(reserves.1, reserves.0, amount_in);
        (reserves.0 - out, reserves.1 + amount_in)
    }
}

/// What `swap_step1` hands on to the second step: the amount bought.
pub open spec fn swap_amount_out(reserves: (int, int), amount_in: int, a_to_b: bool) -> int {
    if a_to_b {
        swap_output(reserves.0, reserves.1, amount_in)
    } else {
        swap_output(reserves.1, reserves.0, amount_in)
    }
}

/// A user's balance after paying `amount_in` and receiving `amount_out`.
pub open spec fn balance_after_swap(
    balance: (int, int),
    amount_out: int,
    amount_in: int,
    a_to_b: bool,
) -> (int, int) {
    if a_to_b {
        (balance.0 - amount_in, balance.1 + amount_out)
    } else {
        (balance.0 + amount_out, balance.1 - amount_in)
    }
}

pub open spec fn fits_u64(x: int) -> bool {
    0 <= x <= u64::MAX
}

/// `floor(a * b / d)` for `b <= d`, without an intermediate wider than 128 bits.
fn mul_div_floor(a: u64, b: u128, d: u128) -> (r: u64)
    requires
        0 < d < 0x1000_0000_0000_0000_0000,
        b <= d,
    ensures
        r as int == (a as int * b as int) / (d as int),
        r <= a,
{
    let ah: u128 = (a / 0x1_0000_0000) as u128;
    let al: u128 = (a % 0x1_0000_0000) as u128;
    proof {
        assert(ah * b <= 0xffff_ffff * 0x1000_0000_0000_0000_0000) by (nonlinear_arith)
            requires
                ah <= 0xffff_ffff,
                b <= 0x1000_0000_0000_0000_0000,
        ;
        assert(al * b <= 0xffff_ffff * 0x1000_0000_0000_0000_0000) by (nonlinear_arith)
            requires
                al <= 0xffff_ffff,
                b <= 0x1000_0000_0000_0000_0000,
        ;
    }
    let p1: u128 = ah * b;
    let q1: u128 = p1 / d;
    let r1: u128 = p1 % d;
    proof {
        lemma_fundamental_div_mod(p1 as int, d as int);
        lemma_mod_pos_bound(p1 as int, d as int);
        assert(r1 * 0x1_0000_0000 <= 0x1000_0000_0000_0000_0000 * 0x1_0000_0000) by (nonlinear_arith)
            requires
                r1 <= 0x1000_0000_0000_0000_0000,
        ;
    }
    let p2: u128 = r1 * 0x1_0000_0000 + al * b;
    let q2: u128 = p2 / d;
    proof {
        let ai = a as int;
        let bi = b as int;
        let di = d as int;
        // a * b == (q1 * 2^32) * d + p2
        assert(ai == ah * 0x1_0000_0000 + al);
        assert(ai * bi == (ah * bi) * 0x1_0000_0000 + al * bi) by (nonlinear_arith)
            requires
                ai == ah * 0x1_0000_0000 + al,
        ;
        assert(ai * bi == (q1 * 0x1_0000_0000) * di + p2) by (nonlinear_arith)
            requires
                ai * bi == (ah * bi) * 0x1_0000_0000 + al * bi,
                ah * bi == di * q1 + r1,
                p2 == r1 * 0x1_0000_0000 + al * bi,
        ;
        lemma_hoist_over_denominator(p2 as int, (q1 * 0x1_0000_0000) as int, d as nat);
        assert((q1 * 0x1_0000_0000) * di + p2 == p2 + (q1 * 0x1_0000_0000) * di);
        // the quotient is at most a, as b <= d
        assert(ai * bi <= ai * di) by (nonlinear_arith)
            requires
                bi <= di,
                ai >= 0,
        ;
        lemma_div_is_ordered(ai * bi, ai * di, di);
        lemma_div_by_multiple(ai, di);
    }
    (q1 * 0x1_0000_0000 + q2) as u64
}

/// The pool's first reserves are stored as given.
pub fn initialize_pool(reserves: (u64, u64)) -> (r: (u64, u64))
    ensures
        r == reserves,
{
    reserves
}

/// Adds a deposit to the reserves and grants `lp_minted` liquidity tokens when the
/// deposit covers them (see `liquidity_deposit_covers`), none otherwise.
pub fn add_liquidity(
    reserves: (u64, u64),
    amount_a: u64,
    amount_b: u64,
    lp_supply: u64,
    lp_minted: u64,
) -> (r: ((u64, u64), u64))
    requires
        fits_u64(reserves.0 + amount_a),
        fits_u64(reserves.1 + amount_b),
    ensures
        r.0.0 == reserves.0 + amount_a,
        r.0.1 == reserves.1 + amount_b,
        r.1 == granted_liquidity(
            reserves.0 as int,
            reserves.1 as int,
            amount_a as int,
            amount_b as int,
            lp_supply as int,
            lp_minted as int,
        ),
{
    let (ra, rb) = reserves;
    let safe_ra: u128 = if ra != 0 { ra as u128 } else { 1 };
    let safe_rb: u128 = if rb != 0 { rb as u128 } else { 1 };
    let safe_lp: u128 = if lp_supply != 0 { lp_supply as u128 } else { 1 };
    proof {
        assert(lp_minted * safe_ra <= u64::MAX * u64::MAX) by (nonlinear_arith)
            requires lp_minted <= u64::MAX, safe_ra <= u64::MAX;
        assert(lp_minted * safe_rb <= u64::MAX * u64::MAX) by (nonlinear_arith)
            requires lp_minted <= u64::MAX, safe_rb <= u64::MAX;
        assert(amount_a * safe_lp <= u64::MAX * u64::MAX) by (nonlinear_arith)
            requires amount_a <= u64::MAX, safe_lp <= u64::MAX;
        assert(amount_b * safe_lp <= u64::MAX * u64::MAX) by (nonlinear_arith)
            requires amount_b <= u64::MAX, safe_lp <= u64::MAX;
    }
    let valid_a = (lp_minted as u128) * safe_ra <= (amount_a as u128) * safe_lp;
    let valid_b = (lp_minted as u128) * safe_rb <= (amount_b as u128) * safe_lp;
    let granted = if valid_a && valid_b { lp_minted } else { 0 };
    ((ra + amount_a, rb + amount_b), granted)
}

/// Pays out the pro-rata share of both reserves for `lp_amount` liquidity tokens
/// out of `lp_supply`, and returns the remaining reserves with the two payouts.
pub fn remove_liquidity(reserves: (u64, u64), lp_amount: u64, lp_supply: u64) -> (r: (
    (u64, u64),
    u64,
    u64,
))
    requires
        pro_rata_share(reserves.0 as int, lp_amount as int, lp_supply as int) <= reserves.0,
        pro_rata_share(reserves.1 as int, lp_amount as int, lp_supply as int) <= reserves.1,
    ensures
        r.1 == pro_rata_share(reserves.0 as int, lp_amount as int, lp_supply as int),
        r.2 == pro_rata_share(reserves.1 as int, lp_amount as int, lp_supply as int),
        r.0.0 == reserves.0 - r.1,
        r.0.1 == reserves.1 - r.2,
{
    let (ra, rb) = reserves;
    let safe_lp: u128 = if lp_supply != 0 { lp_supply as u128 } else { 1 };
    proof {
        assert(ra * lp_amount <= u64::MAX * u64::MAX) by (nonlinear_arith)
            requires ra <= u64::MAX, lp_amount <= u64::MAX;
        assert(rb * lp_amount <= u64::MAX * u64::MAX) by (nonlinear_arith)
            requires rb <= u64::MAX, lp_amount <= u64::MAX;
    }
    let out_a = ((ra as u128) * (lp_amount as u128)) / safe_lp;
    let out_b = ((rb as u128) * (lp_amount as u128)) / safe_lp;
    let out_a = out_a as u64;
    let out_b = out_b as u64;
    ((ra - out_a, rb - out_b), out_a, out_b)
}

/// A user's first balance is the first deposit.
pub fn init_deposit(amount_a: u64, amount_b: u64) -> (r: (u64, u64))
    ensures
        r == (amount_a, amount_b),
{
    (amount_a, amount_b)
}

/// Adds a deposit to a user's balance.
pub fn deposit(balance: (u64, u64), amount_a: u64, amount_b: u64) -> (r: (u64, u64))
    requires
        fits_u64(balance.0 + amount_a),
        fits_u64(balance.1 + amount_b),
    ensures
        r.0 == balance.0 + amount_a,
        r.1 == balance.1 + amount_b,
{
    (balance.0 + amount_a, balance.1 + amount_b)
}

/// The pool side of a swap: prices `amount_in` against the reserves with the
/// constant-product rule and a 0.3% fee, and moves the reserves. `a_to_b` is
/// read as a flag: any nonzero value pays in token A.
pub fn swap_step1(reserves: (u64, u64), amount_in: u64, a_to_b: u8) -> (r: ((u64, u64), u64))
    requires
        a_to_b != 0 ==> fits_u64(reserves.0 + amount_in),
        a_to_b == 0 ==> fits_u64(reserves.1 + amount_in),
    ensures
        r.1 == swap_amount_out((reserves.0 as int, reserves.1 as int), amount_in as int, a_to_b != 0),
        (r.0.0 as int, r.0.1 as int) == reserves_after_swap(
            (reserves.0 as int, reserves.1 as int),
            amount_in as int,
            a_to_b != 0,
        ),
        r.0.0 as int * r.0.1 as int >= reserves.0 as int * reserves.1 as int,
{
    let (ra, rb) = reserves;
    let is_a_to_b = a_to_b != 0;
    let (ri, ro) = if is_a_to_b { (ra, rb) } else { (rb, ra) };
    let ai_fee: u128 = (amount_in as u128) * 997;
    let denom: u128 = (ri as u128) * 1000 + ai_fee;
    let safe_denom: u128 = if denom == 0 { 1 } else { denom };
    let amount_out = mul_div_floor(ro, ai_fee, safe_denom);
    proof {
        lemma_swap_keeps_product(ri as int, ro as int, amount_in as int);
        assert(amount_out == swap_output(ri as int, ro as int, amount_in as int));
    }
    let final_ra = if is_a_to_b { ra + amount_in } else { ra - amount_out };
    let final_rb = if is_a_to_b { rb - amount_out } else { rb + amount_in };
    proof {
        let k_new = (ri + amount_in) * (ro - amount_out);
        if is_a_to_b {
            assert(final_ra as int * final_rb as int == k_new);
        } else {
            assert(final_ra as int * final_rb as int == k_new) by (nonlinear_arith)
                requires
                    final_ra == ro - amount_out,
                    final_rb == ri + amount_in,
                    k_new == (ri + amount_in) * (ro - amount_out),
            ;
            assert(ra as int * rb as int == ri as int * ro as int) by (nonlinear_arith)
                requires
                    ra == ro,
                    rb == ri,
            ;
        }
    }
    ((final_ra, final_rb), amount_out)
}

/// The user side of a swap: pays `amount_in` out of the balance and credits the
/// `amount_out` that the first step computed.
pub fn swap_step2(balance: (u64, u64), amount_out: u64, amount_in: u64, a_to_b: u8) -> (r: (
    u64,
    u64,
))
    requires
        a_to_b != 0 ==> amount_in <= balance.0 && fits_u64(balance.1 + amount_out),
        a_to_b == 0 ==> amount_in <= balance.1 && fits_u64(balance.0 + amount_out),
    ensures
        (r.0 as int, r.1 as int) == balance_after_swap(
            (balance.0 as int, balance.1 as int),
            amount_out as int,
            amount_in as int,
            a_to_b != 0,
        ),
{
    let (ba, bb) = balance;
    let is_a_to_b = a_to_b != 0;
    let new_ba = if is_a_to_b { ba - amount_in } else { ba + amount_out };
    let new_bb = if is_a_to_b { bb + amount_out } else { bb - amount_in };
    (new_ba, new_bb)
}

/// Empties a user's balance and reveals what it held.
pub fn withdraw(balance: (u64, u64)) -> (r: ((u64, u64), u64, u64))
    ensures
        r.0 == (0u64, 0u64),
        r.1 == balance.0,
        r.2 == balance.1,
{
    ((0, 0), balance.0, balance.1)
}

/// The constant product never decreases in a swap, and the amount bought
/// never exceeds the reserve it is taken from.
pub proof fn lemma_swap_keeps_product(reserve_in: int, reserve_out: int, amount_in: int)
    requires
        reserve_in >= 0,
        reserve_out >= 0,
        amount_in >= 0,
    ensures
        0 <= swap_output(reserve_in, reserve_out, amount_in) <= reserve_out,
        (reserve_in + amount_in) * (reserve_out - swap_output(reserve_in, reserve_out, amount_in))
            >= reserve_in * reserve_out,
{
    let f = amount_in * 997;
    let d = reserve_in * 1000 + f;
    let out = swap_output(reserve_in, reserve_out, amount_in);
    if d == 0 {
        assert(f == 0 && reserve_in == 0);
        assert(reserve_out * f == 0) by (nonlinear_arith)
            requires
                f == 0,
        ;
        assert(out == 0);
    } else {
        assert(reserve_out * f >= 0) by (nonlinear_arith)
            requires
                reserve_out >= 0,
                f >= 0,
        ;
        lemma_fundamental_div_mod(reserve_out * f, d);
        lemma_mod_pos_bound(reserve_out * f, d);
        lemma_div_pos_is_pos(reserve_out * f, d);
        assert(reserve_out * f <= reserve_out * d) by (nonlinear_arith)
            requires
                reserve_out >= 0,
                f <= d,
        ;
        lemma_div_is_ordered(reserve_out * f, reserve_out * d, d);
        lemma_div_by_multiple(reserve_out, d);
        // out * d <= reserve_out * f, so (reserve_out - out) * d >= 1000 * reserve_in * reserve_out
        assert((reserve_out - out) * d >= 1000 * reserve_in * reserve_out) by (nonlinear_arith)
            requires
                d * out + (reserve_out * f) % d == reserve_out * f,
                (reserve_out * f) % d >= 0,
                d == reserve_in * 1000 + f,
        ;
        assert((reserve_in + amount_in) * (reserve_out - out) * d >= reserve_in * reserve_out * d)
            by (nonlinear_arith)
            requires
                (reserve_out - out) * d >= 1000 * reserve_in * reserve_out,
                reserve_in + amount_in >= 0,
                reserve_out - out >= 0,
                d == reserve_in * 1000 + amount_in * 997,
                reserve_in >= 0,
                reserve_out >= 0,
                amount_in >= 0,
        ;
        assert((reserve_in + amount_in) * (reserve_out - out) >= reserve_in * reserve_out)
            by (nonlinear_arith)
            requires
                (reserve_in + amount_in) * (reserve_out - out) * d >= reserve_in * reserve_out * d,
                d > 0,
        ;
    }
}

/// Redeeming at most the whole supply of liquidity tokens pays out at most the
/// reserves, so the reserves left are never negative.
pub proof fn lemma_remove_within_reserves(reserve: int, lp_amount: int, lp_supply: int)
    requires
        reserve >= 0,
        0 <= lp_amount <= lp_supply,
        lp_supply > 0,
    ensures
        0 <= pro_rata_share(reserve, lp_amount, lp_supply) <= reserve,
{
    assert(0 <= reserve * lp_amount <= reserve * lp_supply) by (nonlinear_arith)
        requires
            reserve >= 0,
            0 <= lp_amount <= lp_supply,
    ;
    lemma_div_is_ordered(reserve * lp_amount, reserve * lp_supply, lp_supply);
    lemma_div_by_multiple(reserve, lp_supply);
    lemma_div_pos_is_pos(reserve * lp_amount, lp_supply);
}

/// The two steps of a swap move tokens between the pool and the user and
/// create none: the amount the pool pays out is the amount the user is
/// credited, and the amount the user pays is the amount the pool receives.
pub proof fn lemma_swap_conserves_holdings(
    reserves: (int, int),
    balance: (int, int),
    amount_in: int,
    a_to_b: bool,
)
    ensures
        ({
            let out = swap_amount_out(reserves, amount_in, a_to_b);
            let new_reserves = reserves_after_swap(reserves, amount_in, a_to_b);
            let new_balance = balance_after_swap(balance, out, amount_in, a_to_b);
            &&& new_reserves.0 + new_balance.0 == reserves.0 + balance.0
            &&& new_reserves.1 + new_balance.1 == reserves.1 + balance.1
        }),
{
}

/// A deposit is granted either the liquidity tokens it asked for or none, and
/// when granted it pays for them in both tokens.
pub proof fn lemma_granted_liquidity_is_paid_for(
    reserve_a: int,
    reserve_b: int,
    amount_a: int,
    amount_b: int,
    lp_supply: int,
    lp_minted: int,
)
    ensures
        ({
            let g = granted_liquidity(reserve_a, reserve_b, amount_a, amount_b, lp_supply, lp_minted);
            &&& g == lp_minted || g == 0
            &&& g != 0 ==> liquidity_deposit_covers(
                reserve_a,
                reserve_b,
                amount_a,
                amount_b,
                lp_supply,
                lp_minted,
            )
        }),
{
}

/// `x / d <= y / e` for positive divisors when `x * e <= y * d`.
proof fn lemma_fraction_floor_ordered(x: int, d: int, y: int, e: int)
    requires
        x >= 0,
        y >= 0,
        d > 0,
        e > 0,
        x * e <= y * d,
    ensures
        x / d <= y / e,
{
    let q = x / d;
    lemma_fundamental_div_mod(x, d);
    lemma_mod_pos_bound(x, d);
    lemma_div_pos_is_pos(x, d);
    assert(q * d * e <= y * d) by (nonlinear_arith)
        requires
            x == d * q + x % d,
            x % d >= 0,
            e > 0,
            x * e <= y * d,
            q >= 0,
    ;
    assert(q * e <= y) by (nonlinear_arith)
        requires
            q * d * e <= y * d,
            d > 0,
    ;
    lemma_div_is_ordered(q * e, y, e);
    lemma_div_by_multiple(q, e);
}

/// Paying more into a swap never buys less.
pub proof fn lemma_swap_output_grows_with_input(
    reserve_in: int,
    reserve_out: int,
    amount_in: int,
    larger_amount_in: int,
)
    requires
        reserve_in >= 0,
        reserve_out >= 0,
        0 <= amount_in <= larger_amount_in,
    ensures
        swap_output(reserve_in, reserve_out, amount_in) <= swap_output(
            reserve_in,
            reserve_out,
            larger_amount_in,
        ),
{
    lemma_swap_keeps_product(reserve_in, reserve_out, amount_in);
    lemma_swap_keeps_product(reserve_in, reserve_out, larger_amount_in);
    let f = amount_in * 997;
    let g = larger_amount_in * 997;
    let d = reserve_in * 1000 + f;
    let e = reserve_in * 1000 + g;
    if d != 0 {
        assert(reserve_out * f >= 0 && reserve_out * g >= 0) by (nonlinear_arith)
            requires
                reserve_out >= 0,
                f >= 0,
                g >= 0,
        ;
        assert((reserve_out * f) * e <= (reserve_out * g) * d) by (nonlinear_arith)
            requires
                reserve_out >= 0,
                0 <= f <= g,
                d == reserve_in * 1000 + f,
                e == reserve_in * 1000 + g,
                reserve_in >= 0,
        ;
        lemma_fraction_floor_ordered(reserve_out * f, d, reserve_out * g, e);
    } else {
        assert(reserve_out * f == 0) by (nonlinear_arith)
            requires
                f == 0,
        ;
    }
}

/// What `add_liquidity` grants, in terms of the deposit: either the requested
/// liquidity tokens or none; the requested tokens exactly when the deposit pays
/// for them in token A and in token B, that is when
/// `lp_minted * reserve <= amount * lp_supply` for each token, a zero reserve
/// or supply counting as one.
pub proof fn lemma_add_liquidity_grants_only_what_is_paid(
    reserve_a: u64,
    reserve_b: u64,
    amount_a: u64,
    amount_b: u64,
    lp_supply: u64,
    lp_minted: u64,
)
    ensures
        ({
            let g = granted_liquidity(
                reserve_a as int,
                reserve_b as int,
                amount_a as int,
                amount_b as int,
                lp_supply as int,
                lp_minted as int,
            );
            let ra: int = if reserve_a != 0 { reserve_a as int } else { 1 };
            let rb: int = if reserve_b != 0 { reserve_b as int } else { 1 };
            let lp: int = if lp_supply != 0 { lp_supply as int } else { 1 };
            &&& g == lp_minted || g == 0
            &&& g != 0 ==> lp_minted * ra <= amount_a * lp
            &&& g != 0 ==> lp_minted * rb <= amount_b * lp
            &&& (lp_minted * ra <= amount_a * lp && lp_minted * rb <= amount_b * lp) ==> g
                == lp_minted
        }),
{
}

/// The price of a swap, written out: with `fee_in = 997 * amount_in` and
/// `d = 1000 * reserve_in + fee_in`, the amount bought is the largest `out`
/// with `out * d <= reserve_out * fee_in` (none when `d` is zero).
pub proof fn lemma_swap_output_is_the_floored_price(
    reserve_in: u64,
    reserve_out: u64,
    amount_in: u64,
)
    ensures
        ({
            let out = swap_output(reserve_in as int, reserve_out as int, amount_in as int);
            let fee_in = 997 * amount_in;
            let d = 1000 * reserve_in + fee_in;
            &&& d == 0 ==> out == 0
            &&& d != 0 ==> out * d <= reserve_out * fee_in < (out + 1) * d
        }),
{
    let f = amount_in * 997;
    let d = reserve_in * 1000 + f;
    if d == 0 {
        assert(reserve_out * f == 0) by (nonlinear_arith)
            requires
                f == 0,
        ;
    } else {
        let x = reserve_out * f;
        assert(x >= 0) by (nonlinear_arith)
            requires
                x == reserve_out * f,
                f >= 0,
        ;
        lemma_fundamental_div_mod(x, d);
        lemma_mod_pos_bound(x, d);
        let q = x / d;
        assert(q * d <= x < (q + 1) * d) by (nonlinear_arith)
            requires
                x == d * q + x % d,
                0 <= x % d < d,
        ;
    }
}

/// Both reserves after a swap, written out: paying `amount_in` of token A
/// raises reserve A by it and lowers reserve B by the amount bought out of
/// reserve B against reserve A; the other direction mirrors it.
pub proof fn lemma_swap_moves_reserves_in_its_direction(
    reserves: (u64, u64),
    amount_in: u64,
    a_to_b: bool,
)
    ensures
        a_to_b ==> reserves_after_swap(
            (reserves.0 as int, reserves.1 as int),
            amount_in as int,
            a_to_b,
        ) == (
            reserves.0 + amount_in,
            reserves.1 - swap_output(reserves.0 as int, reserves.1 as int, amount_in as int),
        ),
        !a_to_b ==> reserves_after_swap(
            (reserves.0 as int, reserves.1 as int),
            amount_in as int,
            a_to_b,
        ) == (
            reserves.0 - swap_output(reserves.1 as int, reserves.0 as int, amount_in as int),
            reserves.1 + amount_in,
        ),
        swap_amount_out((reserves.0 as int, reserves.1 as int), amount_in as int, a_to_b) == (
        if a_to_b {
            swap_output(reserves.0 as int, reserves.1 as int, amount_in as int)
        } else {
            swap_output(reserves.1 as int, reserves.0 as int, amount_in as int)
        }),
{
}

/// The payout of a removal, written out: the largest `out` with
/// `out * lp_supply <= reserve * lp_amount` (a zero supply counting as one).
pub proof fn lemma_pro_rata_share_is_the_floored_share(reserve: u64, lp_amount: u64, lp_supply: u64)
    ensures
        ({
            let out = pro_rata_share(reserve as int, lp_amount as int, lp_supply as int);
            let lp: int = if lp_supply != 0 { lp_supply as int } else { 1 };
            out * lp <= reserve * lp_amount < (out + 1) * lp
        }),
{
    let lp: int = if lp_supply != 0 { lp_supply as int } else { 1 };
    let x = reserve * lp_amount;
    assert(x >= 0) by (nonlinear_arith)
        requires
            x == reserve * lp_amount,
    ;
    lemma_fundamental_div_mod(x, lp);
    lemma_mod_pos_bound(x, lp);
    let q = x / lp;
    assert(q * lp <= x < (q + 1) * lp) by (nonlinear_arith)
        requires
            x == lp * q + x % lp,
            0 <= x % lp < lp,
    ;
}

} // verus!
