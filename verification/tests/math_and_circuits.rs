use arcium_hello_world::circuits::{
    add_liquidity, deposit, init_deposit, initialize_pool, remove_liquidity, swap_step1, swap_step2,
    withdraw,
};
use arcium_hello_world::math::integer_sqrt;

#[test]
fn integer_sqrt_small_values() {
    assert_eq!(integer_sqrt(0), 0);
    assert_eq!(integer_sqrt(1), 1);
    assert_eq!(integer_sqrt(2), 1);
    assert_eq!(integer_sqrt(3), 1);
    assert_eq!(integer_sqrt(4), 2);
    assert_eq!(integer_sqrt(15), 3);
    assert_eq!(integer_sqrt(16), 4);
    assert_eq!(integer_sqrt(17), 4);
    assert_eq!(integer_sqrt(99), 9);
}

#[test]
fn integer_sqrt_of_initial_deposits() {
    assert_eq!(integer_sqrt(1_000_000u128 * 4_000_000u128), 2_000_000);
    assert_eq!(integer_sqrt(1_000u128 * 1_001u128), 1_000);
    let m = u64::MAX as u128;
    assert_eq!(integer_sqrt(m * m), u64::MAX);
    assert_eq!(integer_sqrt(m * m - 1), u64::MAX - 1);
    assert_eq!(integer_sqrt(u128::MAX - 1), u64::MAX);
}

#[test]
fn integer_sqrt_brackets_every_small_input() {
    for n in 0u128..2000 {
        let r = integer_sqrt(n) as u128;
        assert!(r * r <= n && n < (r + 1) * (r + 1), "n = {}", n);
    }
}

#[test]
fn initialize_pool_keeps_reserves() {
    assert_eq!(initialize_pool((7, 9)), (7, 9));
}

#[test]
fn add_liquidity_grants_covered_amount() {
    let (reserves, granted) = add_liquidity((1000, 2000), 100, 200, 500, 50);
    assert_eq!(reserves, (1100, 2200));
    assert_eq!(granted, 50);
}

#[test]
fn add_liquidity_refuses_uncovered_amount() {
    let (reserves, granted) = add_liquidity((1000, 2000), 100, 200, 500, 51);
    assert_eq!(reserves, (1100, 2200));
    assert_eq!(granted, 0);
    // only token A short
    let (_, granted) = add_liquidity((1000, 2000), 99, 400, 500, 50);
    assert_eq!(granted, 0);
}

#[test]
fn add_liquidity_reads_zero_as_one() {
    // empty pool and zero supply: lp_minted * 1 <= amount * 1
    let (reserves, granted) = add_liquidity((0, 0), 30, 40, 0, 30);
    assert_eq!(reserves, (30, 40));
    assert_eq!(granted, 30);
    let (_, granted) = add_liquidity((0, 0), 30, 40, 0, 31);
    assert_eq!(granted, 0);
}

#[test]
fn add_liquidity_compares_without_overflow() {
    let big = u64::MAX / 2;
    let (_, granted) = add_liquidity((big, big), big, big, big, big);
    assert_eq!(granted, big);
}

#[test]
fn remove_liquidity_pays_pro_rata() {
    let (reserves, a, b) = remove_liquidity((1000, 2000), 100, 500);
    assert_eq!((a, b), (200, 400));
    assert_eq!(reserves, (800, 1600));
    let (reserves, a, b) = remove_liquidity((1001, 7), 1, 3);
    assert_eq!((a, b), (333, 2));
    assert_eq!(reserves, (668, 5));
}

#[test]
fn remove_liquidity_of_whole_supply_empties_pool() {
    let (reserves, a, b) = remove_liquidity((u64::MAX, 12345), 999, 999);
    assert_eq!((a, b), (u64::MAX, 12345));
    assert_eq!(reserves, (0, 0));
}

#[test]
fn swap_step1_a_to_b() {
    let (reserves, out) = swap_step1((1000, 1000), 100, 1);
    assert_eq!(out, 90);
    assert_eq!(reserves, (1100, 910));
    assert!(1100u128 * 910 >= 1000u128 * 1000);
}

#[test]
fn swap_step1_b_to_a() {
    let (reserves, out) = swap_step1((2000, 500), 50, 0);
    assert_eq!(out, 181);
    assert_eq!(reserves, (1819, 550));
}

#[test]
fn swap_step1_any_nonzero_flag_is_a_to_b() {
    assert_eq!(swap_step1((1000, 1000), 100, 7), ((1100, 910), 90));
}

#[test]
fn swap_step1_empty_pool() {
    assert_eq!(swap_step1((0, 0), 0, 1), ((0, 0), 0));
    // no reserve in: the whole reserve out is bought
    assert_eq!(swap_step1((0, 500), 10, 1), ((10, 0), 500));
}

#[test]
fn swap_step1_large_reserves() {
    let m = u64::MAX;
    let (reserves, out) = swap_step1((m - 1000, m), 1000, 1);
    assert_eq!(out, 997);
    assert_eq!(reserves, (m, m - 997));
}

#[test]
fn swap_step2_settles_balance() {
    assert_eq!(swap_step2((500, 20), 90, 100, 1), (400, 110));
    assert_eq!(swap_step2((500, 20), 181, 20, 0), (681, 0));
}

#[test]
fn deposit_then_withdraw_returns_everything() {
    let b = init_deposit(10, 20);
    assert_eq!(b, (10, 20));
    let b = deposit(b, 5, 6);
    assert_eq!(b, (15, 26));
    let (emptied, a, c) = withdraw(b);
    assert_eq!(emptied, (0, 0));
    assert_eq!((a, c), (15, 26));
}

#[test]
fn swap_moves_tokens_between_pool_and_user() {
    let reserves = (1000u64, 1000u64);
    let balance = (500u64, 20u64);
    let (new_reserves, out) = swap_step1(reserves, 100, 1);
    let new_balance = swap_step2(balance, out, 100, 1);
    assert_eq!(new_reserves.0 + new_balance.0, reserves.0 + balance.0);
    assert_eq!(new_reserves.1 + new_balance.1, reserves.1 + balance.1);
}

#[test]
fn swap_step1_matches_direct_formula() {
    let mut seed: u64 = 0x9e37_79b9_7f4a_7c15;
    for _ in 0..500 {
        seed ^= seed << 13;
        seed ^= seed >> 7;
        seed ^= seed << 17;
        let ra = seed >> 24;
        let rb = (seed.rotate_left(21)) >> 24;
        let ai = (seed.rotate_left(42)) >> 30;
        let f = ai as u128 * 997;
        let d = ra as u128 * 1000 + f;
        let expected = if d == 0 { 0 } else { (rb as u128 * f / d) as u64 };
        let (reserves, out) = swap_step1((ra, rb), ai, 1);
        assert_eq!(out, expected);
        assert_eq!(reserves, (ra + ai, rb - expected));
        assert!((ra as u128 + ai as u128) * (rb - expected) as u128 >= ra as u128 * rb as u128);
    }
}
