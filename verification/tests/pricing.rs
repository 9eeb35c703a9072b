use instapump::{
    calculate_price_and_sol, calculate_price_and_sol_sell_operation, ProgramError, PRICE_PRECISION,
    SCALING_FACTOR,
};

const SEED_VIRTUAL_TOKENS: u64 = 1_073_000_000_000000;
const SEED_VIRTUAL_SOL: u64 = 30_000_000000;
const SEED_REAL_TOKENS: u64 = 793_100_000_000000;

#[test]
fn the_scaling_constants_are_the_documented_ones() {
    assert_eq!(SCALING_FACTOR, 100);
    assert_eq!(PRICE_PRECISION, 1_000_000);
}

#[test]
fn buy_quote_on_seed_reserves() {
    let amount: u64 = 1_000_000000;
    let (price, sol_cost, new_virtual_tokens, new_virtual_sol) = calculate_price_and_sol(
        amount,
        SEED_VIRTUAL_TOKENS,
        SEED_VIRTUAL_SOL,
        SEED_REAL_TOKENS,
        0,
    )
    .unwrap();
    assert!(sol_cost > 0);
    assert_eq!(sol_cost, 279);
    assert_eq!(new_virtual_tokens, SEED_VIRTUAL_TOKENS - amount);
    assert_eq!(new_virtual_tokens, 1_072_999_000_000000);
    let k = (SEED_VIRTUAL_TOKENS as u128) * (SEED_VIRTUAL_SOL as u128);
    assert_eq!(new_virtual_sol as u128, k / (new_virtual_tokens as u128));
    assert_eq!(new_virtual_sol, 30_000_027_959);
    assert_eq!(price, 0);
}

#[test]
fn buy_quote_of_a_large_purchase() {
    let quote = calculate_price_and_sol(
        50_000_000_000000,
        SEED_VIRTUAL_TOKENS,
        SEED_VIRTUAL_SOL,
        SEED_REAL_TOKENS,
        0,
    );
    assert_eq!(quote, Ok((0, 14_662_756, 1_023_000_000_000000, 31_466_275_659)));
}

#[test]
fn buy_quote_states_the_price_in_millionths() {
    let quote = calculate_price_and_sol(1000, 2000, 1_000_000_000, 1500, 0);
    assert_eq!(quote, Ok((10_000_000_000, 10_000_000, 1000, 2_000_000_000)));
}

#[test]
fn buy_quote_rounds_the_new_reserve_down() {
    // 3 * 799 / 2 = 1198.5, and (1198 - 799) / 100 = 3.99
    assert_eq!(calculate_price_and_sol(1, 3, 799, 2, 0), Ok((3_000_000, 3, 2, 1198)));
}

#[test]
fn buy_quote_ignores_the_real_sol_reserves() {
    let without = calculate_price_and_sol(2, 10, 1000, 5, 0);
    let with = calculate_price_and_sol(2, 10, 1000, 5, u64::MAX);
    assert_eq!(without, Ok((1_000_000, 2, 8, 1250)));
    assert_eq!(with, without);
}

#[test]
fn buy_quote_of_all_real_tokens_is_given() {
    let quote = calculate_price_and_sol(
        SEED_REAL_TOKENS,
        SEED_VIRTUAL_TOKENS,
        SEED_VIRTUAL_SOL,
        SEED_REAL_TOKENS,
        0,
    );
    assert_eq!(quote, Ok((1, 850_053_590, 279_900_000_000000, 115_005_359_056)));
}

#[test]
fn buy_quote_of_more_than_the_real_tokens_is_refused() {
    let quote = calculate_price_and_sol(
        SEED_REAL_TOKENS + 1,
        SEED_VIRTUAL_TOKENS,
        SEED_VIRTUAL_SOL,
        SEED_REAL_TOKENS,
        0,
    );
    assert_eq!(quote, Err(ProgramError::InsufficientTokens));
}

#[test]
fn buy_quote_of_nothing_is_refused() {
    let quote = calculate_price_and_sol(0, SEED_VIRTUAL_TOKENS, SEED_VIRTUAL_SOL, SEED_REAL_TOKENS, 0);
    assert_eq!(quote, Err(ProgramError::ArithmeticOverflow));
}

#[test]
fn buy_quote_of_nothing_from_an_empty_curve_is_refused() {
    assert_eq!(calculate_price_and_sol(0, 10, 10, 0, 0), Err(ProgramError::ArithmeticOverflow));
    assert_eq!(calculate_price_and_sol(1, 10, 10, 0, 0), Err(ProgramError::InsufficientTokens));
}

#[test]
fn buy_quote_of_all_virtual_tokens_is_refused() {
    assert_eq!(calculate_price_and_sol(10, 10, 1000, 20, 0), Err(ProgramError::ArithmeticOverflow));
}

#[test]
fn buy_quote_of_more_than_the_virtual_tokens_is_refused() {
    assert_eq!(calculate_price_and_sol(11, 10, 1000, 20, 0), Err(ProgramError::ArithmeticOverflow));
}

#[test]
fn buy_quote_whose_new_reserve_leaves_the_domain_is_refused() {
    assert_eq!(calculate_price_and_sol(1, 2, u64::MAX, 1, 0), Err(ProgramError::ArithmeticOverflow));
    assert_eq!(
        calculate_price_and_sol(u64::MAX - 1, u64::MAX, u64::MAX, u64::MAX, 0),
        Err(ProgramError::ArithmeticOverflow)
    );
}

#[test]
fn buy_quote_whose_price_leaves_the_domain_is_refused() {
    // the cost is 4 * 10^13, and in millionths it no longer fits
    let quote = calculate_price_and_sol(1, 2, 4_000_000_000_000_000, 1, 0);
    assert_eq!(quote, Err(ProgramError::ArithmeticOverflow));
}

#[test]
fn buy_quote_at_the_largest_price_that_fits() {
    // the cost is 18_446_744_073_709, and in millionths it just fits
    let virtual_sol: u64 = 1_844_674_407_370_900;
    let quote = calculate_price_and_sol(1, 2, virtual_sol, 1, 0);
    assert_eq!(
        quote,
        Ok((18_446_744_073_709_000_000, 18_446_744_073_709, 1, 2 * virtual_sol))
    );
}

#[test]
fn sell_quote_on_reserves_after_a_purchase() {
    let quote = calculate_price_and_sol_sell_operation(
        20_000_000_000000,
        1_023_000_000_000000,
        31_466_275_659,
        743_100_000_000000,
        14_662_756,
    );
    assert_eq!(quote, Ok((0, 6_033_801, 1_043_000_000_000000, 30_862_895_492)));
}

#[test]
fn sell_quote_states_the_price_in_millionths() {
    let quote = calculate_price_and_sol_sell_operation(1000, 1000, 2_000_000_000, 0, 0);
    assert_eq!(quote, Ok((10_000_000_000, 10_000_000, 2000, 1_000_000_000)));
}

#[test]
fn sell_quote_rounds_the_new_reserve_down() {
    // 10 * 1000 / 13 = 769.2, (1000 - 769) / 100 = 2.31, 2 * 10^6 / 3 = 666666.6
    assert_eq!(
        calculate_price_and_sol_sell_operation(3, 10, 1000, 0, 0),
        Ok((666_666, 2, 13, 769))
    );
}

#[test]
fn sell_quote_ignores_the_real_reserves() {
    let small = calculate_price_and_sol_sell_operation(2, 8, 1250, 0, 0);
    let large = calculate_price_and_sol_sell_operation(2, 8, 1250, u64::MAX, u64::MAX);
    assert_eq!(small, Ok((1_000_000, 2, 10, 1000)));
    assert_eq!(large, small);
}

#[test]
fn sell_quote_of_nothing_is_refused() {
    assert_eq!(
        calculate_price_and_sol_sell_operation(0, 10, 1000, 5, 5),
        Err(ProgramError::ArithmeticOverflow)
    );
    assert_eq!(
        calculate_price_and_sol_sell_operation(0, 0, 0, 0, 0),
        Err(ProgramError::ArithmeticOverflow)
    );
}

#[test]
fn sell_quote_into_empty_virtual_reserves_pays_nothing() {
    assert_eq!(calculate_price_and_sol_sell_operation(5, 0, 1000, 0, 0), Ok((2_000_000, 10, 5, 0)));
    assert_eq!(calculate_price_and_sol_sell_operation(5, 7, 0, 0, 0), Ok((0, 0, 12, 0)));
}

#[test]
fn sell_quote_whose_token_reserve_leaves_the_domain_is_refused() {
    assert_eq!(
        calculate_price_and_sol_sell_operation(u64::MAX, 1, 5, 0, 0),
        Err(ProgramError::ArithmeticOverflow)
    );
}

#[test]
fn sell_quote_up_to_the_edge_of_the_domain() {
    assert_eq!(
        calculate_price_and_sol_sell_operation(u64::MAX - 1, 1, 500, 0, 0),
        Ok((0, 5, u64::MAX, 0))
    );
}

#[test]
fn sell_quote_whose_price_leaves_the_domain_is_refused() {
    assert_eq!(
        calculate_price_and_sol_sell_operation(1, 1, 8_000_000_000_000_000, 0, 0),
        Err(ProgramError::ArithmeticOverflow)
    );
}

#[test]
fn quotes_of_a_round_trip_may_pay_one_unit_more_than_was_paid() {
    let (buy_price, sol_cost, mid_tokens, mid_sol) = calculate_price_and_sol(1, 3, 799, 2, 0).unwrap();
    assert_eq!((sol_cost, mid_tokens, mid_sol), (3, 2, 1198));
    let (sell_price, sol_output, end_tokens, end_sol) =
        calculate_price_and_sol_sell_operation(1, mid_tokens, mid_sol, 1, sol_cost).unwrap();
    assert_eq!(end_tokens, 3);
    assert_eq!(end_sol, 798);
    assert_eq!(sol_output, 4);
    assert_eq!(buy_price, 3_000_000);
    assert_eq!(sell_price, 4_000_000);
}

#[test]
fn quotes_of_a_round_trip_on_seed_reserves() {
    let amount: u64 = 50_000_000_000000;
    let (buy_price, sol_cost, mid_tokens, mid_sol) =
        calculate_price_and_sol(amount, SEED_VIRTUAL_TOKENS, SEED_VIRTUAL_SOL, SEED_REAL_TOKENS, 0)
            .unwrap();
    let (sell_price, sol_output, end_tokens, end_sol) =
        calculate_price_and_sol_sell_operation(amount, mid_tokens, mid_sol, 0, 0).unwrap();
    assert_eq!(end_tokens, SEED_VIRTUAL_TOKENS);
    assert_eq!(end_sol, SEED_VIRTUAL_SOL - 1);
    assert_eq!(sol_cost, 14_662_756);
    assert_eq!(sol_output, 14_662_756);
    assert!(buy_price >= sell_price);
}

#[test]
fn buy_quote_charges_no_more_than_the_product_asks() {
    let cases: [(u64, u64, u64); 4] = [
        (1_000_000000, SEED_VIRTUAL_TOKENS, SEED_VIRTUAL_SOL),
        (50_000_000_000000, SEED_VIRTUAL_TOKENS, SEED_VIRTUAL_SOL),
        (1, 3, 799),
        (1000, 2000, 1_000_000_000),
    ];
    for (amount, virtual_tokens, virtual_sol) in cases {
        let (_, sol_cost, left, _) =
            calculate_price_and_sol(amount, virtual_tokens, virtual_sol, amount, 0).unwrap();
        let exact = (virtual_sol as i128) * (amount as i128);
        let charged = 100 * (sol_cost as i128) * (left as i128);
        assert!(charged <= exact);
        assert!(exact - 100 * (left as i128) < charged);
    }
}

#[test]
fn sell_quote_pays_less_than_the_product_gives_and_one_unit_per_token() {
    let cases: [(u64, u64, u64); 4] = [
        (20_000_000_000000, 1_023_000_000_000000, 31_466_275_659),
        (1, 2, 1198),
        (3, 10, 1000),
        (1000, 1000, 2_000_000_000),
    ];
    for (amount, virtual_tokens, virtual_sol) in cases {
        let (_, sol_output, grown, _) =
            calculate_price_and_sol_sell_operation(amount, virtual_tokens, virtual_sol, 0, 0).unwrap();
        let exact = (virtual_sol as i128) * (amount as i128);
        let paid = 100 * (sol_output as i128) * (grown as i128);
        assert!(paid < exact + grown as i128);
        assert!(exact - 100 * (grown as i128) < paid);
    }
}
