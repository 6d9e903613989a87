use tempo_rpc::api::TempoEthApi;
use tempo_rpc::gas::{FeePayerQuery, FeeTokenQuery, Pricing, TokenBalanceQuery};
use tempo_rpc::primitives::{U256, ZERO_ADDRESS};

const SCALE: u64 = 1_000_000_000_000;

fn small(value: u64) -> U256 {
    U256 { limbs: [value, 0, 0, 0] }
}

fn largest() -> U256 {
    U256 { limbs: [u64::MAX, u64::MAX, u64::MAX, u64::MAX] }
}

fn pricing(gas_price: u128) -> Pricing {
    Pricing { gas_price, scaling_factor: small(SCALE) }
}

#[test]
fn allowance_is_scaled_balance_over_price() {
    // 1_000_000 * 10^12 / 20_000_000_000 = 50_000_000
    assert_eq!(pricing(20_000_000_000).gas_allowance(small(1_000_000)), 50_000_000);
}

#[test]
fn allowance_rounds_down() {
    assert_eq!(pricing(3).gas_allowance(small(1)), 333_333_333_333);
    assert_eq!(pricing(1_000_000_000_001).gas_allowance(small(1)), 0);
}

#[test]
fn zero_price_gives_no_allowance() {
    assert_eq!(pricing(0).gas_allowance(small(1_000_000)), 0);
    assert_eq!(pricing(0).gas_allowance(largest()), 0);
}

#[test]
fn zero_balance_gives_no_allowance() {
    assert_eq!(pricing(7).gas_allowance(small(0)), 0);
}

#[test]
fn allowance_is_capped_at_u64() {
    assert_eq!(pricing(1).gas_allowance(small(u64::MAX)), u64::MAX);
    assert_eq!(pricing(1_000_000_000_000).gas_allowance(small(u64::MAX)), u64::MAX);
    assert_eq!(pricing(1_000_000_000_000).gas_allowance(small(u64::MAX - 1)), u64::MAX - 1);
}

#[test]
fn scaled_balance_is_capped_at_256_bits() {
    assert_eq!(pricing(u128::MAX).gas_allowance(largest()), u64::MAX);
    // 2^192 * 2^192 saturates; without the cap the product would wrap around to zero.
    let high = U256 { limbs: [0, 0, 0, 1] };
    let huge = Pricing { gas_price: 2, scaling_factor: high };
    assert_eq!(huge.gas_allowance(high), u64::MAX);
}

#[test]
fn cap_on_the_scaled_balance_does_not_show() {
    // The scaled balance is far beyond 256 bits, and so is its share at the highest price.
    assert_eq!(pricing(u128::MAX).gas_allowance(U256 { limbs: [0, 0, 0, u64::MAX] }), u64::MAX);
    // Well below it the figure is exact: 2^190 / 2^127 = 2^63.
    let near = Pricing { gas_price: 1u128 << 127, scaling_factor: small(1) };
    assert_eq!(near.gas_allowance(U256 { limbs: [0, 0, 1 << 62, 0] }), 1 << 63);
}

#[test]
fn prices_beyond_one_limb_divide_exactly() {
    // (2^64 * 10) / (2^64 * 3) = 3
    let pricing = Pricing { gas_price: 3u128 << 64, scaling_factor: small(10) };
    assert_eq!(pricing.gas_allowance(U256 { limbs: [0, 1, 0, 0] }), 3);
}

#[test]
fn allowance_is_affordable_and_largest() {
    let gas = pricing(7).gas_allowance(small(123)) as u128;
    let scaled = 123 * SCALE as u128;
    assert!(gas * 7 <= scaled);
    assert!((gas + 1) * 7 > scaled);
}

#[test]
fn allowance_follows_balance_and_price() {
    assert!(pricing(7).gas_allowance(small(5)) <= pricing(7).gas_allowance(small(6)));
    assert!(pricing(8).gas_allowance(small(5)) <= pricing(7).gas_allowance(small(5)));
}

#[test]
fn lookup_asks_for_payer_token_and_balance() {
    let api = TempoEthApi::new(());
    let start = api.caller_gas_allowance(2, small(10));
    assert_eq!(start, FeePayerQuery { pricing: Pricing { gas_price: 2, scaling_factor: small(10) } });

    let payer = [1u8; 20];
    let token = [2u8; 20];
    let query = start.on_fee_payer::<()>(Ok(payer)).unwrap();
    assert_eq!(
        query,
        FeeTokenQuery { pricing: start.pricing, validator: ZERO_ADDRESS, fee_payer: payer }
    );
    let query = query.on_fee_token::<()>(Ok(token)).unwrap();
    assert_eq!(query, TokenBalanceQuery { pricing: start.pricing, token, account: payer });
    assert_eq!(query.on_balance::<()>(Ok(small(7))), Ok(35));
}

#[test]
fn each_failed_lookup_gives_its_error() {
    let start = TempoEthApi::new(()).caller_gas_allowance(2, small(10));
    assert_eq!(start.on_fee_payer::<&str>(Err("payer")), Err("payer"));
    let query = start.on_fee_payer::<&str>(Ok([1; 20])).unwrap();
    assert_eq!(query.on_fee_token::<&str>(Err("token")), Err("token"));
    let query = query.on_fee_token::<&str>(Ok([2; 20])).unwrap();
    assert_eq!(query.on_balance::<&str>(Err("balance")), Err("balance"));
}
