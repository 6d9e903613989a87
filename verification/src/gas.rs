//! How much gas a caller can pay for with the fee token they hold.
//!
//! The answer takes three lookups outside this library, each of which may fail: who pays the fee,
//! in which token, and how much of it they hold. Each lookup is a value here, and its `on_` method
//! takes what came back to the next one.

use vstd::prelude::*;

use crate::primitives::{at_most, u256_max, Address, U256, ZERO_ADDRESS};

verus! {

/// The gas that `balance` units of a fee token buy at `gas_price`, where one unit of the token is
/// worth `scaling_factor` units of the gas price: the scaled balance over the price, rounded down
/// and capped at `u64::MAX`. At a price of zero there is no allowance.
pub open spec fn gas_allowance_value(balance: nat, scaling_factor: nat, gas_price: nat) -> nat {
    if gas_price == 0 {
        0
    } else {
        at_most(balance * scaling_factor / gas_price, u64::MAX as nat)
    }
}

/// What is fixed about a call before its fee payer is known.
#[derive(Clone, Copy, Debug, PartialEq, Eq)]
pub struct Pricing {
    /// Price of one unit of gas.
    pub gas_price: u128,
    /// Units of the gas price that one unit of the fee token is worth.
    pub scaling_factor: U256,
}

impl Pricing {
    /// The allowance that a token balance gives at this pricing.
    pub open spec fn allowance_of(self, balance: U256) -> nat {
        gas_allowance_value(balance@, self.scaling_factor@, self.gas_price as nat)
    }

    /// The gas that can be paid for with `balance` units of the fee token: the most that costs no
    /// more than the scaled balance, or `u64::MAX` where that much and more could be paid for.
    pub fn gas_allowance(&self, balance: U256) -> (gas: u64)
        ensures
            gas == self.allowance_of(balance),
            self.gas_price == 0 ==> gas == 0,
            gas * self.gas_price <= balance@ * self.scaling_factor@,
            self.gas_price > 0 && gas < u64::MAX ==> (gas + 1) * self.gas_price > balance@
                * self.scaling_factor@,
    {
        proof {
            law_pricing_is_fair(*self, balance);
            if self.gas_price > 0 {
                law_scaled_balance_may_be_capped(
                    balance@,
                    self.scaling_factor@,
                    self.gas_price as nat,
                );
            }
        }
        let scaled = balance.saturating_mul(self.scaling_factor);
        let quotient = match scaled.checked_div(U256::from_u128(self.gas_price)) {
            Some(quotient) => quotient,
            None => U256::zero(),
        };
        quotient.saturating_to_u64()
    }
}

/// Asks who pays the fee of the transaction.
#[derive(Clone, Copy, Debug, PartialEq, Eq)]
pub struct FeePayerQuery {
    pub pricing: Pricing,
}

/// Asks in which token `fee_payer` pays, seen from `validator`.
#[derive(Clone, Copy, Debug, PartialEq, Eq)]
pub struct FeeTokenQuery {
    pub pricing: Pricing,
    pub validator: Address,
    pub fee_payer: Address,
}

/// Asks how much of `token` the `account` holds.
#[derive(Clone, Copy, Debug, PartialEq, Eq)]
pub struct TokenBalanceQuery {
    pub pricing: Pricing,
    pub token: Address,
    pub account: Address,
}

impl FeePayerQuery {
    /// What follows the answer to this query: the fee token is asked for under the zero validator,
    /// or the failure ends the lookup.
    pub open spec fn after<E>(self, fee_payer: Result<Address, E>) -> Result<FeeTokenQuery, E> {
        match fee_payer {
            Ok(fee_payer) => Ok(
                FeeTokenQuery { pricing: self.pricing, validator: ZERO_ADDRESS, fee_payer },
            ),
            Err(error) => Err(error),
        }
    }

    /// Takes the fee payer that was found.
    pub fn on_fee_payer<E>(self, fee_payer: Result<Address, E>) -> (next: Result<FeeTokenQuery, E>)
        ensures
            next == self.after(fee_payer),
            match (next, fee_payer) {
                (Ok(query), Ok(payer)) => {
                    &&& query.pricing == self.pricing
                    &&& query.fee_payer == payer
                    &&& forall|i: int| 0 <= i < 20 ==> #[trigger] query.validator@[i] == 0
                },
                (Err(answer), Err(error)) => answer == error,
                _ => false,
            },
    {
        match fee_payer {
            Ok(fee_payer) => Ok(
                FeeTokenQuery { pricing: self.pricing, validator: ZERO_ADDRESS, fee_payer },
            ),
            Err(error) => Err(error),
        }
    }
}

impl FeeTokenQuery {
    /// What follows the answer to this query: the fee payer's balance of that token is asked for,
    /// or the failure ends the lookup.
    pub open spec fn after<E>(self, token: Result<Address, E>) -> Result<TokenBalanceQuery, E> {
        match token {
            Ok(token) => Ok(
                TokenBalanceQuery { pricing: self.pricing, token, account: self.fee_payer },
            ),
            Err(error) => Err(error),
        }
    }

    /// Takes the fee token that was found.
    pub fn on_fee_token<E>(self, token: Result<Address, E>) -> (next: Result<TokenBalanceQuery, E>)
        ensures
            next == self.after(token),
            match (next, token) {
                (Ok(query), Ok(found)) => {
                    &&& query.pricing == self.pricing
                    &&& query.token == found
                    &&& query.account == self.fee_payer
                },
                (Err(answer), Err(error)) => answer == error,
                _ => false,
            },
    {
        match token {
            Ok(token) => Ok(
                TokenBalanceQuery { pricing: self.pricing, token, account: self.fee_payer },
            ),
            Err(error) => Err(error),
        }
    }
}

impl TokenBalanceQuery {
    /// What follows the answer to this query: the allowance, or the failure.
    pub open spec fn after<E>(self, balance: Result<U256, E>) -> Result<u64, E> {
        match balance {
            Ok(balance) => Ok(self.pricing.allowance_of(balance) as u64),
            Err(error) => Err(error),
        }
    }

    /// Takes the balance that was read and gives the allowance.
    pub fn on_balance<E>(self, balance: Result<U256, E>) -> (gas: Result<u64, E>)
        ensures
            gas == self.after(balance),
            gas matches Ok(gas) ==> gas == self.pricing.allowance_of(balance->Ok_0),
            match (gas, balance) {
                (Ok(gas), Ok(held)) => {
                    &&& self.pricing.gas_price == 0 ==> gas == 0
                    &&& gas * self.pricing.gas_price <= held@ * self.pricing.scaling_factor@
                    &&& self.pricing.gas_price > 0 && gas < u64::MAX ==> (gas + 1)
                        * self.pricing.gas_price > held@ * self.pricing.scaling_factor@
                },
                (Err(answer), Err(error)) => answer == error,
                _ => false,
            },
    {
        match balance {
            Ok(balance) => Ok(self.pricing.gas_allowance(balance)),
            Err(error) => Err(error),
        }
    }
}

/// The three lookups in a row, where `token_of` answers for a validator and a fee payer, and
/// `balance_of` for a token and an account.
pub open spec fn look_up_allowance<E>(
    start: FeePayerQuery,
    fee_payer: Result<Address, E>,
    token_of: spec_fn(Address, Address) -> Result<Address, E>,
    balance_of: spec_fn(Address, Address) -> Result<U256, E>,
) -> Result<u64, E> {
    match start.after(fee_payer) {
        Err(error) => Err(error),
        Ok(query) => match query.after(token_of(query.validator, query.fee_payer)) {
            Err(error) => Err(error),
            Ok(query) => query.after(balance_of(query.token, query.account)),
        },
    }
}

/// The first lookup that fails gives the error, and nothing after it counts. Where none fails, the
/// answer is the allowance of what the fee payer holds of the token that the zero validator and
/// the fee payer settle on.
pub proof fn law_first_failure_ends_the_lookup<E>(
    start: FeePayerQuery,
    fee_payer: Result<Address, E>,
    token_of: spec_fn(Address, Address) -> Result<Address, E>,
    balance_of: spec_fn(Address, Address) -> Result<U256, E>,
)
    ensures
        ({
            let answer = look_up_allowance(start, fee_payer, token_of, balance_of);
            match fee_payer {
                Err(error) => answer == Err::<u64, E>(error),
                Ok(payer) => match token_of(ZERO_ADDRESS, payer) {
                    Err(error) => answer == Err::<u64, E>(error),
                    Ok(token) => match balance_of(token, payer) {
                        Err(error) => answer == Err::<u64, E>(error),
                        Ok(balance) => answer is Ok && answer->Ok_0
                            == start.pricing.allowance_of(balance),
                    },
                },
            }
        }),
{
}

/// Whatever the balance, the scaling factor and the price, the allowance is the most gas that costs
/// no more than the scaled balance: it can be paid for, and unless it is `u64::MAX` one more unit
/// of gas could not. Without a price there is none.
pub proof fn law_pricing_is_fair(pricing: Pricing, balance: U256)
    ensures
        pricing.allowance_of(balance) <= u64::MAX,
        pricing.gas_price == 0 ==> pricing.allowance_of(balance) == 0,
        pricing.allowance_of(balance) * pricing.gas_price <= balance@ * pricing.scaling_factor@,
        pricing.gas_price > 0 && pricing.allowance_of(balance) < u64::MAX ==> (pricing.allowance_of(
            balance,
        ) + 1) * pricing.gas_price > balance@ * pricing.scaling_factor@,
{
    let price = pricing.gas_price as nat;
    law_allowance_is_affordable(balance@, pricing.scaling_factor@, price);
    if price > 0 && pricing.allowance_of(balance) < u64::MAX {
        law_allowance_is_largest(balance@, pricing.scaling_factor@, price);
    }
}

/// At one price and scaling factor, whoever holds more is never allowed less.
pub proof fn law_pricing_follows_the_balance(pricing: Pricing, less: U256, more: U256)
    requires
        less@ <= more@,
    ensures
        pricing.allowance_of(less) <= pricing.allowance_of(more),
{
    law_allowance_grows_with_balance(
        less@,
        more@,
        pricing.scaling_factor@,
        pricing.gas_price as nat,
    );
}

/// Each answer is carried to the next lookup as it is: the fee token is looked up for the fee payer
/// that was found, under the zero validator, and the balance for that same account and the token
/// that was found. The pricing is the one that the lookup began with, and the allowance is the most
/// gas that the balance pays for.
pub proof fn law_answers_are_carried_on<E>(
    start: FeePayerQuery,
    payer: Address,
    token: Address,
    balance: U256,
)
    ensures
        ({
            let second = start.after(Ok::<Address, E>(payer));
            let third = second->Ok_0.after(Ok::<Address, E>(token));
            let gas = third->Ok_0.after(Ok::<U256, E>(balance));
            &&& second is Ok
            &&& second->Ok_0.fee_payer == payer
            &&& forall|i: int| 0 <= i < 20 ==> #[trigger] second->Ok_0.validator@[i] == 0
            &&& third is Ok
            &&& third->Ok_0.token == token
            &&& third->Ok_0.account == payer
            &&& gas is Ok
            &&& start.pricing.gas_price == 0 ==> gas->Ok_0 == 0
            &&& gas->Ok_0 * start.pricing.gas_price <= balance@ * start.pricing.scaling_factor@
            &&& start.pricing.gas_price > 0 && gas->Ok_0 < u64::MAX ==> (gas->Ok_0 + 1)
                * start.pricing.gas_price > balance@ * start.pricing.scaling_factor@
        }),
{
    law_pricing_is_fair(start.pricing, balance);
}

/// Capping the scaled balance at the largest 256-bit integer never shows in the allowance: a price
/// is a `u128`, so what lies beyond the cap buys more than `u64::MAX` gas either way.
pub proof fn law_scaled_balance_may_be_capped(balance: nat, scaling_factor: nat, gas_price: nat)
    requires
        0 < gas_price <= u128::MAX,
    ensures
        gas_allowance_value(balance, scaling_factor, gas_price) == at_most(
            at_most(balance * scaling_factor, u256_max()) / gas_price,
            u64::MAX as nat,
        ),
{
    let scaled = balance * scaling_factor;
    if scaled > u256_max() {
        assert(u256_max() / gas_price >= u64::MAX) by (nonlinear_arith)
            requires
                0 < gas_price <= u128::MAX,
                u256_max() >= u64::MAX * u128::MAX,
        ;
        vstd::arithmetic::div_mod::lemma_div_is_ordered(
            u256_max() as int,
            scaled as int,
            gas_price as int,
        );
    }
}

/// The allowance can be paid for: at the gas price it costs no more than the scaled balance.
pub proof fn law_allowance_is_affordable(balance: nat, scaling_factor: nat, gas_price: nat)
    ensures
        gas_allowance_value(balance, scaling_factor, gas_price) * gas_price <= balance
            * scaling_factor,
{
    let gas = gas_allowance_value(balance, scaling_factor, gas_price);
    let scaled = balance * scaling_factor;
    if gas_price > 0 {
        assert(gas * gas_price <= scaled) by (nonlinear_arith)
            requires
                gas <= scaled / gas_price,
                gas_price > 0,
        ;
    }
}

/// No larger allowance could be paid for: below `u64::MAX`, one more unit of gas costs more than
/// the scaled balance.
pub proof fn law_allowance_is_largest(balance: nat, scaling_factor: nat, gas_price: nat)
    requires
        gas_price > 0,
        gas_allowance_value(balance, scaling_factor, gas_price) < u64::MAX,
    ensures
        (gas_allowance_value(balance, scaling_factor, gas_price) + 1) * gas_price > balance
            * scaling_factor,
{
    let scaled = balance * scaling_factor;
    let gas = gas_allowance_value(balance, scaling_factor, gas_price);
    assert((gas + 1) * gas_price > scaled) by (nonlinear_arith)
        requires
            gas == scaled / gas_price,
            gas_price > 0,
    ;
}

/// Without a price, and without a balance, there is no allowance.
pub proof fn law_nothing_buys_nothing(amount: nat, scaling_factor: nat)
    ensures
        gas_allowance_value(amount, scaling_factor, 0) == 0,
        gas_allowance_value(0, scaling_factor, amount) == 0,
{
    assert(0 * scaling_factor == 0) by (nonlinear_arith);
    if amount > 0 {
        assert(0nat / amount == 0) by (nonlinear_arith)
            requires
                amount > 0,
        ;
    }
}

/// A larger balance never lowers the allowance.
pub proof fn law_allowance_grows_with_balance(
    less: nat,
    more: nat,
    scaling_factor: nat,
    gas_price: nat,
)
    requires
        less <= more,
    ensures
        gas_allowance_value(less, scaling_factor, gas_price) <= gas_allowance_value(
            more,
            scaling_factor,
            gas_price,
        ),
{
    assert(less * scaling_factor <= more * scaling_factor) by (nonlinear_arith)
        requires
            less <= more,
    ;
    if gas_price > 0 {
        vstd::arithmetic::div_mod::lemma_div_is_ordered(
            (less * scaling_factor) as int,
            (more * scaling_factor) as int,
            gas_price as int,
        );
    }
}

/// A higher price never raises the allowance, as long as there is a price at all.
pub proof fn law_allowance_falls_with_price(
    balance: nat,
    scaling_factor: nat,
    lower: nat,
    higher: nat,
)
    requires
        0 < lower <= higher,
    ensures
        gas_allowance_value(balance, scaling_factor, higher) <= gas_allowance_value(
            balance,
            scaling_factor,
            lower,
        ),
{
    vstd::arithmetic::div_mod::lemma_div_is_ordered_by_denominator(
        (balance * scaling_factor) as int,
        lower as int,
        higher as int,
    );
}

} // verus!
