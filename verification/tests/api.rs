use tempo_rpc::api::{TempoEthApi, TempoEthApiBuilder};
use tempo_rpc::forward::{Attempt, ForwardError, ForwardStep};
use tempo_rpc::primitives::{B256, NATIVE_BALANCE_PLACEHOLDER, U256, ZERO_ADDRESS};
use tempo_rpc::transaction::RecoveredTransaction;
use tokio::sync::broadcast::error::TryRecvError;

fn transaction(id: u8) -> RecoveredTransaction {
    RecoveredTransaction {
        hash: [id; 32],
        signer: [0; 20],
        subblock_proposer: Some(vec![id]),
        envelope: vec![],
    }
}

/// Makes the first attempt at the subblocks service.
fn broadcast<A>(
    api: &TempoEthApi<A>,
    transaction: RecoveredTransaction,
) -> Result<B256, ForwardError<()>> {
    match api.attempt(api.send_transaction(transaction)) {
        Attempt::Made(ForwardStep::Done(answer)) => answer,
        Attempt::Made(ForwardStep::Retry { cause, .. }) => Err(cause),
        Attempt::Pool(_) => panic!("the pool was asked"),
    }
}

#[test]
fn balance_is_the_placeholder() {
    let api = TempoEthApi::new("handlers");
    let balance: Result<U256, ()> = api.balance(ZERO_ADDRESS, None::<u64>);
    let digits = "42".repeat(38);
    let placeholder = alloy_primitives::U256::from_str_radix(&digits, 10).unwrap();
    assert_eq!(balance.unwrap().limbs, placeholder.into_limbs());
    assert_eq!(NATIVE_BALANCE_PLACEHOLDER, placeholder.into_limbs());
}

#[test]
fn balance_is_the_same_for_all_accounts_and_blocks() {
    let api = TempoEthApi::new("handlers");
    let one: Result<U256, ()> = api.balance([1; 20], Some(5u64));
    let other: Result<U256, ()> = api.balance([2; 20], None::<u64>);
    assert_eq!(one, other);
}

#[test]
fn limbs_are_read_as_the_integer_library_does() {
    let value = U256 { limbs: [1, 2, 3, 4] };
    let same = alloy_primitives::U256::from_limbs(value.limbs);
    let sum = alloy_primitives::U256::from(1u64)
        + (alloy_primitives::U256::from(2u64) << 64)
        + (alloy_primitives::U256::from(3u64) << 128)
        + (alloy_primitives::U256::from(4u64) << 192);
    assert_eq!(same, sum);
}

#[test]
fn builder_suggests_no_fee_and_keeps_the_handlers() {
    let builder = TempoEthApiBuilder;
    assert_eq!(builder.default_suggested_fee(), Some(U256::zero()));
    assert_eq!(builder.build_eth_api("handlers").inner(), &"handlers");
}

#[test]
fn clones_share_the_channel() {
    let api = TempoEthApi::new("handlers");
    let copy = api.clone();
    assert_eq!(copy.inner(), &"handlers");
    let mut rx = api.subblock_transactions_rx();
    broadcast(&copy, transaction(1)).unwrap();
    assert_eq!(rx.try_recv(), Ok(transaction(1)));
}

#[test]
fn separate_apis_have_separate_channels() {
    let api = TempoEthApi::new("handlers");
    let other = TempoEthApi::new("handlers");
    let mut rx = other.subblock_transactions_rx();
    assert!(broadcast(&api, transaction(1)).is_err());
    assert_eq!(rx.try_recv(), Err(TryRecvError::Empty));
}

#[test]
fn subscription_starts_with_the_next_transaction() {
    let api = TempoEthApi::new("handlers");
    let _early = api.subblock_transactions_rx();
    broadcast(&api, transaction(1)).unwrap();
    let mut late = api.subblock_transactions_rx();
    broadcast(&api, transaction(2)).unwrap();
    assert_eq!(late.try_recv(), Ok(transaction(2)));
}

#[test]
fn subscriptions_agree_on_order_across_handles() {
    let api = TempoEthApi::new("handlers");
    let copy = api.clone();
    let mut early = api.subblock_transactions_rx();
    broadcast(&api, transaction(1)).unwrap();
    let mut late = copy.subblock_transactions_rx();
    broadcast(&copy, transaction(2)).unwrap();
    broadcast(&api, transaction(3)).unwrap();
    for id in 1..4 {
        assert_eq!(early.try_recv(), Ok(transaction(id)));
    }
    for id in 2..4 {
        assert_eq!(late.try_recv(), Ok(transaction(id)));
    }
    assert_eq!(early.try_recv(), Err(TryRecvError::Empty));
    assert_eq!(late.try_recv(), Err(TryRecvError::Empty));
}

#[test]
fn channel_keeps_128_transactions() {
    let api = TempoEthApi::new("handlers");
    let mut rx = api.subblock_transactions_rx();
    for id in 0..128u8 {
        broadcast(&api, transaction(id)).unwrap();
    }
    for id in 0..128u8 {
        assert_eq!(rx.try_recv(), Ok(transaction(id)));
    }
    for id in 0..129u8 {
        broadcast(&api, transaction(id)).unwrap();
    }
    assert_eq!(rx.try_recv(), Err(TryRecvError::Lagged(1)));
    assert_eq!(rx.try_recv(), Ok(transaction(1)));
}
