use tempo_rpc::api::TempoEthApi;
use tempo_rpc::forward::{
    pool_outcome, subblock_outcome, Attempt, ForwardError, ForwardStep, Forwarding, Route,
};
use tempo_rpc::primitives::B256;
use tempo_rpc::transaction::RecoveredTransaction;
use tokio::sync::broadcast::error::{SendError, TryRecvError};

fn transaction(subblock_proposer: Option<Vec<u8>>) -> RecoveredTransaction {
    RecoveredTransaction {
        hash: [7; 32],
        signer: [8; 20],
        subblock_proposer,
        envelope: vec![1, 2, 3],
    }
}

/// Makes the first attempt at the subblocks service.
fn broadcast<A>(
    api: &TempoEthApi<A>,
    transaction: RecoveredTransaction,
) -> Result<B256, ForwardError<()>> {
    match api.attempt(api.send_transaction(transaction)) {
        Attempt::Made(ForwardStep::Done(answer)) => answer,
        Attempt::Made(ForwardStep::Retry { cause, .. }) => Err(cause),
        Attempt::Pool(_) => panic!("the pool was asked"),
    }
}

/// Runs a forwarding on given outcomes: the answer, the attempts made and the delays between them.
fn run(outcomes: Vec<Result<B256, u32>>) -> (Result<B256, u32>, usize, Vec<u64>) {
    let mut forwarding = Forwarding::start(transaction(None));
    let mut delays = Vec::new();
    let mut attempts = 0;
    for outcome in outcomes {
        attempts += 1;
        match forwarding.on_outcome(outcome) {
            ForwardStep::Done(answer) => return (answer, attempts, delays),
            ForwardStep::Retry { next, delay_ms, cause } => {
                assert_eq!(outcome, Err(cause));
                delays.push(delay_ms);
                forwarding = next;
            }
        }
    }
    panic!("the forwarding did not end");
}

#[test]
fn success_at_once_needs_one_attempt() {
    assert_eq!(run(vec![Ok([1; 32]), Ok([2; 32])]), (Ok([1; 32]), 1, vec![]));
}

#[test]
fn first_success_is_returned_after_doubling_delays() {
    let outcomes = vec![Err(1), Err(2), Ok([3; 32]), Ok([4; 32])];
    assert_eq!(run(outcomes), (Ok([3; 32]), 3, vec![200, 400]));
}

#[test]
fn success_at_the_last_attempt_counts() {
    let outcomes = vec![Err(1), Err(2), Err(3), Err(4), Ok([5; 32])];
    assert_eq!(run(outcomes), (Ok([5; 32]), 5, vec![200, 400, 800, 1600]));
}

#[test]
fn fifth_failure_is_returned() {
    let outcomes = vec![Err(1), Err(2), Err(3), Err(4), Err(5), Ok([6; 32])];
    let (answer, attempts, delays) = run(outcomes);
    assert_eq!(answer, Err(5));
    assert_eq!(attempts, 5);
    assert_eq!(delays.iter().sum::<u64>(), 3000);
}

#[test]
fn subblock_proposer_decides_the_route() {
    let api = TempoEthApi::new(());
    assert_eq!(api.send_transaction(transaction(None)).route(), Route::Pool);
    assert_eq!(api.send_transaction(transaction(Some(vec![5]))).route(), Route::Subblock);
    assert_eq!(api.send_transaction(transaction(Some(vec![]))).route(), Route::Subblock);
}

#[test]
fn retry_keeps_transaction_and_route() {
    let forwarding = Forwarding::start(transaction(Some(vec![5])));
    match forwarding.on_outcome(Err(())) {
        ForwardStep::Retry { next, .. } => {
            assert_eq!(next.transaction(), &transaction(Some(vec![5])));
            assert_eq!(next.route(), Route::Subblock);
        }
        ForwardStep::Done(_) => panic!("the forwarding ended"),
    }
}

#[test]
fn no_number_of_failures_switches_the_route() {
    for proposer in [None, Some(vec![5])] {
        let mut forwarding = Forwarding::start(transaction(proposer.clone()));
        let first = forwarding.route();
        while let ForwardStep::Retry { next, .. } = forwarding.on_outcome(Err(())) {
            assert_eq!(next.route(), first);
            assert_eq!(next.transaction(), &transaction(proposer.clone()));
            forwarding = next;
        }
    }
}

#[test]
fn pool_answers_are_passed_on() {
    assert_eq!(pool_outcome::<u32>(Ok([1; 32])), Ok([1; 32]));
    assert_eq!(pool_outcome::<u32>(Err(9)), Err(ForwardError::Pool(9)));
}

#[test]
fn channel_answers_become_hash_or_error() {
    assert_eq!(subblock_outcome::<()>(Ok(3), [7; 32]), Ok([7; 32]));
    let closed = Err(SendError(transaction(None)));
    assert_eq!(
        subblock_outcome::<()>(closed, [7; 32]),
        Err(ForwardError::SubblockChannel(
            "subblocks service channel error: channel closed".to_string()
        ))
    );
}

#[test]
fn subscribers_receive_subblock_transactions() {
    let api = TempoEthApi::new(());
    let mut first = api.subblock_transactions_rx();
    let mut second = api.subblock_transactions_rx();
    assert_eq!(broadcast(&api, transaction(Some(vec![5]))), Ok([7; 32]));
    assert_eq!(first.try_recv(), Ok(transaction(Some(vec![5]))));
    assert_eq!(second.try_recv(), Ok(transaction(Some(vec![5]))));
    assert_eq!(first.try_recv(), Err(TryRecvError::Empty));
}

#[test]
fn sending_without_subscribers_fails() {
    let api = TempoEthApi::new(());
    let outcome = broadcast(&api, transaction(Some(vec![5])));
    assert_eq!(
        outcome,
        Err(ForwardError::SubblockChannel(
            "subblocks service channel error: channel closed".to_string()
        ))
    );
    drop(api.subblock_transactions_rx());
    assert!(broadcast(&api, transaction(Some(vec![5]))).is_err());
}

#[test]
fn unheard_subblock_transaction_is_answered_with_the_channel_error() {
    let api = TempoEthApi::new(());
    let mut forwarding = api.send_transaction(transaction(Some(vec![5])));
    let mut delays = Vec::new();
    let answer = loop {
        match api.attempt::<()>(forwarding) {
            Attempt::Made(ForwardStep::Done(answer)) => break answer,
            Attempt::Made(ForwardStep::Retry { next, delay_ms, .. }) => {
                delays.push(delay_ms);
                forwarding = next;
            }
            Attempt::Pool(_) => panic!("the pool was asked"),
        }
    };
    assert_eq!(delays, vec![200, 400, 800, 1600]);
    assert_eq!(
        answer,
        Err(ForwardError::SubblockChannel(
            "subblocks service channel error: channel closed".to_string()
        ))
    );
}

#[test]
fn transaction_without_proposer_is_left_to_the_pool() {
    let api = TempoEthApi::new(());
    let mut rx = api.subblock_transactions_rx();
    match api.attempt::<()>(api.send_transaction(transaction(None))) {
        Attempt::Pool(handed) => assert_eq!(handed.transaction(), &transaction(None)),
        Attempt::Made(_) => panic!("the subblocks service was asked"),
    }
    assert_eq!(rx.try_recv(), Err(TryRecvError::Empty));
}

#[test]
fn subscription_between_attempts_lets_the_next_one_through() {
    let api = TempoEthApi::new(());
    let forwarding = api.send_transaction(transaction(Some(vec![5])));
    let forwarding = match api.attempt::<()>(forwarding) {
        Attempt::Made(ForwardStep::Retry { next, delay_ms, .. }) => {
            assert_eq!(delay_ms, 200);
            next
        }
        _ => panic!("the attempt did not fail"),
    };
    let mut rx = api.subblock_transactions_rx();
    match api.attempt::<()>(forwarding) {
        Attempt::Made(ForwardStep::Done(answer)) => assert_eq!(answer, Ok([7; 32])),
        _ => panic!("the transaction was not taken"),
    }
    assert_eq!(rx.try_recv(), Ok(transaction(Some(vec![5]))));
}
