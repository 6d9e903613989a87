//! The node's `eth_` API and the builder that puts it together.

use tokio::sync::broadcast;
use vstd::arithmetic::power2::pow2;
use vstd::prelude::*;

use crate::channel::{
    channel_backlog, channel_log, channel_refused, clone_sender, next_power_of_two, open_channel,
    receiver_channel, receiver_feed, send, sender_channel, subscribe,
};
use crate::forward::{
    channel_error, is_channel_error, retry_delay_ms, route_of, starting, Attempt, ForwardError,
    ForwardStep, Forwarding, Permit, Route, MAX_ATTEMPTS,
};
use crate::gas::{FeePayerQuery, Pricing};
use crate::nonce::{TempoTransactionRequest, TxnEnvStep};
use crate::primitives::{Address, B256, NATIVE_BALANCE_PLACEHOLDER, U256};
use crate::transaction::{RecoveredTransaction, TransactionView};

verus! {

/// The capacity with which the channel to the subblocks service is opened.
pub const SUBBLOCK_CHANNEL_CAPACITY: usize = 100;

/// The value that `NATIVE_BALANCE_PLACEHOLDER` stands for.
pub open spec fn native_balance_placeholder() -> nat {
    4242424242424242424242424242424242424242424242424242424242424242424242424242nat
}

/// The node's `eth_` API: the common Ethereum handlers `A`, and a channel on which transactions
/// reach the subblocks service.
pub struct TempoEthApi<A> {
    inner: A,
    subblock_transactions_tx: broadcast::Sender<RecoveredTransaction>,
}

impl<A> TempoEthApi<A> {
    /// The common Ethereum handlers.
    pub closed spec fn handlers(self) -> A {
        self.inner
    }

    /// The channel to the subblocks service.
    pub closed spec fn subblock_channel(self) -> int {
        sender_channel(self.subblock_transactions_tx)
    }

    /// How many transactions the channel keeps for a subscription that falls behind.
    pub open spec fn subblock_backlog(self) -> nat {
        channel_backlog(self.subblock_channel())
    }

    /// The transactions that the channel takes in over its whole life, in order.
    pub open spec fn subblock_log(self) -> Seq<TransactionView> {
        channel_log(self.subblock_channel())
    }

    /// The transactions that the channel hands back over its whole life.
    pub open spec fn subblock_refused(self) -> Set<TransactionView> {
        channel_refused(self.subblock_channel())
    }

    /// An API over the given handlers, with a new channel to the subblocks service. The channel
    /// keeps as many transactions as its capacity rounded up to a power of two.
    pub fn new(eth_api: A) -> (api: TempoEthApi<A>)
        ensures
            api.handlers() == eth_api,
            api.subblock_backlog() == next_power_of_two(SUBBLOCK_CHANNEL_CAPACITY as nat),
            api.subblock_backlog() == 128,
            channel_backlog(api.subblock_channel()) == 128,
        opens_invariants none
    {
        proof {
            reveal_with_fuel(next_power_of_two, 8);
        }
        TempoEthApi {
            inner: eth_api,
            subblock_transactions_tx: open_channel(SUBBLOCK_CHANNEL_CAPACITY),
        }
    }

    /// The common Ethereum handlers.
    pub fn inner(&self) -> (inner: &A)
        ensures
            *inner == self.handlers(),
        opens_invariants none
    {
        &self.inner
    }

    /// A subscription to the transactions that are sent to the subblocks service.
    pub fn subblock_transactions_rx(&self) -> (rx: broadcast::Receiver<RecoveredTransaction>)
        ensures
            receiver_channel(rx) == self.subblock_channel(),
            receiver_feed(rx).is_suffix_of(self.subblock_log()),
            receiver_feed(rx).is_suffix_of(channel_log(self.subblock_channel())),
        opens_invariants none
    {
        subscribe(&self.subblock_transactions_tx)
    }

    /// The native balance of an account: the same placeholder for every account and every block,
    /// since fees are paid in tokens and there is no native one.
    pub fn balance<B, E>(&self, _address: Address, _block_id: Option<B>) -> (balance: Result<
        U256,
        E,
    >)
        ensures
            balance is Ok,
            balance->Ok_0@ == native_balance_placeholder(),
            balance->Ok_0@
                == 4242424242424242424242424242424242424242424242424242424242424242424242424242nat,
            balance->Ok_0.limbs == NATIVE_BALANCE_PLACEHOLDER,
        opens_invariants none
    {
        Ok(U256 { limbs: NATIVE_BALANCE_PLACEHOLDER })
    }

    /// Starts to find out how much gas the payer of a transaction's fee can pay for, where one unit
    /// of a fee token is worth `scaling_factor` units of the gas price.
    pub fn caller_gas_allowance(&self, gas_price: u128, scaling_factor: U256) -> (query:
        FeePayerQuery)
        ensures
            query.pricing.gas_price == gas_price,
            query.pricing.scaling_factor == scaling_factor,
        opens_invariants none
    {
        FeePayerQuery { pricing: Pricing { gas_price, scaling_factor } }
    }

    /// Starts to build the environment of a request.
    pub fn create_txn_env<R>(&self, request: TempoTransactionRequest<R>) -> (step: TxnEnvStep<R>)
        ensures
            step == request.step(),
            step is ReadNonce <==> request.nonce is None && request.nonce_key is Some
                && request.nonce_key->0@ != 0,
            match step {
                TxnEnvStep::Build(unchanged) => unchanged == request,
                TxnEnvStep::ReadNonce(lookup) => {
                    &&& request.from matches Some(sender) ==> lookup.account == sender
                    &&& request.from is None ==> forall|i: int|
                        0 <= i < 20 ==> #[trigger] lookup.account@[i] == 0
                    &&& request.nonce_key == Some(lookup.nonce_key)
                    &&& lookup.request == request
                },
            },
        opens_invariants none
    {
        request.into_step()
    }

    /// Starts to forward a submitted transaction.
    pub fn send_transaction(&self, transaction: RecoveredTransaction) -> (forwarding: Forwarding)
        ensures
            forwarding.subject() == transaction,
            forwarding.failures() == 0,
        opens_invariants [starting()]
    {
        Forwarding::start(transaction)
    }

    /// Makes one attempt to send a transaction to the subblocks service. On success the channel
    /// has taken it in and its hash is returned; otherwise the channel has handed it back, and it
    /// comes with the error. Which of the two happens rests on whether anyone is subscribed at that
    /// moment.
    ///
    /// The permit is used up and the transaction moved into the channel, so there is no second send
    /// in here.
    fn send_to_subblocks<E>(&self, transaction: RecoveredTransaction, permit: Permit) -> (outcome:
        Result<B256, (ForwardError<E>, RecoveredTransaction)>)
        requires
            transaction.subblock_proposer is Some,
        ensures
            match outcome {
                Ok(hash) => {
                    &&& hash == transaction.hash
                    &&& channel_log(self.subblock_channel()).contains(transaction@)
                },
                Err((cause, returned)) => {
                    &&& returned == transaction
                    &&& channel_refused(self.subblock_channel()).contains(transaction@)
                    &&& is_channel_error(Err::<B256, ForwardError<E>>(cause))
                    &&& cause is SubblockChannel
                    &&& cause->SubblockChannel_0@
                        == "subblocks service channel error: channel closed"@
                },
            },
        opens_invariants none
    {
        let tx_hash = transaction.hash;
        match send(&self.subblock_transactions_tx, transaction, permit) {
            Ok(_) => Ok(tx_hash),
            Err(error) => {
                let cause = channel_error(&error);
                Err((cause, error.0))
            },
        }
    }

    /// Makes the next attempt at forwarding a transaction, or hands it over where the attempt is
    /// the pool's to make. An attempt at the subblocks service either ends with the hash of the
    /// transaction, which the channel has then taken in, or fails with the channel's error once the
    /// channel has handed the transaction back; the failure is returned or waited out according to
    /// the number of failures before it.
    ///
    /// The channel is given one message, the transaction itself, and only where the attempt is made
    /// at the subblocks service. Sending takes a permit and the transaction, and a forwarding has
    /// one of each. Copying a transaction, making one and starting a forwarding all take calls that
    /// may open invariants, and this one opens none. And a refusal counts as a failure, so that a
    /// second send, should it be refused too, would leave a forwarding with one failure too many.
    pub fn attempt<E>(&self, forwarding: Forwarding) -> (attempt: Attempt<E>)
        ensures
            attempt is Made <==> forwarding.subject().subblock_proposer is Some,
            match attempt {
                Attempt::Pool(handed) => {
                    &&& route_of(forwarding.subject()@) == Route::Pool
                    &&& handed == forwarding
                },
                Attempt::Made(step) => {
                    &&& route_of(forwarding.subject()@) == Route::Subblock
                    &&& match step {
                        ForwardStep::Done(Ok(hash)) => {
                            &&& hash == forwarding.subject().hash
                            &&& channel_log(self.subblock_channel()).contains(
                                forwarding.subject()@,
                            )
                        },
                        ForwardStep::Done(Err(error)) => {
                            &&& is_channel_error(Err::<B256, ForwardError<E>>(error))
                            &&& error is SubblockChannel
                            &&& error->SubblockChannel_0@
                                == "subblocks service channel error: channel closed"@
                            &&& channel_refused(self.subblock_channel()).contains(
                                forwarding.subject()@,
                            )
                            &&& forwarding.failures() + 1 >= MAX_ATTEMPTS
                            &&& forwarding.failures() >= 4
                        },
                        ForwardStep::Retry { next, delay_ms, cause } => {
                            &&& is_channel_error(Err::<B256, ForwardError<E>>(cause))
                            &&& cause is SubblockChannel
                            &&& cause->SubblockChannel_0@
                                == "subblocks service channel error: channel closed"@
                            &&& channel_refused(self.subblock_channel()).contains(
                                forwarding.subject()@,
                            )
                            &&& forwarding.retried_as(Err::<B256, ForwardError<E>>(cause), next)
                            &&& forwarding.failures() < 4
                            &&& next.subject() == forwarding.subject()
                            &&& next.failures() == forwarding.failures() + 1
                            &&& delay_ms == retry_delay_ms(forwarding.failures() + 1)
                            &&& delay_ms == 100 * pow2(forwarding.failures() + 1)
                        },
                    }
                },
            },
        opens_invariants none
    {
        match forwarding.route() {
            Route::Subblock => {
                let (transaction, permit, remainder) = forwarding.release();
                Attempt::Made(
                    match self.send_to_subblocks(transaction, permit) {
                        Ok(hash) => ForwardStep::Done(Ok(hash)),
                        Err((cause, transaction)) => remainder.on_refusal(transaction, cause),
                    },
                )
            },
            Route::Pool => Attempt::Pool(forwarding),
        }
    }
}

impl<A: Clone> Clone for TempoEthApi<A> {
    /// Another handle to the same API: it sends on the same channel.
    fn clone(&self) -> (copy: Self)
        ensures
            cloned(self.handlers(), copy.handlers()),
            copy.subblock_channel() == self.subblock_channel(),
    {
        TempoEthApi {
            inner: self.inner.clone(),
            subblock_transactions_tx: clone_sender(&self.subblock_transactions_tx),
        }
    }
}

/// What is said of the transactions of an API is said of its channel: what it logs is what the
/// channel takes in, what it counts as refused is what the channel hands back, and it keeps as many
/// as the channel does.
pub proof fn law_api_speaks_of_its_channel<A>(api: TempoEthApi<A>)
    ensures
        api.subblock_log() == channel_log(api.subblock_channel()),
        api.subblock_refused() == channel_refused(api.subblock_channel()),
        api.subblock_backlog() == channel_backlog(api.subblock_channel()),
{
}

/// Handles that share a channel, such as an API and its clone, are the same to subscribers: what
/// either of them sends with success is taken in by the channel that the subscription reads, and
/// what the subscription yields was taken in by the channel on which both of them send.
pub proof fn law_handles_are_heard_alike<A, B>(
    api: TempoEthApi<A>,
    other: TempoEthApi<B>,
    rx: broadcast::Receiver<RecoveredTransaction>,
)
    requires
        other.subblock_channel() == api.subblock_channel(),
        receiver_channel(rx) == api.subblock_channel(),
        receiver_feed(rx).is_suffix_of(api.subblock_log()),
    ensures
        other.subblock_log() == channel_log(receiver_channel(rx)),
        other.subblock_log() == api.subblock_log(),
        other.subblock_refused() == api.subblock_refused(),
        other.subblock_backlog() == api.subblock_backlog(),
        forall|i: int|
            0 <= i < receiver_feed(rx).len() ==> other.subblock_log().contains(
                #[trigger] receiver_feed(rx)[i],
            ),
{
    let log = api.subblock_log();
    let feed = receiver_feed(rx);
    assert forall|i: int| 0 <= i < feed.len() implies log.contains(#[trigger] feed[i]) by {
        assert(feed[i] == log[log.len() - feed.len() + i]);
    }
}

/// Subscriptions do not get in each other's way: of two on one channel, the one that yields fewer
/// transactions yields exactly the last of what the other does, in the same order.
pub proof fn law_subscriptions_agree<A>(
    api: TempoEthApi<A>,
    one: broadcast::Receiver<RecoveredTransaction>,
    other: broadcast::Receiver<RecoveredTransaction>,
)
    requires
        receiver_feed(one).is_suffix_of(api.subblock_log()),
        receiver_feed(other).is_suffix_of(api.subblock_log()),
        receiver_feed(one).len() <= receiver_feed(other).len(),
    ensures
        receiver_feed(one).is_suffix_of(receiver_feed(other)),
{
    let log = api.subblock_log();
    let less = receiver_feed(one);
    let more = receiver_feed(other);
    assert(less =~= more.subrange(more.len() - less.len(), more.len() as int)) by {
        assert forall|i: int| 0 <= i < less.len() implies less[i] == #[trigger] more[more.len()
            - less.len() + i] by {
            assert(less[i] == log[log.len() - less.len() + i]);
        }
    }
}

/// Puts the API together.
#[derive(Debug, Default)]
pub struct TempoEthApiBuilder;

impl TempoEthApiBuilder {
    /// The fee that the gas oracle suggests where it has nothing to go by: zero.
    pub fn default_suggested_fee(&self) -> (fee: Option<U256>)
        ensures
            fee is Some,
            fee->0@ == 0,
            forall|i: int| 0 <= i < 4 ==> #[trigger] fee->0.limbs@[i] == 0,
        opens_invariants none
    {
        Some(U256::zero())
    }

    /// The API over handlers that were set up with this builder's settings.
    pub fn build_eth_api<A>(self, eth_api: A) -> (api: TempoEthApi<A>)
        ensures
            api.handlers() == eth_api,
            api.subblock_backlog() == 128,
            channel_backlog(api.subblock_channel()) == 128,
        opens_invariants none
    {
        TempoEthApi::new(eth_api)
    }
}

} // verus!
