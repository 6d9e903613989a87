//! The broadcast channel that carries transactions to the subblocks service.

use tokio::sync::broadcast;
use tokio::sync::broadcast::error::SendError;
use vstd::arithmetic::power2::pow2;
use vstd::prelude::*;

use crate::forward::Permit;
use crate::transaction::{RecoveredTransaction, TransactionView};

verus! {

/// The sending half of a broadcast channel.
#[verifier::external_type_specification]
#[verifier::external_body]
#[verifier::reject_recursive_types(T)]
pub struct ExSender<T>(broadcast::Sender<T>);

/// A subscription to a broadcast channel.
#[verifier::external_type_specification]
#[verifier::external_body]
#[verifier::reject_recursive_types(T)]
pub struct ExReceiver<T>(broadcast::Receiver<T>);

/// The error of a send that no subscription was there to take. It holds what was to be sent.
#[verifier::external_type_specification]
#[verifier::reject_recursive_types(T)]
pub struct ExSendError<T>(SendError<T>);

/// Which channel a sending half belongs to.
pub uninterp spec fn sender_channel(tx: broadcast::Sender<RecoveredTransaction>) -> int;

/// Which channel a subscription reads.
pub uninterp spec fn receiver_channel(rx: broadcast::Receiver<RecoveredTransaction>) -> int;

/// The transactions that a channel takes in over its whole life, in the order in which it does.
pub uninterp spec fn channel_log(channel: int) -> Seq<TransactionView>;

/// The transactions that a channel hands back over its whole life.
pub uninterp spec fn channel_refused(channel: int) -> Set<TransactionView>;

/// How many transactions a channel keeps for a subscription that has not read them yet.
pub uninterp spec fn channel_backlog(channel: int) -> nat;

/// The transactions that a subscription yields, in order, as long as it never falls further behind
/// than its channel keeps them.
pub uninterp spec fn receiver_feed(rx: broadcast::Receiver<RecoveredTransaction>) -> Seq<
    TransactionView,
>;

/// The smallest power of two that is not below `n`.
pub open spec fn next_power_of_two(n: nat) -> nat
    decreases n,
{
    if n <= 1 {
        1
    } else {
        2 * next_power_of_two(((n + 1) / 2) as nat)
    }
}

/// A channel keeps no fewer transactions than it was asked to and fewer than twice as many, and
/// their number is a power of two.
pub proof fn law_backlog_is_rounded_up(n: nat)
    requires
        n >= 1,
    ensures
        n <= next_power_of_two(n) < 2 * n,
        exists|exponent: nat| next_power_of_two(n) == pow2(exponent),
    decreases n,
{
    if n == 1 {
        vstd::arithmetic::power2::lemma2_to64();
        assert(next_power_of_two(n) == pow2(0));
    } else {
        let half = ((n + 1) / 2) as nat;
        law_backlog_is_rounded_up(half);
        let exponent = choose|exponent: nat| next_power_of_two(half) == pow2(exponent);
        vstd::arithmetic::power2::lemma_pow2_unfold(exponent + 1);
        assert(next_power_of_two(n) == pow2(exponent + 1));
        // A power of two above one is even, so it is no odd `n`.
        if exponent == 0 {
            vstd::arithmetic::power2::lemma2_to64();
        } else {
            vstd::arithmetic::power2::lemma_pow2_unfold(exponent);
        }
    }
}

/// `tokio::sync::broadcast::channel`, of which only the sending half is kept: a channel that keeps
/// as many messages as the requested capacity rounded up to a power of two. That the channel is
/// none of those opened before is not stated: it is a fact about them all. It panics on a capacity
/// of zero or above `usize::MAX / 2`.
#[verifier::external_body]
pub(crate) fn open_channel(capacity: usize) -> (tx: broadcast::Sender<RecoveredTransaction>)
    requires
        0 < capacity <= usize::MAX / 2,
    ensures
        channel_backlog(sender_channel(tx)) == next_power_of_two(capacity as nat),
    opens_invariants none
{
    broadcast::channel(capacity).0
}

/// `tokio::sync::broadcast::Sender::subscribe`: a subscription to the channel that the sending half
/// belongs to. From some point on it yields everything that the channel takes in, in that order and
/// nothing else. That this point is the moment of the call is not stated: how much a channel has
/// taken in by then lies behind the shared reference. It panics only beyond `usize::MAX / 4` live
/// subscriptions.
#[verifier::external_body]
pub(crate) fn subscribe(tx: &broadcast::Sender<RecoveredTransaction>) -> (rx: broadcast::Receiver<
    RecoveredTransaction,
>)
    ensures
        receiver_channel(rx) == sender_channel(*tx),
        receiver_feed(rx).is_suffix_of(channel_log(sender_channel(*tx))),
    opens_invariants none
{
    tx.subscribe()
}

/// `tokio::sync::broadcast::Sender::clone`: another sending half of the same channel.
#[verifier::external_body]
pub(crate) fn clone_sender(tx: &broadcast::Sender<RecoveredTransaction>) -> (copy:
    broadcast::Sender<RecoveredTransaction>)
    ensures
        sender_channel(copy) == sender_channel(*tx),
{
    tx.clone()
}

/// `tokio::sync::broadcast::Sender::send`: on success the channel took the transaction in, and the
/// number of live subscriptions, at least one, is returned; on failure it handed the transaction
/// back, which is then inside the error. It fails where there is no live subscription; that is not
/// stated, since subscriptions come and go elsewhere. The channel would take any transaction, and
/// any number of them: that only those with a subblock proposer are sent, and each with a permit
/// that is used up, is asked of the callers.
#[verifier::external_body]
pub(crate) fn send(
    tx: &broadcast::Sender<RecoveredTransaction>,
    transaction: RecoveredTransaction,
    _permit: Permit,
) -> (sent: Result<usize, SendError<RecoveredTransaction>>)
    requires
        transaction@.subblock_proposer is Some,
    ensures
        sent matches Ok(count) ==> count >= 1 && channel_log(sender_channel(*tx)).contains(
            transaction@,
        ),
        sent matches Err(error) ==> error.0 == transaction && channel_refused(
            sender_channel(*tx),
        ).contains(transaction@),
    opens_invariants none
{
    tx.send(transaction)
}

/// The `Display` text of `tokio::sync::broadcast::error::SendError`, which is always
/// `channel closed`, behind the given heading.
#[verifier::external_body]
pub(crate) fn send_error_text(heading: &str, error: &SendError<RecoveredTransaction>) -> (text:
    String)
    ensures
        text@ == heading@ + "channel closed"@,
    opens_invariants none
{
    format!("{}{}", heading, error)
}

} // verus!
