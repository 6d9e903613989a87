//! Handing a submitted transaction on, with retries.
//!
//! A transaction goes either to the subblocks service or to the transaction pool. A send that
//! fails is tried again after a delay that doubles each time, until the last permitted attempt.
//! Sending and waiting happen outside; `Forwarding` decides what comes next.

use tokio::sync::broadcast::error::SendError;
use vstd::arithmetic::power2::pow2;
use vstd::prelude::*;

use crate::channel::send_error_text;
use crate::primitives::B256;
use crate::transaction::{RecoveredTransaction, TransactionView};

verus! {

/// How often a transaction is sent at most.
pub const MAX_ATTEMPTS: u32 = 5;

/// The unit of the delays between attempts, in milliseconds.
pub const BASE_DELAY_MS: u64 = 100;

/// The delay after the given number of failed attempts, in milliseconds.
pub open spec fn retry_delay_ms(failures: nat) -> nat {
    BASE_DELAY_MS as nat * pow2(failures)
}

/// The name under which forwardings are started. No invariant bears it. It keeps apart who may
/// start a forwarding: an attempt opens no invariant under any name, so it cannot start another
/// one, and what may open this one only can still neither copy nor make a transaction.
pub open spec fn starting() -> int {
    0
}

/// Where a transaction is sent.
#[derive(Clone, Copy, Debug, PartialEq, Eq, Structural)]
pub enum Route {
    /// To the subblocks service.
    Subblock,
    /// To the transaction pool.
    Pool,
}

/// Where a transaction is sent, at every attempt: to the subblocks service exactly where it names a
/// subblock proposer.
pub open spec fn route_of(transaction: TransactionView) -> Route {
    if transaction.subblock_proposer is Some {
        Route::Subblock
    } else {
        Route::Pool
    }
}

/// Why a transaction could not be sent.
#[derive(Debug, PartialEq, Eq)]
pub enum ForwardError<E> {
    /// The subblocks service did not take it; the text says why.
    SubblockChannel(String),
    /// The transaction pool did not take it.
    Pool(E),
}

/// What follows an attempt.
pub enum Decision<E> {
    /// Give this back to the submitter.
    Finish(Result<B256, E>),
    /// Wait for so many milliseconds and send again.
    WaitThenRetry(nat),
}

/// What follows an attempt that came after `failures` failed ones. Success ends the forwarding, and
/// so does the failure of the last permitted attempt; any other failure is waited out.
pub open spec fn decide<E>(failures: nat, outcome: Result<B256, E>) -> Decision<E> {
    if outcome is Ok || failures + 1 >= MAX_ATTEMPTS {
        Decision::Finish(outcome)
    } else {
        Decision::WaitThenRetry(retry_delay_ms(failures + 1))
    }
}

/// A transaction on its way.
#[derive(Debug)]
pub struct Forwarding {
    transaction: RecoveredTransaction,
    attempts: u32,
}

/// The right to send once. It is given out with the transaction of a forwarding, and there is no
/// other way to come by one.
pub(crate) struct Permit(());

/// What is left of a forwarding while its transaction is out of its hands.
pub(crate) struct Remainder {
    attempts: u32,
}

/// What to do after an attempt.
#[derive(Debug)]
pub enum ForwardStep<E> {
    /// Give this back to the submitter.
    Done(Result<B256, E>),
    /// Wait for `delay_ms` milliseconds and send again, since the attempt failed for `cause`.
    Retry { next: Forwarding, delay_ms: u64, cause: E },
}

/// What became of the next attempt.
#[derive(Debug)]
pub enum Attempt<E> {
    /// It is the transaction pool's to make.
    Pool(Forwarding),
    /// It was made at the subblocks service, and this follows.
    Made(ForwardStep<ForwardError<E>>),
}

impl Forwarding {
    #[verifier::type_invariant]
    spec fn attempts_remain(self) -> bool {
        self.attempts < MAX_ATTEMPTS
    }

    /// The transaction that is being forwarded.
    pub closed spec fn subject(self) -> RecoveredTransaction {
        self.transaction
    }

    /// How many attempts have failed so far.
    pub closed spec fn failures(self) -> nat {
        self.attempts as nat
    }

    /// Whether `next` is what remains to be done after an attempt with this outcome failed and is
    /// to be repeated.
    pub open spec fn retried_as<E>(self, outcome: Result<B256, E>, next: Forwarding) -> bool {
        &&& decide(self.failures(), outcome) is WaitThenRetry
        &&& next.subject() == self.subject()
        &&& next.failures() == self.failures() + 1
    }

    /// Starts forwarding a transaction.
    pub fn start(transaction: RecoveredTransaction) -> (forwarding: Forwarding)
        ensures
            forwarding.subject() == transaction,
            forwarding.failures() == 0,
        opens_invariants [starting()]
    {
        Forwarding { transaction, attempts: 0 }
    }

    /// The transaction that is being forwarded.
    pub fn transaction(&self) -> (transaction: &RecoveredTransaction)
        ensures
            *transaction == self.subject(),
        opens_invariants none
    {
        &self.transaction
    }

    /// Where the next attempt goes.
    pub fn route(&self) -> (route: Route)
        ensures
            route == route_of(self.subject()@),
            route == Route::Subblock <==> self.subject().subblock_proposer is Some,
            route == Route::Pool <==> self.subject().subblock_proposer is None,
        opens_invariants none
    {
        match &self.transaction.subblock_proposer {
            Some(_) => Route::Subblock,
            None => Route::Pool,
        }
    }

    /// Takes the transaction out, to be sent once.
    pub(crate) fn release(self) -> (released: (RecoveredTransaction, Permit, Remainder))
        ensures
            released.0 == self.subject(),
            released.2.failures() == self.failures(),
        opens_invariants none
    {
        proof {
            use_type_invariant(&self);
        }
        (self.transaction, Permit(()), Remainder { attempts: self.attempts })
    }

    /// Takes the outcome of an attempt. A success is given back as it is, and so is the failure of
    /// the fifth attempt; after any other failure the same transaction is sent again, once the
    /// delay is over.
    pub fn on_outcome<E>(self, outcome: Result<B256, E>) -> (step: ForwardStep<E>)
        ensures
            match decide(self.failures(), outcome) {
                Decision::Finish(result) => step == ForwardStep::Done(result),
                Decision::WaitThenRetry(milliseconds) => match step {
                    ForwardStep::Done(_) => false,
                    ForwardStep::Retry { next, delay_ms, cause } => {
                        &&& self.retried_as(outcome, next)
                        &&& delay_ms == milliseconds
                        &&& outcome == Err::<B256, E>(cause)
                    },
                },
            },
            match (step, outcome) {
                (ForwardStep::Done(Ok(answer)), Ok(hash)) => answer == hash,
                (ForwardStep::Done(Err(answer)), Err(error)) => answer == error
                    && self.failures() >= 4,
                (ForwardStep::Retry { next, delay_ms, cause }, Err(error)) => {
                    &&& cause == error
                    &&& self.failures() < 4
                    &&& next.subject() == self.subject()
                    &&& next.failures() == self.failures() + 1
                    &&& delay_ms == 100 * pow2(self.failures() + 1)
                },
                _ => false,
            },
        opens_invariants none
    {
        proof {
            use_type_invariant(&self);
        }
        match outcome {
            Ok(hash) => ForwardStep::Done(Ok(hash)),
            Err(cause) => {
                let attempts: u32 = self.attempts + 1;
                if attempts >= MAX_ATTEMPTS {
                    return ForwardStep::Done(Err(cause));
                }
                proof {
                    vstd::arithmetic::power2::lemma2_to64();
                    assert(1u64 << 1u32 == 2 && 1u64 << 2u32 == 4 && 1u64 << 3u32 == 8 && 1u64
                        << 4u32 == 16) by (bit_vector);
                }
                let delay_ms: u64 = BASE_DELAY_MS * (1u64 << attempts);
                let next = Forwarding { transaction: self.transaction, attempts };
                ForwardStep::Retry { next, delay_ms, cause }
            },
        }
    }
}

impl Remainder {
    #[verifier::type_invariant]
    spec fn attempts_remain(self) -> bool {
        self.attempts < MAX_ATTEMPTS
    }

    /// How many attempts have failed so far.
    pub(crate) closed spec fn failures(self) -> nat {
        self.attempts as nat
    }

    /// Takes back the transaction that was taken out, since sending it failed for `cause`. That was
    /// an attempt, and it counts as one: there is no way back to the forwarding as it was before.
    pub(crate) fn on_refusal<E>(self, transaction: RecoveredTransaction, cause: E) -> (step:
        ForwardStep<E>)
        ensures
            match step {
                ForwardStep::Done(answer) => answer == Err::<B256, E>(cause) && self.failures()
                    >= 4,
                ForwardStep::Retry { next, delay_ms, cause: reason } => {
                    &&& reason == cause
                    &&& self.failures() < 4
                    &&& next.subject() == transaction
                    &&& next.failures() == self.failures() + 1
                    &&& delay_ms == 100 * pow2(self.failures() + 1)
                },
            },
        opens_invariants none
    {
        proof {
            use_type_invariant(&self);
        }
        let forwarding = Forwarding { transaction, attempts: self.attempts };
        forwarding.on_outcome(Err(cause))
    }
}

/// The error of a channel, under a heading.
pub(crate) fn channel_error<E>(error: &SendError<RecoveredTransaction>) -> (cause: ForwardError<E>)
    ensures
        is_channel_error(Err::<B256, ForwardError<E>>(cause)),
        match cause {
            ForwardError::SubblockChannel(text) => text@
                == "subblocks service channel error: channel closed"@,
            ForwardError::Pool(_) => false,
        },
    opens_invariants none
{
    proof {
        lemma_channel_error_text();
    }
    ForwardError::SubblockChannel(send_error_text("subblocks service channel error: ", error))
}

/// The text of a channel's error is the heading with what the channel says behind it.
proof fn lemma_channel_error_text()
    ensures
        "subblocks service channel error: channel closed"@ == "subblocks service channel error: "@
            + "channel closed"@,
{
    reveal_strlit("subblocks service channel error: channel closed");
    reveal_strlit("subblocks service channel error: ");
    reveal_strlit("channel closed");
    assert("subblocks service channel error: channel closed"@
        =~= "subblocks service channel error: "@ + "channel closed"@);
}

/// The outcome of an attempt at the subblocks service, from what its channel said: the hash of the
/// transaction, or the channel's own error under a heading.
pub fn subblock_outcome<E>(
    sent: Result<usize, SendError<RecoveredTransaction>>,
    tx_hash: B256,
) -> (outcome: Result<B256, ForwardError<E>>)
    ensures
        sent is Ok ==> outcome == Ok::<B256, ForwardError<E>>(tx_hash),
        sent is Err ==> is_channel_error(outcome),
        sent is Err ==> match outcome {
            Err(ForwardError::SubblockChannel(text)) => text@
                == "subblocks service channel error: channel closed"@,
            _ => false,
        },
    opens_invariants none
{
    match sent {
        Ok(_) => Ok(tx_hash),
        Err(error) => Err(channel_error(&error)),
    }
}

/// Whether an outcome is the failure that a channel without subscriptions gives.
pub open spec fn is_channel_error<E>(outcome: Result<B256, ForwardError<E>>) -> bool {
    match outcome {
        Err(ForwardError::SubblockChannel(text)) => text@ == "subblocks service channel error: "@
            + "channel closed"@,
        _ => false,
    }
}

/// The outcome of an attempt at the transaction pool, from what the pool said.
pub fn pool_outcome<E>(added: Result<B256, E>) -> (outcome: Result<B256, ForwardError<E>>)
    ensures
        match added {
            Ok(hash) => outcome == Ok::<B256, ForwardError<E>>(hash),
            Err(error) => outcome == Err::<B256, ForwardError<E>>(ForwardError::Pool(error)),
        },
{
    match added {
        Ok(hash) => Ok(hash),
        Err(error) => Err(ForwardError::Pool(error)),
    }
}

/// A transaction goes to the subblocks service if and only if it names a subblock proposer. Nothing
/// else counts: not what the proposer's key holds nor how long it is, and nothing about the rest of
/// the transaction.
pub proof fn law_proposer_decides_the_route(
    transaction: RecoveredTransaction,
    other: RecoveredTransaction,
)
    ensures
        route_of(transaction@) == Route::Subblock <==> transaction.subblock_proposer is Some,
        route_of(transaction@) == Route::Pool <==> transaction.subblock_proposer is None,
        route_of(transaction@) == route_of(other@) <==> (transaction.subblock_proposer is Some
            <==> other.subblock_proposer is Some),
{
}

/// A success is final at every attempt. A failure is final at the fifth attempt and at no earlier
/// one, and what is final is handed on unchanged. Any other failure is waited out for 100
/// milliseconds, doubled once for each failure so far.
pub proof fn law_what_follows_an_attempt<E>(failures: nat, outcome: Result<B256, E>)
    ensures
        decide(failures, outcome) is Finish <==> outcome is Ok || failures >= 4,
        decide(failures, outcome) matches Decision::Finish(result) ==> result == outcome,
        decide(failures, outcome) matches Decision::WaitThenRetry(milliseconds) ==> milliseconds
            == 100 * pow2(failures + 1),
{
}

/// What is tried again is the transaction that failed, with one more failure to its name, and it is
/// tried again only if it failed and was not at its fifth attempt.
pub proof fn law_only_failures_are_retried<E>(
    forwarding: Forwarding,
    outcome: Result<B256, E>,
    next: Forwarding,
)
    ensures
        forwarding.retried_as(outcome, next) <==> outcome is Err && forwarding.failures() < 4
            && next.subject() == forwarding.subject() && next.failures() == forwarding.failures()
            + 1,
{
}

/// An outcome is a channel's error if and only if it is a failure of the subblocks service with the
/// one text that such a failure has.
pub proof fn law_channel_error_has_one_text<E>(outcome: Result<B256, ForwardError<E>>)
    ensures
        is_channel_error(outcome) <==> outcome is Err && outcome->Err_0 is SubblockChannel
            && outcome->Err_0->SubblockChannel_0@
            == "subblocks service channel error: channel closed"@,
{
    lemma_channel_error_text();
}

/// A forwarding from its first attempt to its end.
pub struct Run<E> {
    /// What the submitter gets.
    pub result: Result<B256, E>,
    /// How many attempts were made.
    pub attempts: nat,
    /// How long was waited between them, in milliseconds.
    pub waited_ms: nat,
}

/// What is left of a forwarding after `failures` failed attempts, where `outcome_of(i)` is the
/// outcome of the attempt that comes after `i` others.
pub open spec fn run<E>(failures: nat, outcome_of: spec_fn(nat) -> Result<B256, E>) -> Run<E>
    decreases MAX_ATTEMPTS - failures,
{
    match decide(failures, outcome_of(failures)) {
        Decision::Finish(result) => Run { result, attempts: 1, waited_ms: 0 },
        Decision::WaitThenRetry(milliseconds) => {
            let rest = run(failures + 1, outcome_of);
            Run {
                result: rest.result,
                attempts: rest.attempts + 1,
                waited_ms: rest.waited_ms + milliseconds,
            }
        },
    }
}

/// From `failures` failed attempts on, the attempt after `last` others is the final one if all
/// before it fail and it either succeeds or is the last permitted one.
proof fn lemma_run<E>(failures: nat, last: nat, outcome_of: spec_fn(nat) -> Result<B256, E>)
    requires
        failures <= last < MAX_ATTEMPTS,
        forall|i: nat| failures <= i < last ==> #[trigger] outcome_of(i) is Err,
        outcome_of(last) is Ok || last + 1 == MAX_ATTEMPTS,
    ensures
        run(failures, outcome_of).result == outcome_of(last),
        run(failures, outcome_of).attempts == last - failures + 1,
        run(failures, outcome_of).waited_ms == BASE_DELAY_MS * (pow2(last + 1) - pow2(
            failures + 1,
        )),
    decreases last - failures,
{
    vstd::arithmetic::power2::lemma2_to64();
    if failures < last {
        assert(outcome_of(failures) is Err);
        lemma_run(failures + 1, last, outcome_of);
        vstd::arithmetic::power2::lemma_pow2_unfold(failures + 2);
    }
}

/// From `failures` failed attempts on there is a last one: all before it fail, and it either
/// succeeds or is the last permitted one.
proof fn lemma_last_attempt<E>(
    failures: nat,
    outcome_of: spec_fn(nat) -> Result<B256, E>,
) -> (last: nat)
    requires
        failures < MAX_ATTEMPTS,
    ensures
        failures <= last < MAX_ATTEMPTS,
        forall|i: nat| failures <= i < last ==> #[trigger] outcome_of(i) is Err,
        outcome_of(last) is Ok || last + 1 == MAX_ATTEMPTS,
    decreases MAX_ATTEMPTS - failures,
{
    if outcome_of(failures) is Ok || failures + 1 == MAX_ATTEMPTS {
        failures
    } else {
        lemma_last_attempt(failures + 1, outcome_of)
    }
}

/// The first attempt that succeeds is the last one made, and its hash is what the submitter gets.
/// Before it the delays of all failed attempts were waited out.
pub proof fn law_first_success_is_returned<E>(
    earlier: nat,
    outcome_of: spec_fn(nat) -> Result<B256, E>,
)
    requires
        earlier < MAX_ATTEMPTS,
        forall|i: nat| i < earlier ==> #[trigger] outcome_of(i) is Err,
        outcome_of(earlier) is Ok,
    ensures
        run(0, outcome_of).result == outcome_of(earlier),
        run(0, outcome_of).attempts == earlier + 1,
        run(0, outcome_of).waited_ms == BASE_DELAY_MS * (pow2(earlier + 1) - 2),
{
    lemma_run(0, earlier, outcome_of);
    vstd::arithmetic::power2::lemma2_to64();
}

/// Where every attempt fails, all permitted attempts are made, and the submitter gets the error of
/// the last one.
pub proof fn law_last_failure_is_returned<E>(outcome_of: spec_fn(nat) -> Result<B256, E>)
    requires
        forall|i: nat| i < MAX_ATTEMPTS ==> #[trigger] outcome_of(i) is Err,
    ensures
        run(0, outcome_of).result == outcome_of((MAX_ATTEMPTS - 1) as nat),
        run(0, outcome_of).attempts == MAX_ATTEMPTS,
        run(0, outcome_of).waited_ms == 3000,
{
    lemma_run(0, (MAX_ATTEMPTS - 1) as nat, outcome_of);
    vstd::arithmetic::power2::lemma2_to64();
}

/// Whatever happens, between one and `MAX_ATTEMPTS` attempts are made, no more than three seconds
/// are spent waiting, and the submitter gets the outcome of the last attempt made, so no failure
/// is ever replaced by another.
pub proof fn law_forwarding_is_bounded<E>(outcome_of: spec_fn(nat) -> Result<B256, E>)
    ensures
        1 <= run(0, outcome_of).attempts <= MAX_ATTEMPTS,
        run(0, outcome_of).waited_ms <= 3000,
        run(0, outcome_of).result == outcome_of((run(0, outcome_of).attempts - 1) as nat),
{
    vstd::arithmetic::power2::lemma2_to64();
    let last = lemma_last_attempt(0, outcome_of);
    lemma_run(0, last, outcome_of);
}

/// A transaction for the subblocks service is answered with its own hash once the service takes it,
/// and with the channel's error where it never does.
pub proof fn law_subblock_answer<E>(
    tx_hash: B256,
    outcome_of: spec_fn(nat) -> Result<B256, ForwardError<E>>,
)
    requires
        forall|i: nat|
            i < MAX_ATTEMPTS ==> #[trigger] outcome_of(i) == Ok::<B256, ForwardError<E>>(tx_hash)
                || is_channel_error(outcome_of(i)),
    ensures
        ({
            let answer = run(0, outcome_of).result;
            if exists|i: nat| i < MAX_ATTEMPTS && #[trigger] outcome_of(i) is Ok {
                answer == Ok::<B256, ForwardError<E>>(tx_hash)
            } else {
                is_channel_error(answer)
            }
        }),
{
    let last = lemma_last_attempt(0, outcome_of);
    lemma_run(0, last, outcome_of);
}

/// Whether each of these is what remained to be done when the one before it failed, where
/// `outcome_of(i)` is the outcome of the attempt made at position `i`.
pub open spec fn is_chain<E>(
    attempts: Seq<Forwarding>,
    outcome_of: spec_fn(nat) -> Result<B256, E>,
) -> bool {
    forall|i: int|
        #![trigger attempts[i]]
        0 <= i < attempts.len() - 1 ==> attempts[i].retried_as(
            outcome_of(i as nat),
            attempts[i + 1],
        )
}

/// A failure never changes what is sent or where: however often a transaction is tried again, every
/// attempt is made with the transaction that was submitted and takes the route that this
/// transaction alone decides.
pub proof fn law_retries_keep_the_route<E>(
    attempts: Seq<Forwarding>,
    outcome_of: spec_fn(nat) -> Result<B256, E>,
)
    requires
        is_chain(attempts, outcome_of),
    ensures
        forall|i: int|
            0 <= i < attempts.len() ==> {
                &&& (#[trigger] attempts[i]).subject() == attempts[0].subject()
                &&& route_of(attempts[i].subject()@) == route_of(attempts[0].subject()@)
                &&& attempts[i].failures() == attempts[0].failures() + i
            },
    decreases attempts.len(),
{
    if attempts.len() > 1 {
        let earlier = attempts.drop_last();
        assert(is_chain(earlier, outcome_of)) by {
            assert forall|i: int|
                #![trigger earlier[i]]
                0 <= i < earlier.len() - 1 implies earlier[i].retried_as(
                outcome_of(i as nat),
                earlier[i + 1],
            ) by {
                assert(attempts[i].retried_as(outcome_of(i as nat), attempts[i + 1]));
            }
        }
        law_retries_keep_the_route(earlier, outcome_of);
        let last = attempts.len() - 1;
        assert(attempts[last - 1].retried_as(outcome_of((last - 1) as nat), attempts[last]));
        assert forall|i: int| 0 <= i < attempts.len() implies {
            &&& (#[trigger] attempts[i]).subject() == attempts[0].subject()
            &&& route_of(attempts[i].subject()@) == route_of(attempts[0].subject()@)
            &&& attempts[i].failures() == attempts[0].failures() + i
        } by {
            if i < last {
                assert(earlier[i] == attempts[i]);
            } else {
                assert(earlier[last - 1] == attempts[last - 1]);
            }
        }
    }
}

/// A forwarding that is driven step by step goes as `run` says: where its attempts start without a
/// failure, each follows from the one before, and the outcome of the last one ends it, the
/// submitter gets the result of the run, after as many attempts and as much waiting.
pub proof fn law_steps_make_a_run<E>(
    attempts: Seq<Forwarding>,
    outcome_of: spec_fn(nat) -> Result<B256, E>,
)
    requires
        attempts.len() > 0,
        attempts[0].failures() == 0,
        is_chain(attempts, outcome_of),
        decide(attempts.last().failures(), outcome_of((attempts.len() - 1) as nat)) is Finish,
    ensures
        decide(attempts.last().failures(), outcome_of((attempts.len() - 1) as nat))
            == Decision::Finish(run(0, outcome_of).result),
        run(0, outcome_of).attempts == attempts.len(),
        run(0, outcome_of).waited_ms == BASE_DELAY_MS * (pow2(attempts.len()) - 2),
{
    let last = (attempts.len() - 1) as nat;
    law_retries_keep_the_route(attempts, outcome_of);
    assert forall|i: nat| i < last implies #[trigger] outcome_of(i) is Err by {
        assert(attempts[i as int].retried_as(outcome_of(i), attempts[i as int + 1]));
    }
    if last > 0 {
        assert(attempts[last - 1].retried_as(outcome_of((last - 1) as nat), attempts[last as int]));
    }
    lemma_run(0, last, outcome_of);
    vstd::arithmetic::power2::lemma2_to64();
}

/// Each delay is twice the one before it.
pub proof fn law_delays_double(failures: nat)
    ensures
        retry_delay_ms(failures + 1) == 2 * retry_delay_ms(failures),
{
    vstd::arithmetic::power2::lemma_pow2_unfold(failures + 1);
}

} // verus!
