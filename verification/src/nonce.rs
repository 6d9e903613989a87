//! Filling in the nonce of a call request before its environment is built.
//!
//! A request may name a nonce key, under which the sender's nonces are counted apart from the
//! protocol nonce. Where it names one but gives no nonce, the stored one is read first.

use vstd::prelude::*;

use crate::primitives::{at_most, Address, U256, ZERO_ADDRESS};

verus! {

/// A call request. `body` holds everything that is passed on as it is.
#[derive(Debug, PartialEq, Eq)]
pub struct TempoTransactionRequest<R> {
    /// The sender.
    pub from: Option<Address>,
    /// The nonce to use.
    pub nonce: Option<u64>,
    /// The key under which the nonce is counted.
    pub nonce_key: Option<U256>,
    /// The rest of the request.
    pub body: R,
}

/// What to do next with a request.
#[derive(Debug, PartialEq, Eq)]
pub enum TxnEnvStep<R> {
    /// Build the environment of this request.
    Build(TempoTransactionRequest<R>),
    /// Read the stored nonce first.
    ReadNonce(NonceLookup<R>),
}

/// Asks for the nonce stored for `account` under `nonce_key`, on behalf of `request`.
#[derive(Debug, PartialEq, Eq)]
pub struct NonceLookup<R> {
    pub account: Address,
    pub nonce_key: U256,
    pub request: TempoTransactionRequest<R>,
}

impl<R> TempoTransactionRequest<R> {
    /// Whether the stored nonce is needed: a key other than zero is named and no nonce is given.
    pub open spec fn needs_nonce(self) -> bool {
        self.nonce is None && self.nonce_key is Some && self.nonce_key->0@ != 0
    }

    /// The account whose nonce is meant: the sender, or the zero address where none is given.
    pub open spec fn nonce_account(self) -> Address {
        match self.from {
            Some(from) => from,
            None => ZERO_ADDRESS,
        }
    }

    /// The request with its nonce set, and nothing else changed.
    pub open spec fn with_nonce(self, nonce: u64) -> TempoTransactionRequest<R> {
        TempoTransactionRequest {
            from: self.from,
            nonce: Some(nonce),
            nonce_key: self.nonce_key,
            body: self.body,
        }
    }

    /// What to do with this request.
    pub open spec fn step(self) -> TxnEnvStep<R> {
        if self.needs_nonce() {
            TxnEnvStep::ReadNonce(
                NonceLookup {
                    account: self.nonce_account(),
                    nonce_key: self.nonce_key->0,
                    request: self,
                },
            )
        } else {
            TxnEnvStep::Build(self)
        }
    }

    /// Decides whether the request can be built as it is or needs its stored nonce.
    pub fn into_step(self) -> (step: TxnEnvStep<R>)
        ensures
            step == self.step(),
            step is ReadNonce <==> self.nonce is None && self.nonce_key is Some
                && self.nonce_key->0@ != 0,
            match step {
                TxnEnvStep::Build(request) => request == self,
                TxnEnvStep::ReadNonce(lookup) => {
                    &&& self.from matches Some(sender) ==> lookup.account == sender
                    &&& self.from is None ==> forall|i: int|
                        0 <= i < 20 ==> #[trigger] lookup.account@[i] == 0
                    &&& self.nonce_key == Some(lookup.nonce_key)
                    &&& lookup.request == self
                },
            },
        opens_invariants none
    {
        if let (None, Some(nonce_key)) = (self.nonce, self.nonce_key) {
            if !nonce_key.is_zero() {
                let account = match self.from {
                    Some(from) => from,
                    None => ZERO_ADDRESS,
                };
                return TxnEnvStep::ReadNonce(NonceLookup { account, nonce_key, request: self });
            }
        }
        TxnEnvStep::Build(self)
    }
}

impl<R> NonceLookup<R> {
    /// The request to build once the storage was read: with the stored word as its nonce, capped
    /// at `u64::MAX`, or the failure.
    pub open spec fn after<E>(self, stored: Result<U256, E>) -> Result<
        TempoTransactionRequest<R>,
        E,
    > {
        match stored {
            Ok(word) => Ok(self.request.with_nonce(at_most(word@, u64::MAX as nat) as u64)),
            Err(error) => Err(error),
        }
    }

    /// Takes the storage word that was read.
    pub fn on_storage<E>(self, stored: Result<U256, E>) -> (request: Result<
        TempoTransactionRequest<R>,
        E,
    >)
        ensures
            request == self.after(stored),
            match (request, stored) {
                (Ok(filled), Ok(word)) => {
                    &&& filled.nonce is Some
                    &&& word@ <= u64::MAX ==> filled.nonce->0 == word@
                    &&& word@ > u64::MAX ==> filled.nonce->0 == u64::MAX
                    &&& filled.from == self.request.from
                    &&& filled.nonce_key == self.request.nonce_key
                    &&& filled.body == self.request.body
                },
                (Err(answer), Err(error)) => answer == error,
                _ => false,
            },
    {
        match stored {
            Ok(word) => {
                let mut request = self.request;
                request.nonce = Some(word.saturating_to_u64());
                Ok(request)
            },
            Err(error) => Err(error),
        }
    }
}

/// The request whose environment is built in the end, where `stored_of` answers for an account and
/// a nonce key.
pub open spec fn request_to_build<R, E>(
    request: TempoTransactionRequest<R>,
    stored_of: spec_fn(Address, U256) -> Result<U256, E>,
) -> Result<TempoTransactionRequest<R>, E> {
    match request.step() {
        TxnEnvStep::Build(request) => Ok(request),
        TxnEnvStep::ReadNonce(lookup) => lookup.after(stored_of(lookup.account, lookup.nonce_key)),
    }
}

/// The stored nonce is read if and only if the request gives no nonce and names a key other than
/// zero, be it one or the largest there is. It is read for the sender that the request names, or
/// for the zero address where it names none, and under the key that the request names. A request
/// that needs no reading is built as it is.
pub proof fn law_when_and_for_whom_nonces_are_read<R>(request: TempoTransactionRequest<R>)
    ensures
        request.nonce is None && request.nonce_key is Some && request.nonce_key->0@ != 0 ==> {
            let step = request.step();
            &&& step is ReadNonce
            &&& request.from is Some ==> step->ReadNonce_0.account == request.from->0
            &&& request.from is None ==> forall|i: int|
                0 <= i < 20 ==> #[trigger] step->ReadNonce_0.account@[i] == 0
            &&& step->ReadNonce_0.nonce_key == request.nonce_key->0
            &&& step->ReadNonce_0.request == request
        },
        request.nonce is Some || request.nonce_key is None || request.nonce_key->0@ == 0
            ==> request.step() == TxnEnvStep::Build(request),
{
}

/// Requests of different senders never read each other's nonce.
pub proof fn law_senders_are_kept_apart<R>(
    one: TempoTransactionRequest<R>,
    other: TempoTransactionRequest<R>,
)
    requires
        one.from is Some,
        other.from is Some,
        one.from != other.from,
        one.step() is ReadNonce,
        other.step() is ReadNonce,
    ensures
        one.step()->ReadNonce_0.account != other.step()->ReadNonce_0.account,
{
}

/// What is filled in is the stored word where it is a nonce at all, and the largest nonce where the
/// word is larger. Nothing but the nonce changes, and a failed reading is passed on.
pub proof fn law_stored_word_becomes_the_nonce<R, E>(
    lookup: NonceLookup<R>,
    stored: Result<U256, E>,
)
    ensures
        match (lookup.after(stored), stored) {
            (Ok(filled), Ok(word)) => {
                &&& filled.nonce is Some
                &&& word@ <= u64::MAX ==> filled.nonce->0 == word@
                &&& word@ > u64::MAX ==> filled.nonce->0 == u64::MAX
                &&& filled.from == lookup.request.from
                &&& filled.nonce_key == lookup.request.nonce_key
                &&& filled.body == lookup.request.body
            },
            (Err(answer), Err(error)) => answer == error,
            _ => false,
        },
{
}

/// A nonce that the caller gave is kept, whatever is stored; so is a request without a nonce key
/// or with the key zero. The storage cannot make such a request fail.
pub proof fn law_other_requests_are_untouched<R, E>(
    request: TempoTransactionRequest<R>,
    stored_of: spec_fn(Address, U256) -> Result<U256, E>,
)
    requires
        request.nonce is Some || request.nonce_key is None || request.nonce_key->0@ == 0,
    ensures
        request_to_build(request, stored_of) == Ok::<TempoTransactionRequest<R>, E>(request),
{
}

/// A request with a key other than zero and no nonce gets the nonce stored for its sender under
/// that key, or fails as the storage does. Nothing but its nonce changes.
pub proof fn law_stored_nonce_is_filled_in<R, E>(
    request: TempoTransactionRequest<R>,
    stored_of: spec_fn(Address, U256) -> Result<U256, E>,
)
    requires
        request.nonce is None,
        request.nonce_key is Some,
        request.nonce_key->0@ != 0,
    ensures
        ({
            let built = request_to_build(request, stored_of);
            let account = match request.from {
                Some(sender) => sender,
                None => ZERO_ADDRESS,
            };
            match stored_of(account, request.nonce_key->0) {
                Ok(word) => {
                    &&& built is Ok
                    &&& built->Ok_0.nonce is Some
                    &&& built->Ok_0.nonce->0 == at_most(word@, u64::MAX as nat)
                    &&& built->Ok_0.from == request.from
                    &&& built->Ok_0.nonce_key == request.nonce_key
                    &&& built->Ok_0.body == request.body
                },
                Err(error) => built == Err::<TempoTransactionRequest<R>, E>(error),
            }
        }),
{
}

/// The storage is read at most once: a request that came out is built as it is.
pub proof fn law_one_storage_read_is_enough<R, E>(
    request: TempoTransactionRequest<R>,
    stored_of: spec_fn(Address, U256) -> Result<U256, E>,
)
    ensures
        request_to_build(request, stored_of) matches Ok(built) ==> built.step()
            == TxnEnvStep::Build(built),
{
}

} // verus!
