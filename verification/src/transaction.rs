//! A transaction as the submission handlers see it.

use vstd::prelude::*;

use crate::primitives::{Address, B256};

verus! {

/// A signed transaction whose sender is known.
#[derive(Debug, PartialEq, Eq)]
pub struct RecoveredTransaction {
    /// Hash of the transaction.
    pub hash: B256,
    /// The account that signed it.
    pub signer: Address,
    /// Key of the validator whose subblock is to carry it, where there is one.
    pub subblock_proposer: Option<Vec<u8>>,
    /// The transaction itself, encoded.
    pub envelope: Vec<u8>,
}

/// What a `RecoveredTransaction` says.
pub struct TransactionView {
    pub hash: B256,
    pub signer: Address,
    pub subblock_proposer: Option<Seq<u8>>,
    pub envelope: Seq<u8>,
}

impl View for RecoveredTransaction {
    type V = TransactionView;

    open spec fn view(&self) -> TransactionView {
        TransactionView {
            hash: self.hash,
            signer: self.signer,
            subblock_proposer: match self.subblock_proposer {
                Some(key) => Some(key@),
                None => None,
            },
            envelope: self.envelope@,
        }
    }
}

impl Clone for RecoveredTransaction {
    fn clone(&self) -> (copy: Self)
        ensures
            copy@ == self@,
            copy.hash == self.hash,
            copy.signer == self.signer,
            copy.subblock_proposer is Some <==> self.subblock_proposer is Some,
            copy.subblock_proposer matches Some(key) ==> key@ == self.subblock_proposer->0@,
            copy.envelope@ == self.envelope@,
    {
        let subblock_proposer = match &self.subblock_proposer {
            Some(key) => Some(key.clone()),
            None => None,
        };
        let envelope = self.envelope.clone();
        assert(envelope@ =~= self.envelope@);
        assert(subblock_proposer is Some ==> subblock_proposer->0@ =~= self.subblock_proposer->0@);
        RecoveredTransaction { hash: self.hash, signer: self.signer, subblock_proposer, envelope }
    }
}

/// Two transactions say the same if and only if they agree in every part: a view leaves nothing
/// out.
pub proof fn law_views_leave_nothing_out(one: RecoveredTransaction, other: RecoveredTransaction)
    ensures
        one@ == other@ <==> {
            &&& one.hash == other.hash
            &&& one.signer == other.signer
            &&& one.subblock_proposer is Some <==> other.subblock_proposer is Some
            &&& one.subblock_proposer is Some ==> one.subblock_proposer->0@
                == other.subblock_proposer->0@
            &&& one.envelope@ == other.envelope@
        },
{
}

/// A view says of a transaction what the transaction itself holds.
pub proof fn law_view_is_faithful(transaction: RecoveredTransaction)
    ensures
        transaction@.hash == transaction.hash,
        transaction@.signer == transaction.signer,
        transaction@.subblock_proposer is Some <==> transaction.subblock_proposer is Some,
        transaction.subblock_proposer matches Some(key) ==> transaction@.subblock_proposer
            == Some(key@),
        transaction@.envelope == transaction.envelope@,
{
}

} // verus!
