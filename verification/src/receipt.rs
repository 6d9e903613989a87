//! Adding the fee payer and the fee token to transaction receipts.

use std::sync::Arc;

use vstd::prelude::*;

use crate::primitives::Address;

verus! {

/// A receipt in its common form. `body` holds everything that is passed on as it is.
#[derive(Debug, PartialEq, Eq)]
pub struct InnerReceipt<R> {
    /// Price that was paid for one unit of gas.
    pub effective_gas_price: u128,
    /// Gas that the transaction used.
    pub gas_used: u64,
    /// For each log, in order, the address that emitted it.
    pub log_addresses: Vec<Address>,
    /// The rest of the receipt.
    pub body: R,
}

/// A receipt together with what is known about its fee.
#[derive(Debug, PartialEq, Eq)]
pub struct TempoTransactionReceipt<R> {
    pub inner: InnerReceipt<R>,
    /// The token in which the fee was paid.
    pub fee_token: Option<Address>,
    /// The account that paid the fee.
    pub fee_payer: Address,
}

/// Why receipts could not be converted.
#[derive(Debug, PartialEq, Eq)]
pub enum ReceiptError<E> {
    /// The conversion to the common form failed.
    Inner(E),
    /// The fee payer of a transaction could not be recovered.
    InvalidTransactionSignature,
}

impl<R> InnerReceipt<R> {
    /// The token in which the fee was paid: none where there was no fee, and otherwise the emitter
    /// of the last log, where there is one.
    pub open spec fn fee_token(self) -> Option<Address> {
        if self.effective_gas_price == 0 || self.gas_used == 0 || self.log_addresses@.len() == 0 {
            None
        } else {
            Some(self.log_addresses@.last())
        }
    }

    /// The receipt with its fee token and fee payer.
    pub open spec fn paid_by(self, fee_payer: Address) -> TempoTransactionReceipt<R> {
        TempoTransactionReceipt { inner: self, fee_token: self.fee_token(), fee_payer }
    }

    /// Adds the fee token and the fee payer.
    pub fn with_fee_payer(self, fee_payer: Address) -> (receipt: TempoTransactionReceipt<R>)
        ensures
            receipt == self.paid_by(fee_payer),
            receipt.inner == self,
            receipt.fee_payer == fee_payer,
            receipt.fee_token is Some <==> self.effective_gas_price > 0 && self.gas_used > 0
                && self.log_addresses@.len() > 0,
            receipt.fee_token is Some ==> receipt.fee_token->0
                == self.log_addresses@[self.log_addresses@.len() - 1],
    {
        let mut receipt = TempoTransactionReceipt { inner: self, fee_token: None, fee_payer };
        if receipt.inner.effective_gas_price == 0 || receipt.inner.gas_used == 0 {
            return receipt;
        }
        let logs: usize = receipt.inner.log_addresses.len();
        if logs > 0 {
            receipt.fee_token = Some(receipt.inner.log_addresses[logs - 1]);
        }
        receipt
    }
}

/// How many receipts come out: one for each pair of a receipt and a transaction.
pub open spec fn paired<R, F>(
    inner: Seq<InnerReceipt<R>>,
    fee_payers: Seq<Result<Address, F>>,
) -> int {
    if inner.len() <= fee_payers.len() {
        inner.len() as int
    } else {
        fee_payers.len() as int
    }
}

/// Whether every receipt that has a transaction has a fee payer.
pub open spec fn all_recovered<R, F>(
    inner: Seq<InnerReceipt<R>>,
    fee_payers: Seq<Result<Address, F>>,
) -> bool {
    forall|i: int| 0 <= i < paired(inner, fee_payers) ==> #[trigger] fee_payers[i] is Ok
}

/// The receipts that come out where every fee payer is known.
pub open spec fn converted<R, F>(
    inner: Seq<InnerReceipt<R>>,
    fee_payers: Seq<Result<Address, F>>,
) -> Seq<TempoTransactionReceipt<R>> {
    Seq::new(
        paired(inner, fee_payers) as nat,
        |i: int| inner[i].paid_by(fee_payers[i]->Ok_0),
    )
}

/// What a conversion answers, where `inner` is the outcome of the conversion to the common form.
pub open spec fn conversion<R, F, E>(
    inner: Result<Seq<InnerReceipt<R>>, E>,
    fee_payers: Seq<Result<Address, F>>,
) -> Result<Seq<TempoTransactionReceipt<R>>, ReceiptError<E>> {
    match inner {
        Err(error) => Err(ReceiptError::Inner(error)),
        Ok(inner) => if all_recovered(inner, fee_payers) {
            Ok(converted(inner, fee_payers))
        } else {
            Err(ReceiptError::InvalidTransactionSignature)
        },
    }
}

/// The contents of a vector that may have failed to come about.
pub open spec fn contents<T, E>(outcome: Result<Vec<T>, E>) -> Result<Seq<T>, E> {
    match outcome {
        Ok(items) => Ok(items@),
        Err(error) => Err(error),
    }
}

/// Converts receipts for a chain. `S` is the description of the chain, which the conversion to the
/// common form goes by.
#[derive(Debug)]
pub struct TempoReceiptConverter<S> {
    chain_spec: Arc<S>,
}

impl<S> Clone for TempoReceiptConverter<S> {
    fn clone(&self) -> (copy: Self)
        ensures
            copy.chain() == self.chain(),
    {
        TempoReceiptConverter { chain_spec: self.chain_spec.clone() }
    }
}

impl<S> TempoReceiptConverter<S> {
    /// The chain whose receipts are converted.
    pub closed spec fn chain(self) -> Arc<S> {
        self.chain_spec
    }

    /// A converter for the given chain.
    pub fn new(chain_spec: Arc<S>) -> (converter: TempoReceiptConverter<S>)
        ensures
            converter.chain() == chain_spec,
    {
        TempoReceiptConverter { chain_spec }
    }

    /// The chain whose receipts are converted.
    pub fn chain_spec(&self) -> (chain_spec: &Arc<S>)
        ensures
            *chain_spec == self.chain(),
    {
        &self.chain_spec
    }

    /// Completes receipts, of which `inner` is the outcome of the conversion to the common form and
    /// `fee_payers` says for each transaction, in the same order, who paid its fee.
    pub fn convert_receipts<R, F, E>(
        &self,
        inner: Result<Vec<InnerReceipt<R>>, E>,
        fee_payers: &Vec<Result<Address, F>>,
    ) -> (receipts: Result<Vec<TempoTransactionReceipt<R>>, ReceiptError<E>>)
        ensures
            contents(receipts) == conversion(contents(inner), fee_payers@),
            match (inner, receipts) {
                (Err(error), Err(answer)) => answer == ReceiptError::Inner(error),
                (Ok(common), Err(answer)) => {
                    &&& answer == ReceiptError::<E>::InvalidTransactionSignature
                    &&& exists|i: int|
                        0 <= i < common@.len() && i < fee_payers@.len()
                            && #[trigger] fee_payers@[i] is Err
                },
                (Ok(common), Ok(converted)) => {
                    &&& converted@.len() <= common@.len()
                    &&& converted@.len() <= fee_payers@.len()
                    &&& converted@.len() == common@.len() || converted@.len() == fee_payers@.len()
                    &&& forall|i: int|
                        0 <= i < converted@.len() ==> {
                            let receipt = #[trigger] converted@[i];
                            let logs = common@[i].log_addresses@;
                            &&& fee_payers@[i] == Ok::<Address, F>(receipt.fee_payer)
                            &&& receipt.inner == common@[i]
                            &&& receipt.fee_token is Some <==> common@[i].effective_gas_price > 0
                                && common@[i].gas_used > 0 && logs.len() > 0
                            &&& receipt.fee_token is Some ==> receipt.fee_token->0
                                == logs[logs.len() - 1]
                        }
                },
                _ => false,
            },
    {
        let common = match inner {
            Ok(common) => common,
            Err(error) => return Err(ReceiptError::Inner(error)),
        };
        let ghost source = common@;
        let mut receipts: Vec<TempoTransactionReceipt<R>> = Vec::new();
        for receipt in walk: common.into_iter()
            invariant
                walk.seq() == source,
                contents(inner) == Ok::<Seq<InnerReceipt<R>>, E>(source),
                receipts@.len() == paired(source.take(walk.index() as int), fee_payers@),
                forall|i: int|
                    0 <= i < receipts@.len() ==> #[trigger] fee_payers@[i] is Ok && receipts@[i]
                        == source[i].paid_by(fee_payers@[i]->Ok_0),
        {
            if receipts.len() < fee_payers.len() {
                match &fee_payers[receipts.len()] {
                    Ok(fee_payer) => receipts.push(receipt.with_fee_payer(*fee_payer)),
                    Err(_) => return Err(ReceiptError::InvalidTransactionSignature),
                }
            }
        }
        assert(receipts@ =~= converted(source, fee_payers@));
        Ok(receipts)
    }
}

/// Where all fee payers are known, one receipt comes out for each that went in, in the same order,
/// with its fee payer and with everything else about it as it was.
pub proof fn law_receipts_keep_their_order<R, F, E>(
    inner: Seq<InnerReceipt<R>>,
    fee_payers: Seq<Result<Address, F>>,
)
    requires
        inner.len() == fee_payers.len(),
        forall|i: int| 0 <= i < fee_payers.len() ==> #[trigger] fee_payers[i] is Ok,
    ensures
        ({
            let answer = conversion::<R, F, E>(Ok(inner), fee_payers);
            &&& answer is Ok
            &&& answer->Ok_0.len() == inner.len()
            &&& forall|i: int|
                0 <= i < inner.len() ==> (#[trigger] answer->Ok_0[i]).inner == inner[i]
                    && answer->Ok_0[i].fee_payer == fee_payers[i]->Ok_0
        }),
{
}

/// A receipt keeps everything it had and gets the fee payer that is given for it. Its fee token is
/// the emitter of its last log, where it has one and gas was used and paid for, and there is none
/// otherwise.
pub proof fn law_receipt_says_who_paid_in_what<R>(inner: InnerReceipt<R>, fee_payer: Address)
    ensures
        inner.paid_by(fee_payer).inner == inner,
        inner.paid_by(fee_payer).fee_payer == fee_payer,
        inner.paid_by(fee_payer).fee_token is Some <==> inner.effective_gas_price > 0
            && inner.gas_used > 0 && inner.log_addresses@.len() > 0,
        inner.paid_by(fee_payer).fee_token matches Some(token) ==> token
            == inner.log_addresses@[inner.log_addresses@.len() - 1],
{
}

/// Receipts and fee payers are paired from the front, and what is left over on either side counts
/// for nothing: the conversion succeeds if and only if every fee payer that has a receipt is known,
/// and as many receipts come out as there are pairs.
pub proof fn law_what_is_left_over_does_not_count<R, F, E>(
    inner: Seq<InnerReceipt<R>>,
    fee_payers: Seq<Result<Address, F>>,
)
    ensures
        ({
            let answer = conversion::<R, F, E>(Ok(inner), fee_payers);
            &&& answer is Ok <==> forall|i: int|
                0 <= i < inner.len() && i < fee_payers.len() ==> #[trigger] fee_payers[i] is Ok
            &&& answer is Ok ==> {
                &&& answer->Ok_0.len() <= inner.len()
                &&& answer->Ok_0.len() <= fee_payers.len()
                &&& answer->Ok_0.len() == inner.len() || answer->Ok_0.len() == fee_payers.len()
                &&& forall|i: int|
                    0 <= i < answer->Ok_0.len() ==> (#[trigger] answer->Ok_0[i]).inner == inner[i]
                        && fee_payers[i] == Ok::<Address, F>(answer->Ok_0[i].fee_payer)
            }
            &&& answer is Err ==> answer->Err_0 == ReceiptError::<E>::InvalidTransactionSignature
        }),
{
}

/// A single fee payer that could not be recovered fails all receipts, wherever it stands.
pub proof fn law_one_bad_signature_fails_all<R, F, E>(
    inner: Seq<InnerReceipt<R>>,
    fee_payers: Seq<Result<Address, F>>,
    position: int,
)
    requires
        0 <= position < inner.len(),
        position < fee_payers.len(),
        fee_payers[position] is Err,
    ensures
        conversion::<R, F, E>(Ok(inner), fee_payers) == Err::<
            Seq<TempoTransactionReceipt<R>>,
            ReceiptError<E>,
        >(ReceiptError::InvalidTransactionSignature),
{
}

/// A failure of the conversion to the common form comes before any bad signature.
pub proof fn law_inner_failure_comes_first<R, F, E>(
    error: E,
    fee_payers: Seq<Result<Address, F>>,
)
    ensures
        conversion::<R, F, E>(Err(error), fee_payers) == Err::<
            Seq<TempoTransactionReceipt<R>>,
            ReceiptError<E>,
        >(ReceiptError::Inner(error)),
{
}

/// A receipt names a fee token exactly where gas was paid for and something was logged; the token
/// is then the emitter of the last log.
pub proof fn law_fee_token_means_a_fee<R, F, E>(
    inner: Seq<InnerReceipt<R>>,
    fee_payers: Seq<Result<Address, F>>,
)
    ensures
        conversion::<R, F, E>(Ok(inner), fee_payers) matches Ok(receipts) ==> forall|i: int|
            0 <= i < receipts.len() ==> {
                let receipt = #[trigger] receipts[i];
                &&& receipt.fee_token is Some <==> receipt.inner.effective_gas_price > 0
                    && receipt.inner.gas_used > 0 && receipt.inner.log_addresses@.len() > 0
                &&& receipt.fee_token is Some ==> receipt.fee_token->0
                    == receipt.inner.log_addresses@.last()
            },
{
}

/// Receipts do not influence each other: a batch that is converted in two parts gives the same
/// receipts as in one.
pub proof fn law_batches_can_be_split<R, F, E>(
    first: Seq<InnerReceipt<R>>,
    second: Seq<InnerReceipt<R>>,
    first_payers: Seq<Result<Address, F>>,
    second_payers: Seq<Result<Address, F>>,
)
    requires
        first.len() == first_payers.len(),
    ensures
        ({
            let whole = conversion::<R, F, E>(Ok(first + second), first_payers + second_payers);
            let left = conversion::<R, F, E>(Ok(first), first_payers);
            let right = conversion::<R, F, E>(Ok(second), second_payers);
            &&& whole is Ok <==> left is Ok && right is Ok
            &&& whole is Ok ==> whole->Ok_0 == left->Ok_0 + right->Ok_0
        }),
{
    let inner = first + second;
    let payers = first_payers + second_payers;
    if all_recovered(inner, payers) {
        assert forall|i: int| 0 <= i < paired(first, first_payers) implies (
        #[trigger] first_payers[i]) is Ok by {
            assert(payers[i] is Ok);
        }
        assert forall|i: int| 0 <= i < paired(second, second_payers) implies (
        #[trigger] second_payers[i]) is Ok by {
            assert(payers[first.len() + i] is Ok);
        }
        assert(converted(inner, payers) =~= converted(first, first_payers) + converted(
            second,
            second_payers,
        ));
    }
    if all_recovered(first, first_payers) && all_recovered(second, second_payers) {
        assert forall|i: int| 0 <= i < paired(inner, payers) implies #[trigger] payers[i] is Ok by {
            if i < first.len() {
                assert(first_payers[i] is Ok);
            } else {
                assert(second_payers[i - first.len()] is Ok);
            }
        }
    }
}

} // verus!
