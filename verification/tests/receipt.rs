use std::sync::Arc;

use tempo_rpc::primitives::Address;
use tempo_rpc::receipt::{
    InnerReceipt, ReceiptError, TempoReceiptConverter, TempoTransactionReceipt,
};

fn inner(
    effective_gas_price: u128,
    gas_used: u64,
    log_addresses: Vec<Address>,
) -> InnerReceipt<&'static str> {
    InnerReceipt { effective_gas_price, gas_used, log_addresses, body: "body" }
}

type Payers = Vec<Result<Address, &'static str>>;
type Inner = Result<Vec<InnerReceipt<&'static str>>, &'static str>;

fn convert(
    inner: Inner,
    fee_payers: Payers,
) -> Result<Vec<TempoTransactionReceipt<&'static str>>, ReceiptError<&'static str>> {
    TempoReceiptConverter::new(Arc::new("chain")).convert_receipts(inner, &fee_payers)
}

#[test]
fn converter_keeps_its_chain() {
    let chain = Arc::new(1337u64);
    let converter = TempoReceiptConverter::new(chain.clone());
    assert!(Arc::ptr_eq(converter.chain_spec(), &chain));
    assert!(Arc::ptr_eq(converter.clone().chain_spec(), &chain));
}

#[test]
fn last_log_names_the_fee_token() {
    let receipts = convert(Ok(vec![inner(1, 1, vec![[1; 20], [2; 20]])]), vec![Ok([9; 20])]);
    assert_eq!(
        receipts,
        Ok(vec![TempoTransactionReceipt {
            inner: inner(1, 1, vec![[1; 20], [2; 20]]),
            fee_token: Some([2; 20]),
            fee_payer: [9; 20],
        }])
    );
}

#[test]
fn free_transactions_have_no_fee_token() {
    assert_eq!(inner(0, 1, vec![[1; 20]]).with_fee_payer([9; 20]).fee_token, None);
    assert_eq!(inner(1, 0, vec![[1; 20]]).with_fee_payer([9; 20]).fee_token, None);
    assert_eq!(inner(0, 0, vec![[1; 20]]).with_fee_payer([9; 20]).fee_token, None);
}

#[test]
fn paid_transaction_without_logs_has_no_fee_token() {
    let receipt = inner(1, 1, vec![]).with_fee_payer([9; 20]);
    assert_eq!(receipt.fee_token, None);
    assert_eq!(receipt.fee_payer, [9; 20]);
}

#[test]
fn receipts_keep_their_order() {
    let receipts = convert(
        Ok(vec![inner(1, 1, vec![[1; 20]]), inner(0, 5, vec![[2; 20]]), inner(3, 3, vec![[3; 20]])]),
        vec![Ok([7; 20]), Ok([8; 20]), Ok([9; 20])],
    )
    .unwrap();
    let summary: Vec<_> = receipts.iter().map(|r| (r.fee_payer, r.fee_token)).collect();
    assert_eq!(
        summary,
        vec![([7; 20], Some([1; 20])), ([8; 20], None), ([9; 20], Some([3; 20]))]
    );
    assert_eq!(receipts[1].inner, inner(0, 5, vec![[2; 20]]));
}

#[test]
fn no_receipts_give_no_receipts() {
    assert_eq!(convert(Ok(vec![]), vec![]), Ok(vec![]));
}

#[test]
fn one_bad_signature_fails_all() {
    for position in 0..3 {
        let mut payers: Payers = vec![Ok([7; 20]), Ok([8; 20]), Ok([9; 20])];
        payers[position] = Err("signature");
        let common = vec![inner(1, 1, vec![]), inner(0, 0, vec![]), inner(1, 1, vec![])];
        assert_eq!(convert(Ok(common), payers), Err(ReceiptError::InvalidTransactionSignature));
    }
}

#[test]
fn inner_failure_comes_first() {
    assert_eq!(
        convert(Err("inner"), vec![Err("signature")]),
        Err(ReceiptError::Inner("inner"))
    );
}

#[test]
fn surplus_on_either_side_is_dropped() {
    let one = convert(Ok(vec![inner(1, 1, vec![])]), vec![Ok([7; 20]), Err("signature")]);
    assert_eq!(one.unwrap().len(), 1);
    let one = convert(Ok(vec![inner(1, 1, vec![]), inner(1, 1, vec![])]), vec![Ok([7; 20])]);
    assert_eq!(one.unwrap().len(), 1);
}

#[test]
fn batches_can_be_split() {
    let whole = convert(
        Ok(vec![inner(1, 1, vec![[1; 20]]), inner(2, 2, vec![[2; 20]])]),
        vec![Ok([7; 20]), Ok([8; 20])],
    )
    .unwrap();
    let mut parts = convert(Ok(vec![inner(1, 1, vec![[1; 20]])]), vec![Ok([7; 20])]).unwrap();
    parts.extend(convert(Ok(vec![inner(2, 2, vec![[2; 20]])]), vec![Ok([8; 20])]).unwrap());
    assert_eq!(whole, parts);
}
