use tempo_rpc::api::TempoEthApi;
use tempo_rpc::nonce::{NonceLookup, TempoTransactionRequest, TxnEnvStep};
use tempo_rpc::primitives::{Address, U256, ZERO_ADDRESS};

fn request(
    from: Option<Address>,
    nonce: Option<u64>,
    nonce_key: Option<U256>,
) -> TempoTransactionRequest<&'static str> {
    TempoTransactionRequest { from, nonce, nonce_key, body: "body" }
}

fn key(low: u64, high: u64) -> Option<U256> {
    Some(U256 { limbs: [low, 0, 0, high] })
}

#[test]
fn keyed_request_without_nonce_reads_storage() {
    let api = TempoEthApi::new(());
    let step = api.create_txn_env(request(Some([9; 20]), None, key(5, 0)));
    assert_eq!(
        step,
        TxnEnvStep::ReadNonce(NonceLookup {
            account: [9; 20],
            nonce_key: U256 { limbs: [5, 0, 0, 0] },
            request: request(Some([9; 20]), None, key(5, 0)),
        })
    );
}

#[test]
fn key_with_only_high_bits_is_not_zero() {
    let step = request(Some([9; 20]), None, key(0, 1)).into_step();
    assert!(matches!(step, TxnEnvStep::ReadNonce(_)));
}

#[test]
fn missing_sender_reads_for_the_zero_address() {
    match request(None, None, key(5, 0)).into_step() {
        TxnEnvStep::ReadNonce(lookup) => assert_eq!(lookup.account, ZERO_ADDRESS),
        TxnEnvStep::Build(_) => panic!("the nonce was not looked up"),
    }
}

#[test]
fn given_nonce_is_kept() {
    let given = request(Some([9; 20]), Some(3), key(5, 0));
    assert_eq!(given.into_step(), TxnEnvStep::Build(request(Some([9; 20]), Some(3), key(5, 0))));
}

#[test]
fn zero_and_missing_keys_are_left_alone() {
    let zero = request(Some([9; 20]), None, key(0, 0));
    assert_eq!(zero.into_step(), TxnEnvStep::Build(request(Some([9; 20]), None, key(0, 0))));
    let missing = request(Some([9; 20]), None, None);
    assert_eq!(missing.into_step(), TxnEnvStep::Build(request(Some([9; 20]), None, None)));
}

fn lookup() -> NonceLookup<&'static str> {
    match request(Some([9; 20]), None, key(5, 0)).into_step() {
        TxnEnvStep::ReadNonce(lookup) => lookup,
        TxnEnvStep::Build(_) => panic!("the nonce was not looked up"),
    }
}

#[test]
fn stored_nonce_is_filled_in() {
    let built = lookup().on_storage::<()>(Ok(U256 { limbs: [42, 0, 0, 0] })).unwrap();
    assert_eq!(built, request(Some([9; 20]), Some(42), key(5, 0)));
}

#[test]
fn stored_nonce_is_capped() {
    let built = lookup().on_storage::<()>(Ok(U256 { limbs: [42, 1, 0, 0] })).unwrap();
    assert_eq!(built.nonce, Some(u64::MAX));
}

#[test]
fn storage_failure_is_returned() {
    assert_eq!(lookup().on_storage(Err("database")), Err("database"));
}

#[test]
fn storage_is_read_once() {
    let built = lookup().on_storage::<()>(Ok(U256 { limbs: [0, 0, 0, 0] })).unwrap();
    assert_eq!(built.nonce, Some(0));
    assert!(matches!(built.into_step(), TxnEnvStep::Build(_)));
}
