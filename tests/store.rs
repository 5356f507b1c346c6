use relay::chain::Chain;
use relay::primitives::{RequestId, TxHash};
use relay::repository::{update_statements, MemoryRepository, RepositoryError, Statement};
use relay::request::{RecordError, Request, RequestRecord, RequestUpdate, TxIntent};

fn hash(n: u8) -> TxHash {
    TxHash::new([n; 32])
}

fn intent(max_fee: u128, priority: u128, nonce: u128) -> TxIntent {
    let mut tx = TxIntent::new();
    tx.value = Some(1);
    tx.nonce = Some(nonce);
    tx.max_fee_per_gas = Some(max_fee);
    tx.max_priority_fee_per_gas = Some(priority);
    tx.chain_id = Some(31337);
    tx.gas = Some(21000);
    tx
}

#[test]
fn save_then_get_and_status() {
    let mut repo = MemoryRepository::new();
    let id = RequestId::from_u128(7);
    assert_eq!(repo.save(id, hash(1), intent(100, 10, 0), false, Chain::Goerli), Ok(()));
    let got = repo.get(id).unwrap();
    assert_eq!(got.id, id);
    assert_eq!(got.hash, hash(1));
    assert!(!got.mined);
    assert_eq!(got.chain, Chain::Goerli);
    assert_eq!(got.tx.max_fee_per_gas, Some(100));
    assert_eq!(got.tx.nonce, Some(0));
    assert_eq!(repo.status(id), Some((false, hash(1))));
}

#[test]
fn save_duplicate_id_conflicts() {
    let mut repo = MemoryRepository::new();
    let id = RequestId::from_u128(7);
    assert_eq!(repo.save(id, hash(1), intent(100, 10, 0), false, Chain::Goerli), Ok(()));
    assert_eq!(
        repo.save(id, hash(2), intent(200, 20, 1), true, Chain::Sepolia),
        Err(RepositoryError::Conflict)
    );
    assert_eq!(repo.len(), 1);
    assert_eq!(repo.status(id), Some((false, hash(1))));
}

#[test]
fn unknown_id_is_absent() {
    let mut repo = MemoryRepository::new();
    assert!(repo.get(RequestId::from_u128(1)).is_none());
    repo.save(RequestId::from_u128(2), hash(1), intent(1, 1, 0), false, Chain::Goerli).unwrap();
    assert_eq!(repo.status(RequestId::new_v4()), None);
    assert!(repo.get(RequestId::from_u128(1)).is_none());
}

#[test]
fn get_pending_filters_by_chain_and_mined() {
    let mut repo = MemoryRepository::new();
    repo.save(RequestId::from_u128(1), hash(1), intent(1, 1, 0), false, Chain::Goerli).unwrap();
    repo.save(RequestId::from_u128(2), hash(2), intent(1, 1, 1), true, Chain::Goerli).unwrap();
    repo.save(RequestId::from_u128(3), hash(3), intent(1, 1, 0), false, Chain::Sepolia).unwrap();
    repo.save(RequestId::from_u128(4), hash(4), intent(1, 1, 2), false, Chain::Goerli).unwrap();
    let pending = repo.get_pending(Chain::Goerli);
    let ids: Vec<u128> = pending.iter().map(|r| r.id.value).collect();
    assert_eq!(ids, vec![1, 4]);
    let ids: Vec<u128> = repo.get_pending(Chain::Sepolia).iter().map(|r| r.id.value).collect();
    assert_eq!(ids, vec![3]);
    assert!(repo.get_pending(Chain::Mainnet).is_empty());
}

#[test]
fn update_many_writes_each_update() {
    let mut repo = MemoryRepository::new();
    repo.save(RequestId::from_u128(1), hash(1), intent(100, 10, 0), false, Chain::Goerli).unwrap();
    repo.save(RequestId::from_u128(2), hash(2), intent(100, 10, 1), false, Chain::Goerli).unwrap();
    repo.update_many(vec![
        RequestUpdate { id: RequestId::from_u128(1), mined: true, hash: hash(1), tx: None },
        RequestUpdate {
            id: RequestId::from_u128(2),
            mined: false,
            hash: hash(9),
            tx: Some(intent(121, 12, 1)),
        },
        RequestUpdate { id: RequestId::from_u128(3), mined: true, hash: hash(3), tx: None },
    ]);
    assert_eq!(repo.len(), 2);
    assert_eq!(repo.status(RequestId::from_u128(1)), Some((true, hash(1))));
    assert_eq!(repo.status(RequestId::from_u128(2)), Some((false, hash(9))));
    let r2 = repo.get(RequestId::from_u128(2)).unwrap();
    assert_eq!(r2.tx.max_fee_per_gas, Some(121));
    assert_eq!(r2.tx.max_priority_fee_per_gas, Some(12));
    let r1 = repo.get(RequestId::from_u128(1)).unwrap();
    assert_eq!(r1.tx.max_fee_per_gas, Some(100));
    assert_eq!(repo.status(RequestId::from_u128(3)), None);
}

#[test]
fn update_many_empty_changes_nothing() {
    let mut repo = MemoryRepository::new();
    repo.save(RequestId::from_u128(1), hash(1), intent(100, 10, 0), false, Chain::Goerli).unwrap();
    repo.update_many(Vec::new());
    assert_eq!(repo.status(RequestId::from_u128(1)), Some((false, hash(1))));
}

#[test]
fn empty_batch_needs_no_statement() {
    assert!(update_statements(Vec::new()).is_empty());
}

#[test]
fn batch_statements_are_one_transaction() {
    let id = RequestId::from_u128(0x0123456789abcdef0123456789abcdef);
    let st = update_statements(vec![
        RequestUpdate { id, mined: true, hash: hash(0xab), tx: None },
        RequestUpdate { id: RequestId::from_u128(5), mined: false, hash: hash(1), tx: Some(intent(2, 1, 0)) },
    ]);
    assert_eq!(st.len(), 4);
    assert!(matches!(st[0], Statement::Begin));
    assert!(matches!(st[3], Statement::Commit));
    match &st[1] {
        Statement::UpdateRequest { id, hash, mined, tx } => {
            assert_eq!(id, "01234567-89ab-cdef-0123-456789abcdef");
            assert_eq!(hash, &format!("0x{}", "ab".repeat(32)));
            assert!(*mined);
            assert!(tx.is_none());
        }
        _ => panic!("expected an update"),
    }
    match &st[2] {
        Statement::UpdateRequest { mined, tx, .. } => {
            assert!(!*mined);
            assert_eq!(tx.as_ref().unwrap().max_fee_per_gas, Some(2));
        }
        _ => panic!("expected an update"),
    }
}

#[test]
fn record_round_trip() {
    let mut tx = intent(3_000_000_000, 1_000_000_000, 12);
    tx.data = Some(vec![1, 2, 3]);
    let id = RequestId::from_u128(0xfeed);
    let req = Request { id, tx, hash: hash(0x5c), mined: false, chain: Chain::Sepolia };
    let record = RequestRecord::from_request(req);
    assert_eq!(record.id, "00000000-0000-0000-0000-00000000feed");
    assert_eq!(record.hash, format!("0x{}", "5c".repeat(32)));
    assert_eq!(record.chain, 11155111);
    let back = Request::from_record(record).unwrap();
    assert_eq!(back.id, id);
    assert_eq!(back.hash, hash(0x5c));
    assert_eq!(back.chain, Chain::Sepolia);
    assert!(!back.mined);
    assert_eq!(back.tx.data, Some(vec![1, 2, 3]));
    assert_eq!(back.tx.nonce, Some(12));
    assert_eq!(back.tx.max_fee_per_gas, Some(3_000_000_000));
}

#[test]
fn record_errors() {
    let good_id = "00000000-0000-0000-0000-00000000feed".to_string();
    let good_hash = format!("0x{}", "5c".repeat(32));
    let bad_id = RequestRecord {
        id: "feed".to_string(),
        tx: TxIntent::new(),
        hash: good_hash.clone(),
        mined: false,
        chain: 5,
    };
    assert_eq!(Request::from_record(bad_id).unwrap_err(), RecordError::InvalidId);
    let bad_hash = RequestRecord {
        id: good_id.clone(),
        tx: TxIntent::new(),
        hash: "0x12".to_string(),
        mined: false,
        chain: 5,
    };
    assert_eq!(Request::from_record(bad_hash).unwrap_err(), RecordError::InvalidHash);
    let bad_chain = RequestRecord { id: good_id, tx: TxIntent::new(), hash: good_hash, mined: false, chain: 999 };
    assert_eq!(Request::from_record(bad_chain).unwrap_err(), RecordError::UnknownChain);
}
