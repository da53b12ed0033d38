use pathfinder_core::common::event::Event;
use pathfinder_core::common::receipt::{
    BuiltinCounters, ExecutionDataAvailability, ExecutionResources, ExecutionStatus, L2ToL1Message, Receipt,
};
use pathfinder_core::common::transaction::{
    DataAvailabilityMode, DeclareTransactionV0V1, DeclareTransactionV2, DeclareTransactionV3,
    DeployAccountTransactionV1, DeployAccountTransactionV3, DeployTransaction, EntryPointType, InvokeTransactionV0,
    InvokeTransactionV1, InvokeTransactionV3, L1HandlerTransaction, ResourceBound, ResourceBounds,
    Transaction as StarknetTransaction, TransactionVariant,
};
use pathfinder_core::common::{
    AccountDeploymentDataElem, BlockHash, BlockNumber, CallParam, CasmHash, ClassHash, ConstructorParam,
    ContractAddress, ContractAddressSalt, EntryPoint, EthereumAddress, EventData, EventKey, Fee,
    L2ToL1MessagePayloadElem, PaymasterDataElem, ResourceAmount, ResourcePricePerUnit, Tip, TransactionHash,
    TransactionIndex, TransactionNonce, TransactionSignatureElem, TransactionVersion,
};
use pathfinder_core::felt::Felt;
use pathfinder_core::storage::codec::{Decode, Encode, Malformed};
use pathfinder_core::storage::dto;
use pathfinder_core::storage::rows::{decode_rows, encode_rows, LoadError, TransactionData};
use pathfinder_core::storage::transaction::{
    count, data_of, row_of, set_events, set_receipt, transaction_at, BlockRow, StorageError, Transaction,
};
use rusqlite::{Connection, OptionalExtension};

fn felt(bytes: &[u8]) -> Felt {
    Felt::from_be_slice(bytes).unwrap()
}

fn tx_hash(bytes: &[u8]) -> TransactionHash {
    TransactionHash(felt(bytes))
}

fn address(bytes: &[u8]) -> ContractAddress {
    ContractAddress::new_or_panic(felt(bytes))
}

fn signature(list: &[&[u8]]) -> Vec<TransactionSignatureElem> {
    list.iter().map(|x| TransactionSignatureElem(felt(x))).collect()
}

fn calldata(list: &[&[u8]]) -> Vec<CallParam> {
    list.iter().map(|x| CallParam(felt(x))).collect()
}

/// How a request names a block.
enum BlockId {
    Number(BlockNumber),
    Hash(BlockHash),
    Latest,
}

/// The tables that the requests run on.
struct Database {
    connection: Connection,
}

impl Database {
    fn new() -> Self {
        let connection = Connection::open_in_memory().unwrap();
        connection
            .execute_batch(
                "CREATE TABLE block_headers (number INTEGER PRIMARY KEY, hash BLOB NOT NULL);
                 CREATE TABLE transactions (block_number INTEGER PRIMARY KEY, transactions BLOB NOT NULL);
                 CREATE TABLE transaction_hashes (hash BLOB PRIMARY KEY, block_number INTEGER NOT NULL);",
            )
            .unwrap();
        Self { connection }
    }

    fn insert_block(&self, number: BlockNumber, hash: BlockHash, data: &[TransactionData]) {
        self.connection
            .execute(
                "INSERT INTO block_headers (number, hash) VALUES (?, ?)",
                (number.get(), hash.0.as_be_bytes().to_vec()),
            )
            .unwrap();
        let Some(insertion) = Transaction::insert_transaction_data(number, data).unwrap() else {
            return;
        };
        for hash in insertion.hashes {
            self.connection
                .execute(
                    "INSERT INTO transaction_hashes (hash, block_number) VALUES (?, ?)",
                    (hash.0.as_be_bytes().to_vec(), number.get()),
                )
                .unwrap();
        }
        self.connection
            .execute(
                "INSERT INTO transactions (block_number, transactions) VALUES (?, ?)",
                (insertion.row.block_number.get(), insertion.row.transactions),
            )
            .unwrap();
    }

    fn update(&self, row: BlockRow) {
        let changed = self
            .connection
            .execute(
                "UPDATE transactions SET transactions = ? WHERE block_number = ?",
                (row.transactions, row.block_number.get()),
            )
            .unwrap();
        assert_eq!(changed, 1);
    }

    fn block_number(&self, block: BlockId) -> Option<u64> {
        match block {
            BlockId::Number(number) => self
                .connection
                .query_row("SELECT number FROM block_headers WHERE number = ?", [number.get()], |row| row.get(0))
                .optional()
                .unwrap(),
            BlockId::Hash(hash) => self
                .connection
                .query_row(
                    "SELECT number FROM block_headers WHERE hash = ?",
                    [hash.0.as_be_bytes().to_vec()],
                    |row| row.get(0),
                )
                .optional()
                .unwrap(),
            BlockId::Latest => self
                .connection
                .query_row("SELECT number FROM block_headers ORDER BY number DESC LIMIT 1", [], |row| row.get(0))
                .optional()
                .unwrap(),
        }
    }

    fn by_block(&self, block: BlockId) -> Transaction {
        let row = self.block_number(block).and_then(|number| {
            self.connection
                .query_row(
                    "SELECT block_number, transactions FROM transactions WHERE block_number = ?",
                    [number],
                    |row| Ok((row.get::<_, u64>(0)?, row.get::<_, Vec<u8>>(1)?)),
                )
                .optional()
                .unwrap()
        });
        Transaction {
            row: row.map(|(number, transactions)| BlockRow {
                block_number: BlockNumber::new_or_panic(number),
                transactions,
            }),
        }
    }

    fn by_hash(&self, hash: TransactionHash) -> Transaction {
        let row = self
            .connection
            .query_row(
                "SELECT transactions.block_number, transactions.transactions FROM transactions
                 JOIN transaction_hashes ON transactions.block_number = transaction_hashes.block_number
                 WHERE hash = ?",
                [hash.0.as_be_bytes().to_vec()],
                |row| Ok((row.get::<_, u64>(0)?, row.get::<_, Vec<u8>>(1)?)),
            )
            .optional()
            .unwrap();
        Transaction {
            row: row.map(|(number, transactions)| BlockRow {
                block_number: BlockNumber::new_or_panic(number),
                transactions,
            }),
        }
    }

    fn block_hash_column(&self, hash: TransactionHash) -> Option<Vec<u8>> {
        self.connection
            .query_row(
                "SELECT block_headers.hash FROM transaction_hashes
                 JOIN block_headers ON transaction_hashes.block_number = block_headers.number
                 WHERE transaction_hashes.hash = ?",
                [hash.0.as_be_bytes().to_vec()],
                |row| row.get(0),
            )
            .optional()
            .unwrap()
    }
}

fn setup() -> (Database, BlockNumber, BlockHash, Vec<(StarknetTransaction, Receipt)>) {
    let number = BlockNumber::genesis();
    let hash = BlockHash(felt(b"block hash"));

    // One of each transaction type.
    let transactions = vec![
        StarknetTransaction {
            hash: tx_hash(b"declare v0 tx hash"),
            variant: TransactionVariant::DeclareV0(DeclareTransactionV0V1 {
                class_hash: ClassHash(felt(b"declare v0 class hash")),
                max_fee: Fee(felt(b"declare v0 max fee")),
                nonce: TransactionNonce(felt(b"declare v0 tx nonce")),
                sender_address: address(b"declare v0 contract address"),
                signature: signature(&[b"declare v0 tx sig 0", b"declare v0 tx sig 1"]),
            }),
        },
        StarknetTransaction {
            hash: tx_hash(b"declare v1 tx hash"),
            variant: TransactionVariant::DeclareV1(DeclareTransactionV0V1 {
                class_hash: ClassHash(felt(b"declare v1 class hash")),
                max_fee: Fee(felt(b"declare v1 max fee")),
                nonce: TransactionNonce(felt(b"declare v1 tx nonce")),
                sender_address: address(b"declare v1 contract address"),
                signature: signature(&[b"declare v1 tx sig 0", b"declare v1 tx sig 1"]),
            }),
        },
        StarknetTransaction {
            hash: tx_hash(b"declare v2 tx hash"),
            variant: TransactionVariant::DeclareV2(DeclareTransactionV2 {
                class_hash: ClassHash(felt(b"declare v2 class hash")),
                max_fee: Fee(felt(b"declare v2 max fee")),
                nonce: TransactionNonce(felt(b"declare v2 tx nonce")),
                sender_address: address(b"declare v2 contract address"),
                signature: signature(&[b"declare v2 tx sig 0", b"declare v2 tx sig 1"]),
                compiled_class_hash: CasmHash::new_or_panic(felt(b"declare v2 casm hash")),
            }),
        },
        StarknetTransaction {
            hash: tx_hash(b"deploy tx hash"),
            variant: TransactionVariant::Deploy(DeployTransaction {
                contract_address: address(b"deploy contract address"),
                contract_address_salt: ContractAddressSalt(felt(b"deploy contract address salt")),
                class_hash: ClassHash(felt(b"deploy class hash")),
                constructor_calldata: vec![
                    ConstructorParam(felt(b"deploy call data 0")),
                    ConstructorParam(felt(b"deploy call data 1")),
                ],
                version: TransactionVersion(Felt::zero()),
            }),
        },
        StarknetTransaction {
            hash: tx_hash(b"deploy account tx hash"),
            variant: TransactionVariant::DeployAccountV1(DeployAccountTransactionV1 {
                contract_address: address(b"deploy account contract address"),
                max_fee: Fee(felt(b"deploy account max fee")),
                signature: signature(&[b"deploy account tx sig 0", b"deploy account tx sig 1"]),
                nonce: TransactionNonce(felt(b"deploy account tx nonce")),
                contract_address_salt: ContractAddressSalt(felt(b"deploy account address salt")),
                constructor_calldata: calldata(&[b"deploy account call data 0", b"deploy account call data 1"]),
                class_hash: ClassHash(felt(b"deploy account class hash")),
            }),
        },
        StarknetTransaction {
            hash: tx_hash(b"invoke v0 tx hash"),
            variant: TransactionVariant::InvokeV0(InvokeTransactionV0 {
                calldata: calldata(&[b"invoke v0 call data 0", b"invoke v0 call data 1"]),
                sender_address: address(b"invoke v0 contract address"),
                entry_point_selector: EntryPoint(felt(b"invoke v0 entry point")),
                entry_point_type: None,
                max_fee: Fee(felt(b"invoke v0 max fee")),
                signature: signature(&[b"invoke v0 tx sig 0", b"invoke v0 tx sig 1"]),
            }),
        },
        StarknetTransaction {
            hash: tx_hash(b"invoke v1 tx hash"),
            variant: TransactionVariant::InvokeV1(InvokeTransactionV1 {
                calldata: calldata(&[b"invoke v1 call data 0", b"invoke v1 call data 1"]),
                sender_address: address(b"invoke v1 contract address"),
                max_fee: Fee(felt(b"invoke v1 max fee")),
                signature: signature(&[b"invoke v1 tx sig 0", b"invoke v1 tx sig 1"]),
                nonce: TransactionNonce(felt(b"invoke v1 tx nonce")),
            }),
        },
        StarknetTransaction {
            hash: tx_hash(b"L1 handler tx hash"),
            variant: TransactionVariant::L1Handler(L1HandlerTransaction {
                contract_address: address(b"L1 handler contract address"),
                entry_point_selector: EntryPoint(felt(b"L1 handler entry point")),
                nonce: TransactionNonce(felt(b"L1 handler tx nonce")),
                calldata: calldata(&[b"L1 handler call data 0", b"L1 handler call data 1"]),
            }),
        },
    ];

    // A receipt for each transaction.
    let receipts: Vec<Receipt> = transactions
        .iter()
        .enumerate()
        .map(|(i, t)| Receipt {
            transaction_hash: t.hash,
            transaction_index: TransactionIndex::new_or_panic(i as u64),
            ..Default::default()
        })
        .collect();
    assert_eq!(transactions.len(), receipts.len());

    let body = transactions.into_iter().zip(receipts).collect::<Vec<_>>();

    let db = Database::new();
    db.insert_block(
        number,
        hash,
        &body
            .clone()
            .into_iter()
            .map(|(tx, receipt)| TransactionData { transaction: tx, receipt: Some(receipt), events: Some(vec![]) })
            .collect::<Vec<_>>(),
    );

    (db, number, hash, body)
}

#[test]
fn serialize_deserialize_transaction() {
    let transaction = StarknetTransaction {
        hash: tx_hash(b"pending tx hash 1"),
        variant: TransactionVariant::Deploy(DeployTransaction {
            contract_address: ContractAddress::new_or_panic(Felt::from_u64(0x1122355)),
            contract_address_salt: ContractAddressSalt(felt(b"salty")),
            class_hash: ClassHash(felt(b"pending class hash 1")),
            version: TransactionVersion(Felt::from_u64(1)),
            constructor_calldata: vec![],
        }),
    };
    let dto = dto::Transaction::from(&transaction);
    let mut serialized = Vec::new();
    dto.encode(&mut serialized);
    let deserialized = dto::Transaction::decode(&serialized).unwrap();
    assert_eq!(deserialized.0, dto);
    assert!(deserialized.1.is_empty());
}

#[test]
fn transaction() {
    let (db, _, _, body) = setup();

    let (expected, _) = body.first().unwrap().clone();

    let result = db.by_hash(expected.hash).transaction(expected.hash).unwrap().unwrap();
    assert_eq!(result, expected);

    let hash = tx_hash(b"invalid");
    let invalid = db.by_hash(hash).transaction(hash).unwrap();
    assert_eq!(invalid, None);
}

#[test]
fn transaction_with_receipt() {
    let (db, number, _, body) = setup();

    let (transaction, receipt) = body.first().unwrap().clone();

    let result = db
        .by_hash(transaction.hash)
        .transaction_with_receipt(transaction.hash)
        .unwrap()
        .unwrap();
    assert_eq!(result.0, transaction);
    assert_eq!(result.1, receipt);
    assert_eq!(result.2, vec![]);
    assert_eq!(result.3, number);

    let hash = tx_hash(b"invalid");
    let invalid = db.by_hash(hash).transaction_with_receipt(hash).unwrap();
    assert_eq!(invalid, None);
}

#[test]
fn transaction_at_block() {
    let (db, number, hash, body) = setup();

    let idx = 5;
    let expected = Some(body[idx].0.clone());

    let by_number = db.by_block(BlockId::Number(number)).transaction_at_block(idx).unwrap();
    assert_eq!(by_number, expected);
    let by_hash = db.by_block(BlockId::Hash(hash)).transaction_at_block(idx).unwrap();
    assert_eq!(by_hash, expected);
    let by_latest = db.by_block(BlockId::Latest).transaction_at_block(idx).unwrap();
    assert_eq!(by_latest, expected);

    let invalid_index = db.by_block(BlockId::Number(number)).transaction_at_block(body.len() + 1).unwrap();
    assert_eq!(invalid_index, None);

    let invalid_index = db.by_block(BlockId::Number(BlockNumber::max())).transaction_at_block(idx).unwrap();
    assert_eq!(invalid_index, None);
}

#[test]
fn transaction_count() {
    let (db, number, hash, body) = setup();

    let by_latest = db.by_block(BlockId::Latest).transaction_count().unwrap();
    assert_eq!(by_latest, body.len());
    let by_number = db.by_block(BlockId::Number(number)).transaction_count().unwrap();
    assert_eq!(by_number, body.len());
    let by_hash = db.by_block(BlockId::Hash(hash)).transaction_count().unwrap();
    assert_eq!(by_hash, body.len());
}

#[test]
fn transaction_count_of_an_unknown_block_is_zero() {
    let (db, _, _, _) = setup();
    assert_eq!(db.by_block(BlockId::Number(BlockNumber::max())).transaction_count(), Ok(0));
}

#[test]
fn transaction_data_for_block() {
    let (db, number, hash, body) = setup();

    let expected = Some(body.into_iter().map(|(tx, receipt)| (tx, receipt, vec![])).collect());

    let by_number = db.by_block(BlockId::Number(number)).transaction_data_for_block().unwrap();
    assert_eq!(by_number, expected);
    let by_hash = db.by_block(BlockId::Hash(hash)).transaction_data_for_block().unwrap();
    assert_eq!(by_hash, expected);
    let by_latest = db.by_block(BlockId::Latest).transaction_data_for_block().unwrap();
    assert_eq!(by_latest, expected);

    let invalid_block = db.by_block(BlockId::Number(BlockNumber::max())).transaction_data_for_block().unwrap();
    assert_eq!(invalid_block, None);
}

#[test]
fn transactions_for_block() {
    let (db, number, hash, body) = setup();

    let expected = Some(body.into_iter().map(|(t, _)| t).collect::<Vec<_>>());

    let by_number = db.by_block(BlockId::Number(number)).transactions_for_block().unwrap();
    assert_eq!(by_number, expected);
    let by_hash = db.by_block(BlockId::Hash(hash)).transactions_for_block().unwrap();
    assert_eq!(by_hash, expected);
    let by_latest = db.by_block(BlockId::Latest).transactions_for_block().unwrap();
    assert_eq!(by_latest, expected);

    let invalid_block = db.by_block(BlockId::Number(BlockNumber::max())).transaction_data_for_block().unwrap();
    assert_eq!(invalid_block, None);

    let unknown = BlockHash(Felt::from_u64(0x123));
    let invalid_block = db.by_block(BlockId::Hash(unknown)).transaction_data_for_block().unwrap();
    assert_eq!(invalid_block, None);
}

#[test]
fn transaction_hashes_for_block() {
    let (db, number, hash, body) = setup();

    let expected = Some(body.iter().map(|(transaction, _)| transaction.hash).collect());

    let by_number = db.by_block(BlockId::Number(number)).transaction_hashes_for_block().unwrap();
    assert_eq!(by_number, expected);
    let by_hash = db.by_block(BlockId::Hash(hash)).transaction_hashes_for_block().unwrap();
    assert_eq!(by_hash, expected);
    let by_latest = db.by_block(BlockId::Latest).transaction_hashes_for_block().unwrap();
    assert_eq!(by_latest, expected);

    let invalid_block = db.by_block(BlockId::Number(BlockNumber::max())).transaction_hashes_for_block().unwrap();
    assert_eq!(invalid_block, None);
}

#[test]
fn transaction_block_hash() {
    let (db, _, hash, body) = setup();

    let target = body.first().unwrap().0.hash;
    let column = db.block_hash_column(target);
    let valid = Transaction::transaction_block_hash(column.as_deref()).unwrap().unwrap();
    assert_eq!(valid, hash);

    let column = db.block_hash_column(tx_hash(b"invalid hash"));
    let invalid = Transaction::transaction_block_hash(column.as_deref()).unwrap();
    assert_eq!(invalid, None);
}

#[test]
fn a_block_hash_has_to_be_a_field_element() {
    assert_eq!(Transaction::transaction_block_hash(Some(&[0xff; 32])), Err(StorageError::InvalidHash));
    assert_eq!(Transaction::transaction_block_hash(Some(&[0; 33])), Err(StorageError::InvalidHash));
}

#[test]
fn nothing_is_written_for_a_block_without_transactions() {
    assert!(Transaction::insert_transaction_data(BlockNumber::genesis(), &[]).unwrap().is_none());
}

fn event(from: &[u8]) -> Event {
    Event {
        data: vec![EventData(Felt::from_u64(1)), EventData(Felt::from_u64(300))],
        from_address: address(from),
        keys: vec![EventKey(felt(b"key"))],
    }
}

#[test]
fn events_enter_the_bloom_filter_in_order() {
    let (_, _, _, body) = setup();
    let mut data: Vec<TransactionData> = body
        .into_iter()
        .map(|(transaction, _)| TransactionData { transaction, receipt: None, events: None })
        .collect();
    data[1].events = Some(vec![event(b"a"), event(b"b")]);
    data[3].events = Some(vec![]);
    data[6].events = Some(vec![event(b"c")]);
    let insertion = Transaction::insert_transaction_data(BlockNumber::genesis(), &data).unwrap().unwrap();
    let events: Vec<Event> = insertion.events.into_iter().cloned().collect();
    assert_eq!(events, vec![event(b"a"), event(b"b"), event(b"c")]);
    let hashes: Vec<TransactionHash> = data.iter().map(|x| x.transaction.hash).collect();
    assert_eq!(insertion.hashes, hashes);
}

#[test]
fn an_updated_receipt_is_read_back() {
    let (db, number, _, body) = setup();
    let receipt = Receipt {
        actual_fee: Fee(Felt::from_u64(77)),
        execution_resources: ExecutionResources {
            builtins: BuiltinCounters {
                output: 1,
                pedersen: 250,
                range_check: 251,
                ecdsa: 65535,
                bitwise: 65536,
                ec_op: u32::MAX as u64,
                keccak: 1 << 32,
                poseidon: u64::MAX,
                segment_arena: 9,
            },
            n_steps: 12,
            n_memory_holes: 13,
            data_availability: ExecutionDataAvailability { l1_gas: u128::MAX, l1_data_gas: 1 << 64 },
        },
        l2_to_l1_messages: vec![L2ToL1Message {
            from_address: address(b"sender"),
            payload: vec![L2ToL1MessagePayloadElem(felt(b"payload"))],
            to_address: EthereumAddress([0xab; 20]),
        }],
        execution_status: ExecutionStatus::Reverted { reason: "R\u{e9}volt\u{e9}".to_string() },
        transaction_hash: body[2].0.hash,
        transaction_index: TransactionIndex::new_or_panic(2),
    };
    let updated = db.by_block(BlockId::Number(number)).update_receipt(number, 2, receipt.clone()).unwrap();
    db.update(updated);

    let read = db.by_block(BlockId::Latest).transaction_data_for_block().unwrap().unwrap();
    for (i, (transaction, old_receipt)) in body.iter().enumerate() {
        assert_eq!(&read[i].0, transaction);
        assert_eq!(&read[i].1, if i == 2 { &receipt } else { old_receipt });
        assert_eq!(read[i].2, vec![]);
    }
}

#[test]
fn updated_events_are_read_back() {
    let (db, number, _, body) = setup();
    let events = vec![event(b"first"), event(b"second")];
    let updated = db.by_block(BlockId::Number(number)).update_events(number, 4, events.clone()).unwrap();
    db.update(updated);

    let read = db.by_block(BlockId::Latest).events_for_block().unwrap().unwrap();
    for (i, (transaction, _)) in body.iter().enumerate() {
        assert_eq!(read[i].0, transaction.hash);
        assert_eq!(read[i].1, if i == 4 { events.clone() } else { vec![] });
    }
}

#[test]
fn events_of_many_blocks_are_read_back() {
    const NUM_BLOCKS: usize = 10;
    let db = Database::new();
    let (_, _, _, body) = setup();
    let mut expected_events = Vec::new();
    for n in 0..NUM_BLOCKS {
        let data: Vec<TransactionData> = body
            .iter()
            .map(|(transaction, receipt)| {
                let mut transaction = transaction.clone();
                let mut hash = *transaction.hash.0.as_be_bytes();
                hash[1] = n as u8;
                transaction.hash = TransactionHash(Felt::from_be_bytes(hash).unwrap());
                TransactionData { transaction, receipt: Some(receipt.clone()), events: Some(vec![]) }
            })
            .collect();
        let number = BlockNumber::new_or_panic(n as u64);
        db.insert_block(number, BlockHash(Felt::from_u64(n as u64 + 1)), &data);
        let mut expected = Vec::new();
        for (i, data) in data.iter().enumerate() {
            let events = vec![event(&[n as u8 + 1, i as u8])];
            let row = db.by_block(BlockId::Number(number)).update_events(number, i, events.clone()).unwrap();
            db.update(row);
            expected.push((data.transaction.hash, events));
        }
        expected_events.push(expected);
    }
    let actual_events: Vec<_> = (0..NUM_BLOCKS)
        .map(|n| {
            db.by_block(BlockId::Number(BlockNumber::new_or_panic(n as u64)))
                .events_for_block()
                .unwrap()
                .unwrap()
        })
        .collect();
    assert_eq!(expected_events, actual_events);
}

#[test]
fn updates_need_a_block_and_a_transaction() {
    let (db, number, _, body) = setup();
    let unknown = db.by_block(BlockId::Number(BlockNumber::max()));
    assert_eq!(
        unknown.update_receipt(BlockNumber::max(), 0, Receipt::default()),
        Err(StorageError::NoTransactions(BlockNumber::max()))
    );
    assert_eq!(
        unknown.update_events(BlockNumber::max(), 0, vec![]),
        Err(StorageError::NoTransactions(BlockNumber::max()))
    );
    let known = db.by_block(BlockId::Number(number));
    let missing = StorageError::NoTransaction { index: body.len(), block_number: number };
    assert_eq!(known.update_receipt(number, body.len(), Receipt::default()), Err(missing));
    assert_eq!(known.update_events(number, body.len(), vec![]), Err(missing));
}

fn bare(body: &[(StarknetTransaction, Receipt)]) -> Vec<TransactionData> {
    body.iter()
        .map(|(transaction, _)| TransactionData { transaction: transaction.clone(), receipt: None, events: None })
        .collect()
}

#[test]
fn a_receipt_is_entered_at_its_position() {
    let (_, number, _, body) = setup();
    let data = bare(&body);
    let mut expected = data.clone();
    expected[3].receipt = Some(body[3].1.clone());
    assert_eq!(set_receipt(data.clone(), number, 3, body[3].1.clone()), Ok(expected));
    let missing = StorageError::NoTransaction { index: data.len(), block_number: number };
    assert_eq!(set_receipt(data.clone(), number, data.len(), Receipt::default()), Err(missing));
}

#[test]
fn events_are_entered_at_their_position() {
    let (_, number, _, body) = setup();
    let data = bare(&body);
    let mut expected = data.clone();
    expected[5].events = Some(vec![event(b"a"), event(b"b")]);
    assert_eq!(set_events(data.clone(), number, 5, vec![event(b"a"), event(b"b")]), Ok(expected));
    let missing = StorageError::NoTransaction { index: usize::MAX, block_number: number };
    assert_eq!(set_events(data, number, usize::MAX, vec![]), Err(missing));
}

#[test]
fn transactions_of_a_block_are_counted_and_found_by_position() {
    let (_, _, _, body) = setup();
    let data = bare(&body);
    assert_eq!(count(&data), body.len());
    assert_eq!(count(&[]), 0);
    for (i, (transaction, _)) in body.iter().enumerate() {
        assert_eq!(transaction_at(data.clone(), i).as_ref(), Some(transaction));
    }
    assert_eq!(transaction_at(data, body.len()), None);
}

#[test]
fn reading_by_hash_is_reading_by_number() {
    let (db, number, _, body) = setup();
    let by_number = db.by_block(BlockId::Number(number)).query_transactions_by_block_number().unwrap().unwrap();
    assert_eq!(by_number.len(), body.len());
    for (transaction, _) in &body {
        let by_hash = db.by_hash(transaction.hash).query_transactions_by_tx_hash().unwrap().unwrap();
        assert_eq!(by_hash.0, number);
        assert_eq!(by_hash.1, by_number);
    }
    assert_eq!(db.by_hash(tx_hash(b"invalid")).query_transactions_by_tx_hash(), Ok(None));
}

#[test]
fn missing_receipts_and_events_are_reported() {
    let (_, number, _, body) = setup();
    let mut data: Vec<TransactionData> = body
        .into_iter()
        .map(|(transaction, receipt)| TransactionData { transaction, receipt: Some(receipt), events: Some(vec![]) })
        .collect();
    data[2].events = None;
    data[3].receipt = None;
    data[3].events = None;
    let hashes: Vec<TransactionHash> = data.iter().map(|x| x.transaction.hash).collect();
    let insertion = Transaction::insert_transaction_data(number, &data).unwrap().unwrap();
    let request = Transaction { row: Some(insertion.row) };

    assert_eq!(request.transaction_with_receipt(hashes[2]), Err(StorageError::EventsMissing));
    assert_eq!(request.transaction_with_receipt(hashes[3]), Err(StorageError::ReceiptMissing));
    assert!(request.transaction_with_receipt(hashes[1]).unwrap().is_some());
    assert_eq!(request.transaction_data_for_block(), Err(StorageError::EventsMissing));
    assert_eq!(request.events_for_block(), Err(StorageError::EventsMissingFor(hashes[2])));
    assert_eq!(request.transactions_for_block().unwrap().unwrap().len(), hashes.len());
}

#[test]
fn the_first_of_equal_hashes_is_found() {
    let (_, number, _, body) = setup();
    let mut data: Vec<TransactionData> = body
        .into_iter()
        .map(|(transaction, _)| TransactionData { transaction, receipt: None, events: None })
        .collect();
    data[5].transaction.hash = data[1].transaction.hash;
    let expected = data[1].transaction.clone();
    let insertion = Transaction::insert_transaction_data(number, &data).unwrap().unwrap();
    let request = Transaction { row: Some(insertion.row) };
    assert_eq!(request.transaction(expected.hash), Ok(Some(expected)));
}

#[test]
fn broken_rows_are_refused() {
    let request = |transactions: Vec<u8>| Transaction {
        row: Some(BlockRow { block_number: BlockNumber::genesis(), transactions }),
    };
    assert_eq!(request(vec![1, 2, 3]).transaction_count(), Err(StorageError::Decompression));

    let malformed = zstd::bulk::compress(&[1, 7], 10).unwrap();
    assert_eq!(request(malformed).transaction_count(), Err(StorageError::Load(LoadError::Malformed)));

    let trailing = zstd::bulk::compress(&[0, 7, 7], 10).unwrap();
    assert_eq!(request(trailing).transaction_count(), Ok(0));
}

#[test]
fn rows_are_compressed_at_level_ten() {
    let (_, number, _, body) = setup();
    let data: Vec<TransactionData> = body
        .into_iter()
        .map(|(transaction, receipt)| TransactionData { transaction, receipt: Some(receipt), events: None })
        .collect();
    let row = Transaction::insert_transaction_data(number, &data).unwrap().unwrap().row;
    let expected = zstd::bulk::Compressor::new(10).unwrap().compress(&encode_rows(&data)).unwrap();
    assert_eq!(row.transactions, expected);
}

#[test]
fn addresses_beyond_251_bits_are_not_loaded() {
    let mut bytes = [0; 32];
    bytes[0] = 8;
    let large = Felt::from_be_bytes(bytes).unwrap();
    assert!(ContractAddress::new(large).is_none());
    let tx = |variant| TransactionData {
        transaction: StarknetTransaction { hash: tx_hash(b"hash"), variant },
        receipt: None,
        events: None,
    };
    let declare = DeclareTransactionV0V1 {
        class_hash: ClassHash(large),
        max_fee: Fee(large),
        nonce: TransactionNonce(large),
        sender_address: ContractAddress(large),
        signature: vec![],
    };
    // The sender of a declare transaction of version 0 is checked, that of version 1 is not.
    let v0 = vec![tx(TransactionVariant::DeclareV0(declare.clone()))];
    assert_eq!(decode_rows(&encode_rows(&v0)), Err(LoadError::AddressOutOfRange));
    let v1 = vec![tx(TransactionVariant::DeclareV1(declare))];
    assert_eq!(decode_rows(&encode_rows(&v1)), Ok(v1));

    let mut with_event = vec![tx(TransactionVariant::InvokeV1(InvokeTransactionV1 {
        calldata: vec![],
        sender_address: address(b"sender"),
        max_fee: Fee(Felt::zero()),
        signature: vec![],
        nonce: TransactionNonce(Felt::zero()),
    }))];
    with_event[0].events = Some(vec![Event { from_address: ContractAddress(large), ..event(b"x") }]);
    assert_eq!(decode_rows(&encode_rows(&with_event)), Err(LoadError::AddressOutOfRange));
}

/// The bytes of a number without leading zeros.
fn minimal(n: u64) -> Vec<u8> {
    n.to_be_bytes().iter().copied().skip_while(|x| *x == 0).collect()
}

fn encoded<T: Encode>(value: &T) -> Vec<u8> {
    let mut bytes = Vec::new();
    value.encode(&mut bytes);
    bytes
}

fn bincoded<T: serde::Serialize>(value: T) -> Vec<u8> {
    bincode::serde::encode_to_vec(value, bincode::config::standard()).unwrap()
}

fn stored(n: u64) -> dto::MinimalFelt {
    dto::MinimalFelt(Felt::from_u64(n))
}

#[test]
fn field_elements_are_stored_without_leading_zeros() {
    assert_eq!(encoded(&stored(0)), vec![0]);
    assert_eq!(encoded(&stored(0x0102)), vec![2, 1, 2]);
    assert_eq!(encoded(&stored(u64::MAX)), bincoded(minimal(u64::MAX)));
    assert_eq!(dto::MinimalFelt::decode(&[2, 1, 2, 9]), Ok((stored(0x0102), &[9u8][..])));
    // Leading zeros are accepted on reading.
    assert_eq!(dto::MinimalFelt::decode(&[3, 0, 1, 2]), Ok((stored(0x0102), &[][..])));
}

#[test]
fn field_elements_have_to_fit() {
    let mut too_long = vec![33];
    too_long.extend([0; 33]);
    assert_eq!(dto::MinimalFelt::decode(&too_long), Err(Malformed));
    let mut too_large = vec![32];
    too_large.extend([0xff; 32]);
    assert_eq!(dto::MinimalFelt::decode(&too_large), Err(Malformed));
    assert_eq!(dto::MinimalFelt::decode(&[3, 1, 2]), Err(Malformed));
    assert_eq!(dto::MinimalFelt::decode(&[]), Err(Malformed));
}

#[test]
fn integers_are_stored_in_the_variable_length_form() {
    for n in [0, 1, 250, 251, 255, 256, 65535, 65536, u32::MAX as u64, 1 << 32, u64::MAX] {
        assert_eq!(encoded(&n), bincoded(n));
        assert_eq!(u64::decode(&encoded(&n)), Ok((n, &[][..])));
    }
    for n in [0, 250, 251, 1 << 64, u128::MAX] {
        assert_eq!(encoded(&n), bincoded(n));
        assert_eq!(u128::decode(&encoded(&n)), Ok((n, &[][..])));
    }
    // Longer forms than necessary are read, wider ones are not.
    assert_eq!(u64::decode(&[251, 7, 0]), Ok((7, &[][..])));
    assert_eq!(u64::decode(&[254, 0, 0, 0, 0, 0, 0, 0, 0, 0, 0, 0, 0, 0, 0, 0, 0]), Err(Malformed));
    assert_eq!(u64::decode(&[255]), Err(Malformed));
    assert_eq!(u64::decode(&[252, 0, 0]), Err(Malformed));
}

#[test]
fn strings_and_options_are_stored_like_bincode_does() {
    let text = "gr\u{fc}n".to_string();
    assert_eq!(encoded(&text), bincoded(&text));
    assert_eq!(String::decode(&encoded(&text)), Ok((text, &[][..])));
    assert_eq!(String::decode(&[1, 0xff]), Err(Malformed));
    assert_eq!(String::decode(&[5, 65]), Err(Malformed));
    assert_eq!(String::decode(&[253, 255, 255, 255, 255, 255, 255, 255, 255]), Err(Malformed));
    assert_eq!(encoded(&Some(7u64)), bincoded(Some(7u64)));
    assert_eq!(encoded(&None::<u64>), bincoded(None::<u64>));
    assert_eq!(Option::<u64>::decode(&[2, 7]), Err(Malformed));
}

#[test]
fn ethereum_addresses_are_stored_as_text() {
    let mut bytes = [0u8; 20];
    for (i, byte) in bytes.iter_mut().enumerate() {
        *byte = 13 * i as u8;
    }
    let address = EthereumAddress(bytes);
    assert_eq!(encoded(&address), bincoded(primitive_types::H160(bytes)));
    assert_eq!(&encoded(&address)[..9], b"\x2a0x000d1a");
    assert_eq!(EthereumAddress::decode(&encoded(&address)), Ok((address, &[][..])));
    // Text without the prefix is read as well.
    let text: String = bytes.iter().map(|x| format!("{x:02X}")).collect();
    assert_eq!(EthereumAddress::decode(&bincoded(&text)), Ok((address, &[][..])));
    assert_eq!(EthereumAddress::decode(&bincoded("0x12")), Err(Malformed));
}

#[test]
fn positions_beyond_a_signed_integer_are_refused() {
    assert_eq!(TransactionIndex::decode(&bincoded(u64::MAX)), Err(Malformed));
    let largest = i64::MAX as u64;
    let index = TransactionIndex::new_or_panic(largest);
    assert_eq!(TransactionIndex::decode(&bincoded(largest)), Ok((index, &[][..])));
}

#[test]
fn rows_are_stored_like_bincode_does() {
    let row = dto::TransactionsRow {
        transaction: dto::Transaction::V0 {
            hash: stored(1),
            variant: dto::TransactionVariantV0::L1HandlerV0(dto::L1HandlerTransactionV0 {
                contract_address: stored(2),
                entry_point_selector: stored(300),
                nonce: stored(0),
                calldata: vec![stored(4), stored(5)],
            }),
        },
        receipt: Some(dto::Receipt::V0(dto::ReceiptV0 {
            actual_fee: stored(6),
            execution_resources: Some(dto::ExecutionResources {
                builtins: dto::BuiltinCounters::dummy(1, 2, 3, 4, 5, 6, 7, 8),
                n_steps: 9,
                n_memory_holes: 10,
                data_availability: dto::ExecutionDataAvailability { l1_gas: Some(11), l1_data_gas: None },
            }),
            l2_to_l1_messages: vec![dto::L2ToL1Message {
                from_address: stored(12),
                payload: vec![stored(13)],
                to_address: EthereumAddress([14; 20]),
            }],
            transaction_hash: stored(1),
            transaction_index: TransactionIndex::new_or_panic(15),
            execution_status: dto::ExecutionStatus::Reverted { reason: "no".to_string() },
        })),
        events: Some(dto::Events::V0 {
            events: vec![dto::Event { data: vec![stored(16)], from_address: stored(17), keys: vec![] }],
        }),
    };
    let transaction = (
        0u32,
        minimal(1),
        (10u32, (minimal(2), minimal(300), minimal(0), vec![minimal(4), minimal(5)])),
    );
    let resources = (
        (1u64, 2u64, 3u64, 4u64, 5u64, 6u64, 7u64, 8u64, 0u64),
        9u64,
        10u64,
        (Some(11u128), None::<u128>),
    );
    let message = (minimal(12), vec![minimal(13)], primitive_types::H160([14; 20]));
    let receipt = (
        0u32,
        (minimal(6), Some(resources), vec![message], minimal(1), 15u64, (1u32, "no")),
    );
    let events = (0u32, vec![(vec![minimal(16)], minimal(17), Vec::<Vec<u8>>::new())]);
    let expected = (transaction, Some(receipt), Some(events));
    assert_eq!(encoded(&vec![row.clone()]), bincoded(vec![expected]));
    let bytes = encoded(&vec![row.clone()]);
    assert_eq!(Vec::<dto::TransactionsRow>::decode(&bytes), Ok((vec![row], &[][..])));
}

fn bounds() -> ResourceBounds {
    ResourceBounds {
        l1_gas: ResourceBound { max_amount: ResourceAmount(1), max_price_per_unit: ResourcePricePerUnit(2) },
        l2_gas: ResourceBound { max_amount: ResourceAmount(3), max_price_per_unit: ResourcePricePerUnit(1 << 70) },
    }
}

#[test]
fn transactions_of_version_three_are_read_back() {
    let variants = vec![
        TransactionVariant::DeclareV3(DeclareTransactionV3 {
            class_hash: ClassHash(felt(b"class")),
            nonce: TransactionNonce(felt(b"nonce")),
            nonce_data_availability_mode: DataAvailabilityMode::L1,
            fee_data_availability_mode: DataAvailabilityMode::L2,
            resource_bounds: bounds(),
            tip: Tip(7),
            paymaster_data: vec![PaymasterDataElem(felt(b"paymaster"))],
            signature: signature(&[b"a", b"b"]),
            account_deployment_data: vec![AccountDeploymentDataElem(felt(b"deploy"))],
            sender_address: address(b"sender"),
            compiled_class_hash: CasmHash::new_or_panic(felt(b"casm")),
        }),
        TransactionVariant::DeployAccountV3(DeployAccountTransactionV3 {
            contract_address: address(b"contract"),
            signature: signature(&[b"a"]),
            nonce: TransactionNonce(felt(b"nonce")),
            nonce_data_availability_mode: DataAvailabilityMode::L2,
            fee_data_availability_mode: DataAvailabilityMode::L1,
            resource_bounds: bounds(),
            tip: Tip(u64::MAX),
            paymaster_data: vec![],
            contract_address_salt: ContractAddressSalt(felt(b"salt")),
            constructor_calldata: calldata(&[b"x", b"y"]),
            class_hash: ClassHash(felt(b"class")),
        }),
        TransactionVariant::InvokeV3(InvokeTransactionV3 {
            signature: signature(&[b"s"]),
            nonce: TransactionNonce(felt(b"nonce")),
            nonce_data_availability_mode: DataAvailabilityMode::L1,
            fee_data_availability_mode: DataAvailabilityMode::L1,
            resource_bounds: bounds(),
            tip: Tip(0),
            paymaster_data: vec![PaymasterDataElem(felt(b"p"))],
            account_deployment_data: vec![],
            calldata: calldata(&[b"call"]),
            sender_address: address(b"sender"),
        }),
        TransactionVariant::InvokeV0(InvokeTransactionV0 {
            calldata: vec![],
            sender_address: address(b"sender"),
            entry_point_selector: EntryPoint(felt(b"entry")),
            entry_point_type: Some(EntryPointType::L1Handler),
            max_fee: Fee(felt(b"fee")),
            signature: vec![],
        }),
    ];
    let data: Vec<TransactionData> = variants
        .into_iter()
        .enumerate()
        .map(|(i, variant)| TransactionData {
            transaction: StarknetTransaction { hash: TransactionHash(Felt::from_u64(i as u64)), variant },
            receipt: None,
            events: None,
        })
        .collect();
    assert_eq!(decode_rows(&encode_rows(&data)), Ok(data.clone()));
    assert_eq!(dto::Transaction::from(&data[2].transaction).hash(), data[2].transaction.hash);
}

#[test]
fn unknown_resources_count_as_none() {
    let receipt = |execution_resources| {
        dto::Receipt::V0(dto::ReceiptV0 {
            actual_fee: stored(1),
            execution_resources,
            l2_to_l1_messages: vec![],
            transaction_hash: stored(2),
            transaction_index: TransactionIndex::new_or_panic(3),
            execution_status: dto::ExecutionStatus::Succeeded,
        })
    };
    assert_eq!(Receipt::from(receipt(None)).execution_resources, ExecutionResources::default());

    let partly = dto::ExecutionResources {
        builtins: dto::BuiltinCounters::dummy(1, 0, 0, 0, 0, 0, 0, 0),
        n_steps: 5,
        n_memory_holes: 6,
        data_availability: dto::ExecutionDataAvailability { l1_gas: Some(7), l1_data_gas: None },
    };
    let loaded = Receipt::from(receipt(Some(partly))).execution_resources;
    assert_eq!(loaded.n_steps, 5);
    assert_eq!(loaded.builtins.output, 1);
    assert_eq!(loaded.data_availability, ExecutionDataAvailability { l1_gas: 0, l1_data_gas: 0 });
}

#[test]
fn failed_compression_is_reported() {
    let failure = || Err(std::io::Error::other("out of memory"));
    assert_eq!(row_of(BlockNumber::genesis(), failure()), Err(StorageError::Compression));
    assert_eq!(data_of(failure()), Err(StorageError::Decompression));
    let row = row_of(BlockNumber::max(), Ok(vec![1, 2])).unwrap();
    assert_eq!(row, BlockRow { block_number: BlockNumber::max(), transactions: vec![1, 2] });
    assert_eq!(data_of(Ok(vec![0])), Ok(vec![]));
    assert_eq!(data_of(Ok(vec![1])), Err(StorageError::Load(LoadError::Malformed)));
}

#[test]
fn different_values_are_stored_differently() {
    let values = [
        dto::TransactionVariantV0::DeclareV0(dto::DeclareTransactionV0V1::dummy(stored(1), stored(2), stored(3), vec![])),
        dto::TransactionVariantV0::DeclareV1(dto::DeclareTransactionV0V1::dummy(stored(1), stored(2), stored(3), vec![])),
        dto::TransactionVariantV0::DeclareV0(dto::DeclareTransactionV0V1::dummy(stored(1), stored(2), stored(4), vec![])),
    ];
    assert_ne!(encoded(&values[0]), encoded(&values[1]));
    assert_ne!(encoded(&values[0]), encoded(&values[2]));
}
