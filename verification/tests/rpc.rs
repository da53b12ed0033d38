use pathfinder_core::common::header::BlockHeader as CommonHeader;
use pathfinder_core::common::transaction::{InvokeTransactionV0, InvokeTransactionV1};
use pathfinder_core::common::{
    BlockHash, BlockTimestamp, CallParam, ContractAddress, EntryPoint, Fee, GasPrice, SequencerAddress,
    StarknetVersion, TransactionNonce, TransactionSignatureElem,
};
use pathfinder_core::felt::Felt;
use pathfinder_core::rpc::dto::{Field, FieldValue, InvokeTxnV0, InvokeTxnV1, Signature};
use pathfinder_core::rpc::v05::{BlockHeader, GasPrices, PendingBlock, ResourcePrice};
use serde_json::Value;

fn elements(list: &[u64]) -> Vec<TransactionSignatureElem> {
    list.iter().map(|x| TransactionSignatureElem(Felt::from_u64(*x))).collect()
}

fn params(list: &[u64]) -> Vec<CallParam> {
    list.iter().map(|x| CallParam(Felt::from_u64(*x))).collect()
}

fn object(fields: Vec<Field>) -> Value {
    let fields = fields.into_iter().map(|field| {
        let value = match field.value {
            FieldValue::Text(text) => Value::from(text),
            FieldValue::List(list) => Value::from(list),
        };
        (field.name.to_string(), value)
    });
    Value::Object(fields.collect())
}

fn expected(fields: Vec<(&str, Value)>) -> Value {
    Value::Object(fields.into_iter().map(|(name, value)| (name.to_string(), value)).collect())
}

#[test]
fn invoke_txn_v0() {
    for (query, expected_version) in [(false, "0x0"), (true, "0x100000000000000000000000000000000")] {
        let tx = InvokeTransactionV0 {
            calldata: params(&[0x11, 0x33, 0x22]),
            sender_address: ContractAddress::new_or_panic(Felt::from_u64(0x999)),
            entry_point_selector: EntryPoint(Felt::from_u64(0x44)),
            entry_point_type: None,
            max_fee: Fee(Felt::from_u64(0x123)),
            signature: elements(&[1, 2, 3, 4]),
        };
        let expected = expected(vec![
            ("type", Value::from("INVOKE")),
            ("max_fee", Value::from("0x123")),
            ("version", Value::from(expected_version)),
            ("signature", Value::from(vec!["0x1", "0x2", "0x3", "0x4"])),
            ("contract_address", Value::from("0x999")),
            ("entry_point_selector", Value::from("0x44")),
            ("calldata", Value::from(vec!["0x11", "0x33", "0x22"])),
        ]);
        let encoded = InvokeTxnV0 { inner: &tx, query }.serialize();
        assert_eq!(object(encoded), expected);
    }
}

#[test]
fn invoke_txn_v1() {
    for (query, expected_version) in [(false, "0x1"), (true, "0x100000000000000000000000000000001")] {
        let tx = InvokeTransactionV1 {
            calldata: params(&[0x11, 0x33, 0x22]),
            sender_address: ContractAddress::new_or_panic(Felt::from_u64(0x999)),
            max_fee: Fee(Felt::from_u64(0x123)),
            signature: elements(&[1, 2, 3, 4]),
            nonce: TransactionNonce(Felt::from_u64(0x88129)),
        };
        let expected = expected(vec![
            ("type", Value::from("INVOKE")),
            ("max_fee", Value::from("0x123")),
            ("version", Value::from(expected_version)),
            ("signature", Value::from(vec!["0x1", "0x2", "0x3", "0x4"])),
            ("sender_address", Value::from("0x999")),
            ("calldata", Value::from(vec!["0x11", "0x33", "0x22"])),
            ("nonce", Value::from("0x88129")),
        ]);
        let encoded = InvokeTxnV1 { inner: &tx, query }.serialize();
        assert_eq!(object(encoded), expected);
    }
}

#[test]
fn signature() {
    let signature = elements(&[1, 2, 3, 4]);
    let expected = signature.iter().map(|x| x.0.to_hex_str()).collect::<Vec<_>>();
    let encoded = Signature(&signature).serialize();
    assert_eq!(encoded, expected);
    assert_eq!(encoded, vec!["0x1", "0x2", "0x3", "0x4"]);
}

#[test]
fn a_pending_header_has_no_hash() {
    let pending = PendingBlock {
        l1_gas_price: GasPrices { price_in_wei: GasPrice(5), price_in_fri: GasPrice(6) },
        parent_hash: BlockHash(Felt::from_u64(1)),
        sequencer_address: SequencerAddress(Felt::from_u64(2)),
        timestamp: BlockTimestamp(3),
        starknet_version: StarknetVersion("0.12.3".to_string()),
    };
    let header = BlockHeader::from_sequencer_pending(pending);
    assert_eq!(
        header,
        BlockHeader {
            block_hash: None,
            parent_hash: BlockHash(Felt::from_u64(1)),
            block_number: None,
            new_root: None,
            timestamp: BlockTimestamp(3),
            sequencer_address: SequencerAddress(Felt::from_u64(2)),
            l1_gas_price: ResourcePrice { price_in_wei: GasPrice(5) },
            starknet_version: StarknetVersion("0.12.3".to_string()),
        }
    );
}

#[test]
fn a_header_is_taken_over() {
    let header = CommonHeader {
        hash: BlockHash(Felt::from_u64(9)),
        eth_l1_gas_price: GasPrice(7),
        ..Default::default()
    };
    let rpc = BlockHeader::from(header.clone());
    assert_eq!(rpc.block_hash, Some(header.hash));
    assert_eq!(rpc.block_number, Some(header.number));
    assert_eq!(rpc.new_root, Some(header.state_commitment));
    assert_eq!(rpc.l1_gas_price, ResourcePrice::from(GasPrice(7)));
}
