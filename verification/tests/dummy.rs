use pathfinder_core::common::{ResourceAmount, ResourcePricePerUnit, Tip};
use pathfinder_core::felt::Felt;
use pathfinder_core::storage::dto::{
    BuiltinCounters, DataAvailabilityMode, DeclareTransactionV0V1, DeclareTransactionV3, DeployAccountTransactionV1,
    DeployAccountTransactionV3, DeployTransaction, ExecutionResources, InvokeTransactionV0, InvokeTransactionV3,
    L1HandlerTransactionV0, MinimalFelt, ResourceBound, ResourceBounds,
};
use pathfinder_core::storage::dummy::DrawnV3;

fn felt(n: u64) -> MinimalFelt {
    MinimalFelt::from(Felt::from_u64(n))
}

fn drawn() -> DrawnV3 {
    let bound = ResourceBound { max_amount: ResourceAmount(1), max_price_per_unit: ResourcePricePerUnit(2) };
    DrawnV3 {
        nonce: felt(1),
        nonce_data_availability_mode: DataAvailabilityMode::L1,
        fee_data_availability_mode: DataAvailabilityMode::L2,
        resource_bounds: ResourceBounds { l1_gas: bound, l2_gas: bound },
        tip: Tip(3),
        paymaster_data: felt(4),
    }
}

#[test]
fn dummies_follow_their_rules() {
    assert_eq!(BuiltinCounters::dummy(1, 2, 3, 4, 5, 6, 7, 8).segment_arena, 0);
    let builtins = BuiltinCounters::dummy(1, 2, 3, 4, 5, 6, 7, 8);
    let known = ExecutionResources::dummy(Some((1, 2)), builtins, 3, 4).data_availability;
    assert_eq!((known.l1_gas, known.l1_data_gas), (Some(1), Some(2)));
    let unknown = ExecutionResources::dummy(None, builtins, 3, 4).data_availability;
    assert_eq!((unknown.l1_gas, unknown.l1_data_gas), (None, None));

    assert_eq!(DeclareTransactionV0V1::dummy(felt(1), felt(2), felt(3), vec![]).nonce, felt(0));
    let declare = DeclareTransactionV3::dummy(felt(1), drawn(), felt(2), vec![], felt(3), felt(5));
    assert_eq!(declare.paymaster_data, vec![felt(4)]);
    assert_eq!(declare.account_deployment_data, vec![felt(5)]);
    assert_eq!(DeployTransaction::dummy(false, felt(1), felt(2), vec![]).version, felt(0));
    let deploy = DeployTransaction::dummy(true, felt(1), felt(2), vec![]);
    assert_eq!(deploy.version, felt(1));
    assert_eq!(deploy.contract_address, felt(0));
    let account = DeployAccountTransactionV1::dummy(felt(9), felt(1), vec![], felt(2), felt(3), vec![], felt(4));
    assert_eq!(account.contract_address, felt(9));
    let account = DeployAccountTransactionV3::dummy(felt(9), drawn(), vec![], felt(3), vec![], felt(4));
    assert_eq!(account.sender_address, felt(9));
    assert_eq!(account.paymaster_data, vec![felt(4)]);
    assert_eq!(InvokeTransactionV0::dummy(vec![], felt(1), felt(2), felt(3), vec![]).entry_point_type, None);
    let invoke = InvokeTransactionV3::dummy(drawn(), felt(1), vec![], vec![felt(6)], felt(5));
    assert_eq!(invoke.account_deployment_data, vec![felt(5)]);
    assert_eq!(invoke.calldata, vec![felt(6)]);
    assert_eq!(L1HandlerTransactionV0::dummy(felt(1), felt(2), felt(3), vec![]).nonce, felt(3));
}
