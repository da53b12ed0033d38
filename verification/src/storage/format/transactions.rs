//! The stored form of transactions.
use crate::bytes::{lemma_append_assoc, lemma_pow256_values};
use crate::common::Tip;
use crate::common::transaction as common;
use crate::common::transaction::{DeclareTransactionV0V1View, DeclareTransactionV2View, DeclareTransactionV3View,
    DeployAccountTransactionV1View, DeployAccountTransactionV3View, DeployTransactionView,
    InvokeTransactionV0View, InvokeTransactionV1View, InvokeTransactionV3View, L1HandlerTransactionView,
    TransactionVariantView};
use crate::storage::codec::{decode_variant, encode_integer, Decode, Encode, Malformed};
use crate::storage::dto::{DataAvailabilityMode, DeclareTransactionV0V1, DeclareTransactionV2,
    DeclareTransactionV3, DeployAccountTransactionV1, DeployAccountTransactionV3, DeployTransaction,
    EntryPointType, InvokeTransactionV0, InvokeTransactionV1, InvokeTransactionV3, L1HandlerTransactionV0,
    MinimalFelt, ResourceBounds, TransactionVariantV0};
use crate::storage::format::elements::lemma_contents_are_views;
use crate::storage::wire::{lemma_unvarint, unvarint, varint};
use vstd::prelude::*;

verus! {

/// The fields of [`DeclareTransactionV0V1`], as they are stored.
pub type DeclareTransactionV0V1Fields = (MinimalFelt, (MinimalFelt, (MinimalFelt, (Vec<MinimalFelt>, MinimalFelt))));

/// What is stored of the fields.
pub open spec fn declare_transaction_v0_v1_fields(content: DeclareTransactionV0V1View) -> (nat, (nat, (nat, (Seq<nat>,
    nat)))) {
    (content.class_hash, (content.max_fee, (content.nonce, (content.signature, content.sender_address))))
}

impl Encode for DeclareTransactionV0V1 {
    type Content = DeclareTransactionV0V1View;

    open spec fn content(&self) -> DeclareTransactionV0V1View {
        self@
    }

    #[verifier::opaque]
    open spec fn valid(content: DeclareTransactionV0V1View) -> bool {
        DeclareTransactionV0V1Fields::valid(declare_transaction_v0_v1_fields(content))
    }

    #[verifier::opaque]
    open spec fn encoding(content: DeclareTransactionV0V1View) -> Seq<u8> {
        DeclareTransactionV0V1Fields::encoding(declare_transaction_v0_v1_fields(content))
    }

    fn encode(&self, out: &mut Vec<u8>) {
        proof {
            reveal(<DeclareTransactionV0V1 as Encode>::valid);
            reveal(<DeclareTransactionV0V1 as Encode>::encoding);
            lemma_contents_are_views(self.signature@);
        }
        (&self.class_hash, (&self.max_fee, (&self.nonce, (&self.signature, &self.sender_address)))).encode(out);
    }
}

impl Decode for DeclareTransactionV0V1 {
    #[verifier::opaque]
    open spec fn parse(s: Seq<u8>) -> Option<(DeclareTransactionV0V1View, Seq<u8>)> {
        match DeclareTransactionV0V1Fields::parse(s) {
            Some(((class_hash, (max_fee, (nonce, (signature, sender_address)))),
                rest)) => Some((DeclareTransactionV0V1View { class_hash, max_fee, nonce, signature, sender_address },
                rest)),
            None => None,
        }
    }

    proof fn lemma_parse_encoding(content: DeclareTransactionV0V1View, rest: Seq<u8>) {
        reveal(<DeclareTransactionV0V1 as Encode>::valid);
        reveal(<DeclareTransactionV0V1 as Encode>::encoding);
        reveal(<DeclareTransactionV0V1 as Decode>::parse);
        DeclareTransactionV0V1Fields::lemma_parse_encoding(declare_transaction_v0_v1_fields(content), rest);
    }

    fn decode(input: &[u8]) -> (r: Result<(DeclareTransactionV0V1, &[u8]), Malformed>) {
        proof {
            reveal(<DeclareTransactionV0V1 as Decode>::parse);
        }
        let (fields, rest) = match DeclareTransactionV0V1Fields::decode(input) {
            Ok(read) => read,
            Err(e) => return Err(e),
        };
        let (class_hash, (max_fee, (nonce, (signature, sender_address)))) = fields;
        proof {
            lemma_contents_are_views(signature@);
        }
        Ok((DeclareTransactionV0V1 { class_hash, max_fee, nonce, signature, sender_address }, rest))
    }
}

/// The fields of [`DeclareTransactionV2`], as they are stored.
pub type DeclareTransactionV2Fields = (MinimalFelt, (MinimalFelt, (MinimalFelt, (Vec<MinimalFelt>, (MinimalFelt,
    MinimalFelt)))));

/// What is stored of the fields.
pub open spec fn declare_transaction_v2_fields(content: DeclareTransactionV2View) -> (nat, (nat, (nat, (Seq<nat>, (nat,
    nat))))) {
    (content.class_hash, (content.max_fee, (content.nonce, (content.signature, (content.sender_address,
        content.compiled_class_hash)))))
}

impl Encode for DeclareTransactionV2 {
    type Content = DeclareTransactionV2View;

    open spec fn content(&self) -> DeclareTransactionV2View {
        self@
    }

    #[verifier::opaque]
    open spec fn valid(content: DeclareTransactionV2View) -> bool {
        DeclareTransactionV2Fields::valid(declare_transaction_v2_fields(content))
    }

    #[verifier::opaque]
    open spec fn encoding(content: DeclareTransactionV2View) -> Seq<u8> {
        DeclareTransactionV2Fields::encoding(declare_transaction_v2_fields(content))
    }

    fn encode(&self, out: &mut Vec<u8>) {
        proof {
            reveal(<DeclareTransactionV2 as Encode>::valid);
            reveal(<DeclareTransactionV2 as Encode>::encoding);
            lemma_contents_are_views(self.signature@);
        }
        (&self.class_hash, (&self.max_fee, (&self.nonce, (&self.signature, (&self.sender_address,
            &self.compiled_class_hash))))).encode(out);
    }
}

impl Decode for DeclareTransactionV2 {
    #[verifier::opaque]
    open spec fn parse(s: Seq<u8>) -> Option<(DeclareTransactionV2View, Seq<u8>)> {
        match DeclareTransactionV2Fields::parse(s) {
            Some(((class_hash, (max_fee, (nonce, (signature, (sender_address, compiled_class_hash))))),
                rest)) => Some((DeclareTransactionV2View { class_hash, max_fee, nonce, signature, sender_address,
                compiled_class_hash }, rest)),
            None => None,
        }
    }

    proof fn lemma_parse_encoding(content: DeclareTransactionV2View, rest: Seq<u8>) {
        reveal(<DeclareTransactionV2 as Encode>::valid);
        reveal(<DeclareTransactionV2 as Encode>::encoding);
        reveal(<DeclareTransactionV2 as Decode>::parse);
        DeclareTransactionV2Fields::lemma_parse_encoding(declare_transaction_v2_fields(content), rest);
    }

    fn decode(input: &[u8]) -> (r: Result<(DeclareTransactionV2, &[u8]), Malformed>) {
        proof {
            reveal(<DeclareTransactionV2 as Decode>::parse);
        }
        let (fields, rest) = match DeclareTransactionV2Fields::decode(input) {
            Ok(read) => read,
            Err(e) => return Err(e),
        };
        let (class_hash, (max_fee, (nonce, (signature, (sender_address, compiled_class_hash))))) = fields;
        proof {
            lemma_contents_are_views(signature@);
        }
        Ok((DeclareTransactionV2 { class_hash, max_fee, nonce, signature, sender_address, compiled_class_hash },
            rest))
    }
}

/// The fields of [`DeclareTransactionV3`], as they are stored.
pub type DeclareTransactionV3Fields = (MinimalFelt, (MinimalFelt, (DataAvailabilityMode, (DataAvailabilityMode,
    (ResourceBounds, (Tip, (Vec<MinimalFelt>, (Vec<MinimalFelt>, (Vec<MinimalFelt>, (MinimalFelt,
    MinimalFelt))))))))));

/// What is stored of the fields.
pub open spec fn declare_transaction_v3_fields(content: DeclareTransactionV3View) -> (nat, (nat,
    (common::DataAvailabilityMode, (common::DataAvailabilityMode, (common::ResourceBounds, (Tip, (Seq<nat>, (Seq<nat>,
    (Seq<nat>, (nat, nat)))))))))) {
    (content.class_hash, (content.nonce, (content.nonce_data_availability_mode, (content.fee_data_availability_mode,
        (content.resource_bounds, (content.tip, (content.paymaster_data, (content.signature,
        (content.account_deployment_data, (content.sender_address, content.compiled_class_hash))))))))))
}

impl Encode for DeclareTransactionV3 {
    type Content = DeclareTransactionV3View;

    open spec fn content(&self) -> DeclareTransactionV3View {
        self@
    }

    #[verifier::opaque]
    open spec fn valid(content: DeclareTransactionV3View) -> bool {
        DeclareTransactionV3Fields::valid(declare_transaction_v3_fields(content))
    }

    #[verifier::opaque]
    open spec fn encoding(content: DeclareTransactionV3View) -> Seq<u8> {
        DeclareTransactionV3Fields::encoding(declare_transaction_v3_fields(content))
    }

    fn encode(&self, out: &mut Vec<u8>) {
        proof {
            reveal(<DeclareTransactionV3 as Encode>::valid);
            reveal(<DeclareTransactionV3 as Encode>::encoding);
            lemma_contents_are_views(self.paymaster_data@);
            lemma_contents_are_views(self.signature@);
            lemma_contents_are_views(self.account_deployment_data@);
        }
        (&self.class_hash, (&self.nonce, (&self.nonce_data_availability_mode, (&self.fee_data_availability_mode,
            (&self.resource_bounds, (&self.tip, (&self.paymaster_data, (&self.signature,
            (&self.account_deployment_data, (&self.sender_address, &self.compiled_class_hash)))))))))).encode(out);
    }
}

impl Decode for DeclareTransactionV3 {
    #[verifier::opaque]
    open spec fn parse(s: Seq<u8>) -> Option<(DeclareTransactionV3View, Seq<u8>)> {
        match DeclareTransactionV3Fields::parse(s) {
            Some(((class_hash, (nonce, (nonce_data_availability_mode, (fee_data_availability_mode, (resource_bounds,
                (tip, (paymaster_data, (signature, (account_deployment_data, (sender_address,
                compiled_class_hash)))))))))), rest)) => Some((DeclareTransactionV3View { class_hash, nonce,
                nonce_data_availability_mode, fee_data_availability_mode, resource_bounds, tip, paymaster_data,
                signature, account_deployment_data, sender_address, compiled_class_hash }, rest)),
            None => None,
        }
    }

    proof fn lemma_parse_encoding(content: DeclareTransactionV3View, rest: Seq<u8>) {
        reveal(<DeclareTransactionV3 as Encode>::valid);
        reveal(<DeclareTransactionV3 as Encode>::encoding);
        reveal(<DeclareTransactionV3 as Decode>::parse);
        DeclareTransactionV3Fields::lemma_parse_encoding(declare_transaction_v3_fields(content), rest);
    }

    fn decode(input: &[u8]) -> (r: Result<(DeclareTransactionV3, &[u8]), Malformed>) {
        proof {
            reveal(<DeclareTransactionV3 as Decode>::parse);
        }
        let (fields, rest) = match DeclareTransactionV3Fields::decode(input) {
            Ok(read) => read,
            Err(e) => return Err(e),
        };
        let (class_hash, (nonce, (nonce_data_availability_mode, (fee_data_availability_mode, (resource_bounds, (tip,
            (paymaster_data, (signature, (account_deployment_data, (sender_address,
            compiled_class_hash)))))))))) = fields;
        proof {
            lemma_contents_are_views(paymaster_data@);
            lemma_contents_are_views(signature@);
            lemma_contents_are_views(account_deployment_data@);
        }
        Ok((DeclareTransactionV3 { class_hash, nonce, nonce_data_availability_mode, fee_data_availability_mode,
            resource_bounds, tip, paymaster_data, signature, account_deployment_data, sender_address,
            compiled_class_hash }, rest))
    }
}

/// The fields of [`DeployTransaction`], as they are stored.
pub type DeployTransactionFields = (MinimalFelt, (MinimalFelt, (MinimalFelt, (MinimalFelt, Vec<MinimalFelt>))));

/// What is stored of the fields.
pub open spec fn deploy_transaction_fields(content: DeployTransactionView) -> (nat, (nat, (nat, (nat, Seq<nat>)))) {
    (content.contract_address, (content.version, (content.contract_address_salt, (content.class_hash,
        content.constructor_calldata))))
}

impl Encode for DeployTransaction {
    type Content = DeployTransactionView;

    open spec fn content(&self) -> DeployTransactionView {
        self@
    }

    #[verifier::opaque]
    open spec fn valid(content: DeployTransactionView) -> bool {
        DeployTransactionFields::valid(deploy_transaction_fields(content))
    }

    #[verifier::opaque]
    open spec fn encoding(content: DeployTransactionView) -> Seq<u8> {
        DeployTransactionFields::encoding(deploy_transaction_fields(content))
    }

    fn encode(&self, out: &mut Vec<u8>) {
        proof {
            reveal(<DeployTransaction as Encode>::valid);
            reveal(<DeployTransaction as Encode>::encoding);
            lemma_contents_are_views(self.constructor_calldata@);
        }
        (&self.contract_address, (&self.version, (&self.contract_address_salt, (&self.class_hash,
            &self.constructor_calldata)))).encode(out);
    }
}

impl Decode for DeployTransaction {
    #[verifier::opaque]
    open spec fn parse(s: Seq<u8>) -> Option<(DeployTransactionView, Seq<u8>)> {
        match DeployTransactionFields::parse(s) {
            Some(((contract_address, (version, (contract_address_salt, (class_hash, constructor_calldata)))),
                rest)) => Some((DeployTransactionView { contract_address, version, contract_address_salt, class_hash,
                constructor_calldata }, rest)),
            None => None,
        }
    }

    proof fn lemma_parse_encoding(content: DeployTransactionView, rest: Seq<u8>) {
        reveal(<DeployTransaction as Encode>::valid);
        reveal(<DeployTransaction as Encode>::encoding);
        reveal(<DeployTransaction as Decode>::parse);
        DeployTransactionFields::lemma_parse_encoding(deploy_transaction_fields(content), rest);
    }

    fn decode(input: &[u8]) -> (r: Result<(DeployTransaction, &[u8]), Malformed>) {
        proof {
            reveal(<DeployTransaction as Decode>::parse);
        }
        let (fields, rest) = match DeployTransactionFields::decode(input) {
            Ok(read) => read,
            Err(e) => return Err(e),
        };
        let (contract_address, (version, (contract_address_salt, (class_hash, constructor_calldata)))) = fields;
        proof {
            lemma_contents_are_views(constructor_calldata@);
        }
        Ok((DeployTransaction { contract_address, version, contract_address_salt, class_hash, constructor_calldata },
            rest))
    }
}

/// The fields of [`DeployAccountTransactionV1`], as they are stored.
pub type DeployAccountTransactionV1Fields = (MinimalFelt, (MinimalFelt, (Vec<MinimalFelt>, (MinimalFelt, (MinimalFelt,
    (Vec<MinimalFelt>, MinimalFelt))))));

/// What is stored of the fields.
pub open spec fn deploy_account_transaction_v1_fields(content: DeployAccountTransactionV1View) -> (nat, (nat,
    (Seq<nat>, (nat, (nat, (Seq<nat>, nat)))))) {
    (content.contract_address, (content.max_fee, (content.signature, (content.nonce, (content.contract_address_salt,
        (content.constructor_calldata, content.class_hash))))))
}

impl Encode for DeployAccountTransactionV1 {
    type Content = DeployAccountTransactionV1View;

    open spec fn content(&self) -> DeployAccountTransactionV1View {
        self@
    }

    #[verifier::opaque]
    open spec fn valid(content: DeployAccountTransactionV1View) -> bool {
        DeployAccountTransactionV1Fields::valid(deploy_account_transaction_v1_fields(content))
    }

    #[verifier::opaque]
    open spec fn encoding(content: DeployAccountTransactionV1View) -> Seq<u8> {
        DeployAccountTransactionV1Fields::encoding(deploy_account_transaction_v1_fields(content))
    }

    fn encode(&self, out: &mut Vec<u8>) {
        proof {
            reveal(<DeployAccountTransactionV1 as Encode>::valid);
            reveal(<DeployAccountTransactionV1 as Encode>::encoding);
            lemma_contents_are_views(self.signature@);
            lemma_contents_are_views(self.constructor_calldata@);
        }
        (&self.contract_address, (&self.max_fee, (&self.signature, (&self.nonce, (&self.contract_address_salt,
            (&self.constructor_calldata, &self.class_hash)))))).encode(out);
    }
}

impl Decode for DeployAccountTransactionV1 {
    #[verifier::opaque]
    open spec fn parse(s: Seq<u8>) -> Option<(DeployAccountTransactionV1View, Seq<u8>)> {
        match DeployAccountTransactionV1Fields::parse(s) {
            Some(((contract_address, (max_fee, (signature, (nonce, (contract_address_salt, (constructor_calldata,
                class_hash)))))), rest)) => Some((DeployAccountTransactionV1View { contract_address, max_fee,
                signature, nonce, contract_address_salt, constructor_calldata, class_hash }, rest)),
            None => None,
        }
    }

    proof fn lemma_parse_encoding(content: DeployAccountTransactionV1View, rest: Seq<u8>) {
        reveal(<DeployAccountTransactionV1 as Encode>::valid);
        reveal(<DeployAccountTransactionV1 as Encode>::encoding);
        reveal(<DeployAccountTransactionV1 as Decode>::parse);
        DeployAccountTransactionV1Fields::lemma_parse_encoding(deploy_account_transaction_v1_fields(content), rest);
    }

    fn decode(input: &[u8]) -> (r: Result<(DeployAccountTransactionV1, &[u8]), Malformed>) {
        proof {
            reveal(<DeployAccountTransactionV1 as Decode>::parse);
        }
        let (fields, rest) = match DeployAccountTransactionV1Fields::decode(input) {
            Ok(read) => read,
            Err(e) => return Err(e),
        };
        let (contract_address, (max_fee, (signature, (nonce, (contract_address_salt, (constructor_calldata,
            class_hash)))))) = fields;
        proof {
            lemma_contents_are_views(signature@);
            lemma_contents_are_views(constructor_calldata@);
        }
        Ok((DeployAccountTransactionV1 { contract_address, max_fee, signature, nonce, contract_address_salt,
            constructor_calldata, class_hash }, rest))
    }
}

/// The fields of [`DeployAccountTransactionV3`], as they are stored.
pub type DeployAccountTransactionV3Fields = (MinimalFelt, (Vec<MinimalFelt>, (MinimalFelt, (DataAvailabilityMode,
    (DataAvailabilityMode, (ResourceBounds, (Tip, (Vec<MinimalFelt>, (MinimalFelt, (Vec<MinimalFelt>,
    MinimalFelt))))))))));

/// What is stored of the fields.
pub open spec fn deploy_account_transaction_v3_fields(content: DeployAccountTransactionV3View) -> (nat, (Seq<nat>,
    (nat, (common::DataAvailabilityMode, (common::DataAvailabilityMode, (common::ResourceBounds, (Tip, (Seq<nat>, (nat,
    (Seq<nat>, nat)))))))))) {
    (content.contract_address, (content.signature, (content.nonce, (content.nonce_data_availability_mode,
        (content.fee_data_availability_mode, (content.resource_bounds, (content.tip, (content.paymaster_data,
        (content.contract_address_salt, (content.constructor_calldata, content.class_hash))))))))))
}

impl Encode for DeployAccountTransactionV3 {
    type Content = DeployAccountTransactionV3View;

    open spec fn content(&self) -> DeployAccountTransactionV3View {
        self@
    }

    #[verifier::opaque]
    open spec fn valid(content: DeployAccountTransactionV3View) -> bool {
        DeployAccountTransactionV3Fields::valid(deploy_account_transaction_v3_fields(content))
    }

    #[verifier::opaque]
    open spec fn encoding(content: DeployAccountTransactionV3View) -> Seq<u8> {
        DeployAccountTransactionV3Fields::encoding(deploy_account_transaction_v3_fields(content))
    }

    fn encode(&self, out: &mut Vec<u8>) {
        proof {
            reveal(<DeployAccountTransactionV3 as Encode>::valid);
            reveal(<DeployAccountTransactionV3 as Encode>::encoding);
            lemma_contents_are_views(self.signature@);
            lemma_contents_are_views(self.paymaster_data@);
            lemma_contents_are_views(self.constructor_calldata@);
        }
        (&self.sender_address, (&self.signature, (&self.nonce, (&self.nonce_data_availability_mode,
            (&self.fee_data_availability_mode, (&self.resource_bounds, (&self.tip, (&self.paymaster_data,
            (&self.contract_address_salt, (&self.constructor_calldata, &self.class_hash)))))))))).encode(out);
    }
}

impl Decode for DeployAccountTransactionV3 {
    #[verifier::opaque]
    open spec fn parse(s: Seq<u8>) -> Option<(DeployAccountTransactionV3View, Seq<u8>)> {
        match DeployAccountTransactionV3Fields::parse(s) {
            Some(((contract_address, (signature, (nonce, (nonce_data_availability_mode, (fee_data_availability_mode,
                (resource_bounds, (tip, (paymaster_data, (contract_address_salt, (constructor_calldata,
                class_hash)))))))))), rest)) => Some((DeployAccountTransactionV3View { contract_address, signature,
                nonce, nonce_data_availability_mode, fee_data_availability_mode, resource_bounds, tip, paymaster_data,
                contract_address_salt, constructor_calldata, class_hash }, rest)),
            None => None,
        }
    }

    proof fn lemma_parse_encoding(content: DeployAccountTransactionV3View, rest: Seq<u8>) {
        reveal(<DeployAccountTransactionV3 as Encode>::valid);
        reveal(<DeployAccountTransactionV3 as Encode>::encoding);
        reveal(<DeployAccountTransactionV3 as Decode>::parse);
        DeployAccountTransactionV3Fields::lemma_parse_encoding(deploy_account_transaction_v3_fields(content), rest);
    }

    fn decode(input: &[u8]) -> (r: Result<(DeployAccountTransactionV3, &[u8]), Malformed>) {
        proof {
            reveal(<DeployAccountTransactionV3 as Decode>::parse);
        }
        let (fields, rest) = match DeployAccountTransactionV3Fields::decode(input) {
            Ok(read) => read,
            Err(e) => return Err(e),
        };
        let (sender_address, (signature, (nonce, (nonce_data_availability_mode, (fee_data_availability_mode,
            (resource_bounds, (tip, (paymaster_data, (contract_address_salt, (constructor_calldata,
            class_hash)))))))))) = fields;
        proof {
            lemma_contents_are_views(signature@);
            lemma_contents_are_views(paymaster_data@);
            lemma_contents_are_views(constructor_calldata@);
        }
        Ok((DeployAccountTransactionV3 { sender_address, signature, nonce, nonce_data_availability_mode,
            fee_data_availability_mode, resource_bounds, tip, paymaster_data, contract_address_salt,
            constructor_calldata, class_hash }, rest))
    }
}

/// The fields of [`InvokeTransactionV0`], as they are stored.
pub type InvokeTransactionV0Fields = (Vec<MinimalFelt>, (MinimalFelt, (MinimalFelt, (Option<EntryPointType>,
    (MinimalFelt, Vec<MinimalFelt>)))));

/// What is stored of the fields.
pub open spec fn invoke_transaction_v0_fields(content: InvokeTransactionV0View) -> (Seq<nat>, (nat, (nat,
    (Option<common::EntryPointType>, (nat, Seq<nat>))))) {
    (content.calldata, (content.sender_address, (content.entry_point_selector, (content.entry_point_type,
        (content.max_fee, content.signature)))))
}

impl Encode for InvokeTransactionV0 {
    type Content = InvokeTransactionV0View;

    open spec fn content(&self) -> InvokeTransactionV0View {
        self@
    }

    #[verifier::opaque]
    open spec fn valid(content: InvokeTransactionV0View) -> bool {
        InvokeTransactionV0Fields::valid(invoke_transaction_v0_fields(content))
    }

    #[verifier::opaque]
    open spec fn encoding(content: InvokeTransactionV0View) -> Seq<u8> {
        InvokeTransactionV0Fields::encoding(invoke_transaction_v0_fields(content))
    }

    fn encode(&self, out: &mut Vec<u8>) {
        proof {
            reveal(<InvokeTransactionV0 as Encode>::valid);
            reveal(<InvokeTransactionV0 as Encode>::encoding);
            lemma_contents_are_views(self.calldata@);
            lemma_contents_are_views(self.signature@);
        }
        (&self.calldata, (&self.sender_address, (&self.entry_point_selector, (&self.entry_point_type, (&self.max_fee,
            &self.signature))))).encode(out);
    }
}

impl Decode for InvokeTransactionV0 {
    #[verifier::opaque]
    open spec fn parse(s: Seq<u8>) -> Option<(InvokeTransactionV0View, Seq<u8>)> {
        match InvokeTransactionV0Fields::parse(s) {
            Some(((calldata, (sender_address, (entry_point_selector, (entry_point_type, (max_fee, signature))))),
                rest)) => Some((InvokeTransactionV0View { calldata, sender_address, entry_point_selector,
                entry_point_type, max_fee, signature }, rest)),
            None => None,
        }
    }

    proof fn lemma_parse_encoding(content: InvokeTransactionV0View, rest: Seq<u8>) {
        reveal(<InvokeTransactionV0 as Encode>::valid);
        reveal(<InvokeTransactionV0 as Encode>::encoding);
        reveal(<InvokeTransactionV0 as Decode>::parse);
        InvokeTransactionV0Fields::lemma_parse_encoding(invoke_transaction_v0_fields(content), rest);
    }

    fn decode(input: &[u8]) -> (r: Result<(InvokeTransactionV0, &[u8]), Malformed>) {
        proof {
            reveal(<InvokeTransactionV0 as Decode>::parse);
        }
        let (fields, rest) = match InvokeTransactionV0Fields::decode(input) {
            Ok(read) => read,
            Err(e) => return Err(e),
        };
        let (calldata, (sender_address, (entry_point_selector, (entry_point_type, (max_fee, signature))))) = fields;
        proof {
            lemma_contents_are_views(calldata@);
            lemma_contents_are_views(signature@);
        }
        Ok((InvokeTransactionV0 { calldata, sender_address, entry_point_selector, entry_point_type, max_fee,
            signature }, rest))
    }
}

/// The fields of [`InvokeTransactionV1`], as they are stored.
pub type InvokeTransactionV1Fields = (Vec<MinimalFelt>, (MinimalFelt, (MinimalFelt, (Vec<MinimalFelt>,
    MinimalFelt))));

/// What is stored of the fields.
pub open spec fn invoke_transaction_v1_fields(content: InvokeTransactionV1View) -> (Seq<nat>, (nat, (nat, (Seq<nat>,
    nat)))) {
    (content.calldata, (content.sender_address, (content.max_fee, (content.signature, content.nonce))))
}

impl Encode for InvokeTransactionV1 {
    type Content = InvokeTransactionV1View;

    open spec fn content(&self) -> InvokeTransactionV1View {
        self@
    }

    #[verifier::opaque]
    open spec fn valid(content: InvokeTransactionV1View) -> bool {
        InvokeTransactionV1Fields::valid(invoke_transaction_v1_fields(content))
    }

    #[verifier::opaque]
    open spec fn encoding(content: InvokeTransactionV1View) -> Seq<u8> {
        InvokeTransactionV1Fields::encoding(invoke_transaction_v1_fields(content))
    }

    fn encode(&self, out: &mut Vec<u8>) {
        proof {
            reveal(<InvokeTransactionV1 as Encode>::valid);
            reveal(<InvokeTransactionV1 as Encode>::encoding);
            lemma_contents_are_views(self.calldata@);
            lemma_contents_are_views(self.signature@);
        }
        (&self.calldata, (&self.sender_address, (&self.max_fee, (&self.signature, &self.nonce)))).encode(out);
    }
}

impl Decode for InvokeTransactionV1 {
    #[verifier::opaque]
    open spec fn parse(s: Seq<u8>) -> Option<(InvokeTransactionV1View, Seq<u8>)> {
        match InvokeTransactionV1Fields::parse(s) {
            Some(((calldata, (sender_address, (max_fee, (signature, nonce)))),
                rest)) => Some((InvokeTransactionV1View { calldata, sender_address, max_fee, signature, nonce },
                rest)),
            None => None,
        }
    }

    proof fn lemma_parse_encoding(content: InvokeTransactionV1View, rest: Seq<u8>) {
        reveal(<InvokeTransactionV1 as Encode>::valid);
        reveal(<InvokeTransactionV1 as Encode>::encoding);
        reveal(<InvokeTransactionV1 as Decode>::parse);
        InvokeTransactionV1Fields::lemma_parse_encoding(invoke_transaction_v1_fields(content), rest);
    }

    fn decode(input: &[u8]) -> (r: Result<(InvokeTransactionV1, &[u8]), Malformed>) {
        proof {
            reveal(<InvokeTransactionV1 as Decode>::parse);
        }
        let (fields, rest) = match InvokeTransactionV1Fields::decode(input) {
            Ok(read) => read,
            Err(e) => return Err(e),
        };
        let (calldata, (sender_address, (max_fee, (signature, nonce)))) = fields;
        proof {
            lemma_contents_are_views(calldata@);
            lemma_contents_are_views(signature@);
        }
        Ok((InvokeTransactionV1 { calldata, sender_address, max_fee, signature, nonce }, rest))
    }
}

/// The fields of [`InvokeTransactionV3`], as they are stored.
pub type InvokeTransactionV3Fields = (Vec<MinimalFelt>, (MinimalFelt, (DataAvailabilityMode, (DataAvailabilityMode,
    (ResourceBounds, (Tip, (Vec<MinimalFelt>, (Vec<MinimalFelt>, (Vec<MinimalFelt>, MinimalFelt)))))))));

/// What is stored of the fields.
pub open spec fn invoke_transaction_v3_fields(content: InvokeTransactionV3View) -> (Seq<nat>, (nat,
    (common::DataAvailabilityMode, (common::DataAvailabilityMode, (common::ResourceBounds, (Tip, (Seq<nat>, (Seq<nat>,
    (Seq<nat>, nat))))))))) {
    (content.signature, (content.nonce, (content.nonce_data_availability_mode, (content.fee_data_availability_mode,
        (content.resource_bounds, (content.tip, (content.paymaster_data, (content.account_deployment_data,
        (content.calldata, content.sender_address)))))))))
}

impl Encode for InvokeTransactionV3 {
    type Content = InvokeTransactionV3View;

    open spec fn content(&self) -> InvokeTransactionV3View {
        self@
    }

    #[verifier::opaque]
    open spec fn valid(content: InvokeTransactionV3View) -> bool {
        InvokeTransactionV3Fields::valid(invoke_transaction_v3_fields(content))
    }

    #[verifier::opaque]
    open spec fn encoding(content: InvokeTransactionV3View) -> Seq<u8> {
        InvokeTransactionV3Fields::encoding(invoke_transaction_v3_fields(content))
    }

    fn encode(&self, out: &mut Vec<u8>) {
        proof {
            reveal(<InvokeTransactionV3 as Encode>::valid);
            reveal(<InvokeTransactionV3 as Encode>::encoding);
            lemma_contents_are_views(self.signature@);
            lemma_contents_are_views(self.paymaster_data@);
            lemma_contents_are_views(self.account_deployment_data@);
            lemma_contents_are_views(self.calldata@);
        }
        (&self.signature, (&self.nonce, (&self.nonce_data_availability_mode, (&self.fee_data_availability_mode,
            (&self.resource_bounds, (&self.tip, (&self.paymaster_data, (&self.account_deployment_data, (&self.calldata,
            &self.sender_address))))))))).encode(out);
    }
}

impl Decode for InvokeTransactionV3 {
    #[verifier::opaque]
    open spec fn parse(s: Seq<u8>) -> Option<(InvokeTransactionV3View, Seq<u8>)> {
        match InvokeTransactionV3Fields::parse(s) {
            Some(((signature, (nonce, (nonce_data_availability_mode, (fee_data_availability_mode, (resource_bounds,
                (tip, (paymaster_data, (account_deployment_data, (calldata, sender_address))))))))),
                rest)) => Some((InvokeTransactionV3View { signature, nonce, nonce_data_availability_mode,
                fee_data_availability_mode, resource_bounds, tip, paymaster_data, account_deployment_data, calldata,
                sender_address }, rest)),
            None => None,
        }
    }

    proof fn lemma_parse_encoding(content: InvokeTransactionV3View, rest: Seq<u8>) {
        reveal(<InvokeTransactionV3 as Encode>::valid);
        reveal(<InvokeTransactionV3 as Encode>::encoding);
        reveal(<InvokeTransactionV3 as Decode>::parse);
        InvokeTransactionV3Fields::lemma_parse_encoding(invoke_transaction_v3_fields(content), rest);
    }

    fn decode(input: &[u8]) -> (r: Result<(InvokeTransactionV3, &[u8]), Malformed>) {
        proof {
            reveal(<InvokeTransactionV3 as Decode>::parse);
        }
        let (fields, rest) = match InvokeTransactionV3Fields::decode(input) {
            Ok(read) => read,
            Err(e) => return Err(e),
        };
        let (signature, (nonce, (nonce_data_availability_mode, (fee_data_availability_mode, (resource_bounds, (tip,
            (paymaster_data, (account_deployment_data, (calldata, sender_address))))))))) = fields;
        proof {
            lemma_contents_are_views(signature@);
            lemma_contents_are_views(paymaster_data@);
            lemma_contents_are_views(account_deployment_data@);
            lemma_contents_are_views(calldata@);
        }
        Ok((InvokeTransactionV3 { signature, nonce, nonce_data_availability_mode, fee_data_availability_mode,
            resource_bounds, tip, paymaster_data, account_deployment_data, calldata, sender_address }, rest))
    }
}

/// The fields of [`L1HandlerTransactionV0`], as they are stored.
pub type L1HandlerTransactionV0Fields = (MinimalFelt, (MinimalFelt, (MinimalFelt, Vec<MinimalFelt>)));

/// What is stored of the fields.
pub open spec fn l1_handler_transaction_v0_fields(content: L1HandlerTransactionView) -> (nat, (nat, (nat,
    Seq<nat>))) {
    (content.contract_address, (content.entry_point_selector, (content.nonce, content.calldata)))
}

impl Encode for L1HandlerTransactionV0 {
    type Content = L1HandlerTransactionView;

    open spec fn content(&self) -> L1HandlerTransactionView {
        self@
    }

    #[verifier::opaque]
    open spec fn valid(content: L1HandlerTransactionView) -> bool {
        L1HandlerTransactionV0Fields::valid(l1_handler_transaction_v0_fields(content))
    }

    #[verifier::opaque]
    open spec fn encoding(content: L1HandlerTransactionView) -> Seq<u8> {
        L1HandlerTransactionV0Fields::encoding(l1_handler_transaction_v0_fields(content))
    }

    fn encode(&self, out: &mut Vec<u8>) {
        proof {
            reveal(<L1HandlerTransactionV0 as Encode>::valid);
            reveal(<L1HandlerTransactionV0 as Encode>::encoding);
            lemma_contents_are_views(self.calldata@);
        }
        (&self.contract_address, (&self.entry_point_selector, (&self.nonce, &self.calldata))).encode(out);
    }
}

impl Decode for L1HandlerTransactionV0 {
    #[verifier::opaque]
    open spec fn parse(s: Seq<u8>) -> Option<(L1HandlerTransactionView, Seq<u8>)> {
        match L1HandlerTransactionV0Fields::parse(s) {
            Some(((contract_address, (entry_point_selector, (nonce, calldata))),
                rest)) => Some((L1HandlerTransactionView { contract_address, entry_point_selector, nonce, calldata },
                rest)),
            None => None,
        }
    }

    proof fn lemma_parse_encoding(content: L1HandlerTransactionView, rest: Seq<u8>) {
        reveal(<L1HandlerTransactionV0 as Encode>::valid);
        reveal(<L1HandlerTransactionV0 as Encode>::encoding);
        reveal(<L1HandlerTransactionV0 as Decode>::parse);
        L1HandlerTransactionV0Fields::lemma_parse_encoding(l1_handler_transaction_v0_fields(content), rest);
    }

    fn decode(input: &[u8]) -> (r: Result<(L1HandlerTransactionV0, &[u8]), Malformed>) {
        proof {
            reveal(<L1HandlerTransactionV0 as Decode>::parse);
        }
        let (fields, rest) = match L1HandlerTransactionV0Fields::decode(input) {
            Ok(read) => read,
            Err(e) => return Err(e),
        };
        let (contract_address, (entry_point_selector, (nonce, calldata))) = fields;
        proof {
            lemma_contents_are_views(calldata@);
        }
        Ok((L1HandlerTransactionV0 { contract_address, entry_point_selector, nonce, calldata }, rest))
    }
}

impl Encode for TransactionVariantV0 {
    type Content = TransactionVariantView;

    open spec fn content(&self) -> TransactionVariantView {
        self@
    }

    open spec fn valid(content: TransactionVariantView) -> bool {
        match content {
            TransactionVariantView::DeclareV0(tx) => DeclareTransactionV0V1::valid(tx),
            TransactionVariantView::DeclareV1(tx) => DeclareTransactionV0V1::valid(tx),
            TransactionVariantView::DeclareV2(tx) => DeclareTransactionV2::valid(tx),
            TransactionVariantView::DeclareV3(tx) => DeclareTransactionV3::valid(tx),
            TransactionVariantView::Deploy(tx) => DeployTransaction::valid(tx),
            TransactionVariantView::DeployAccountV1(tx) => DeployAccountTransactionV1::valid(tx),
            TransactionVariantView::DeployAccountV3(tx) => DeployAccountTransactionV3::valid(tx),
            TransactionVariantView::InvokeV0(tx) => InvokeTransactionV0::valid(tx),
            TransactionVariantView::InvokeV1(tx) => InvokeTransactionV1::valid(tx),
            TransactionVariantView::InvokeV3(tx) => InvokeTransactionV3::valid(tx),
            TransactionVariantView::L1Handler(tx) => L1HandlerTransactionV0::valid(tx),
        }
    }

    open spec fn encoding(content: TransactionVariantView) -> Seq<u8> {
        match content {
            TransactionVariantView::DeclareV0(tx) => varint(0) + DeclareTransactionV0V1::encoding(tx),
            TransactionVariantView::DeclareV1(tx) => varint(1) + DeclareTransactionV0V1::encoding(tx),
            TransactionVariantView::DeclareV2(tx) => varint(2) + DeclareTransactionV2::encoding(tx),
            TransactionVariantView::DeclareV3(tx) => varint(3) + DeclareTransactionV3::encoding(tx),
            TransactionVariantView::Deploy(tx) => varint(4) + DeployTransaction::encoding(tx),
            TransactionVariantView::DeployAccountV1(tx) => varint(5) + DeployAccountTransactionV1::encoding(tx),
            TransactionVariantView::DeployAccountV3(tx) => varint(6) + DeployAccountTransactionV3::encoding(tx),
            TransactionVariantView::InvokeV0(tx) => varint(7) + InvokeTransactionV0::encoding(tx),
            TransactionVariantView::InvokeV1(tx) => varint(8) + InvokeTransactionV1::encoding(tx),
            TransactionVariantView::InvokeV3(tx) => varint(9) + InvokeTransactionV3::encoding(tx),
            TransactionVariantView::L1Handler(tx) => varint(10) + L1HandlerTransactionV0::encoding(tx),
        }
    }

    fn encode(&self, out: &mut Vec<u8>) {
        match self {
            TransactionVariantV0::DeclareV0(tx) => {
                encode_integer(0, out);
                tx.encode(out);
                proof {
                    lemma_append_assoc(old(out)@, varint(0), DeclareTransactionV0V1::encoding(tx@));
                }
            },
            TransactionVariantV0::DeclareV1(tx) => {
                encode_integer(1, out);
                tx.encode(out);
                proof {
                    lemma_append_assoc(old(out)@, varint(1), DeclareTransactionV0V1::encoding(tx@));
                }
            },
            TransactionVariantV0::DeclareV2(tx) => {
                encode_integer(2, out);
                tx.encode(out);
                proof {
                    lemma_append_assoc(old(out)@, varint(2), DeclareTransactionV2::encoding(tx@));
                }
            },
            TransactionVariantV0::DeclareV3(tx) => {
                encode_integer(3, out);
                tx.encode(out);
                proof {
                    lemma_append_assoc(old(out)@, varint(3), DeclareTransactionV3::encoding(tx@));
                }
            },
            TransactionVariantV0::Deploy(tx) => {
                encode_integer(4, out);
                tx.encode(out);
                proof {
                    lemma_append_assoc(old(out)@, varint(4), DeployTransaction::encoding(tx@));
                }
            },
            TransactionVariantV0::DeployAccountV1(tx) => {
                encode_integer(5, out);
                tx.encode(out);
                proof {
                    lemma_append_assoc(old(out)@, varint(5), DeployAccountTransactionV1::encoding(tx@));
                }
            },
            TransactionVariantV0::DeployAccountV3(tx) => {
                encode_integer(6, out);
                tx.encode(out);
                proof {
                    lemma_append_assoc(old(out)@, varint(6), DeployAccountTransactionV3::encoding(tx@));
                }
            },
            TransactionVariantV0::InvokeV0(tx) => {
                encode_integer(7, out);
                tx.encode(out);
                proof {
                    lemma_append_assoc(old(out)@, varint(7), InvokeTransactionV0::encoding(tx@));
                }
            },
            TransactionVariantV0::InvokeV1(tx) => {
                encode_integer(8, out);
                tx.encode(out);
                proof {
                    lemma_append_assoc(old(out)@, varint(8), InvokeTransactionV1::encoding(tx@));
                }
            },
            TransactionVariantV0::InvokeV3(tx) => {
                encode_integer(9, out);
                tx.encode(out);
                proof {
                    lemma_append_assoc(old(out)@, varint(9), InvokeTransactionV3::encoding(tx@));
                }
            },
            TransactionVariantV0::L1HandlerV0(tx) => {
                encode_integer(10, out);
                tx.encode(out);
                proof {
                    lemma_append_assoc(old(out)@, varint(10), L1HandlerTransactionV0::encoding(tx@));
                }
            },
        }
    }
}

impl Decode for TransactionVariantV0 {
    open spec fn parse(s: Seq<u8>) -> Option<(TransactionVariantView, Seq<u8>)> {
        match unvarint(s, 4) {
            Some((n, tail)) => if n == 0 {
                match DeclareTransactionV0V1::parse(tail) {
                    Some((tx, rest)) => Some((TransactionVariantView::DeclareV0(tx), rest)),
                    None => None,
                }
            } else if n == 1 {
                match DeclareTransactionV0V1::parse(tail) {
                    Some((tx, rest)) => Some((TransactionVariantView::DeclareV1(tx), rest)),
                    None => None,
                }
            } else if n == 2 {
                match DeclareTransactionV2::parse(tail) {
                    Some((tx, rest)) => Some((TransactionVariantView::DeclareV2(tx), rest)),
                    None => None,
                }
            } else if n == 3 {
                match DeclareTransactionV3::parse(tail) {
                    Some((tx, rest)) => Some((TransactionVariantView::DeclareV3(tx), rest)),
                    None => None,
                }
            } else if n == 4 {
                match DeployTransaction::parse(tail) {
                    Some((tx, rest)) => Some((TransactionVariantView::Deploy(tx), rest)),
                    None => None,
                }
            } else if n == 5 {
                match DeployAccountTransactionV1::parse(tail) {
                    Some((tx, rest)) => Some((TransactionVariantView::DeployAccountV1(tx), rest)),
                    None => None,
                }
            } else if n == 6 {
                match DeployAccountTransactionV3::parse(tail) {
                    Some((tx, rest)) => Some((TransactionVariantView::DeployAccountV3(tx), rest)),
                    None => None,
                }
            } else if n == 7 {
                match InvokeTransactionV0::parse(tail) {
                    Some((tx, rest)) => Some((TransactionVariantView::InvokeV0(tx), rest)),
                    None => None,
                }
            } else if n == 8 {
                match InvokeTransactionV1::parse(tail) {
                    Some((tx, rest)) => Some((TransactionVariantView::InvokeV1(tx), rest)),
                    None => None,
                }
            } else if n == 9 {
                match InvokeTransactionV3::parse(tail) {
                    Some((tx, rest)) => Some((TransactionVariantView::InvokeV3(tx), rest)),
                    None => None,
                }
            } else if n == 10 {
                match L1HandlerTransactionV0::parse(tail) {
                    Some((tx, rest)) => Some((TransactionVariantView::L1Handler(tx), rest)),
                    None => None,
                }
            } else {
                None
            },
            None => None,
        }
    }

    proof fn lemma_parse_encoding(content: TransactionVariantView, rest: Seq<u8>) {
        lemma_pow256_values();
        match content {
            TransactionVariantView::DeclareV0(tx) => {
                lemma_append_assoc(varint(0), DeclareTransactionV0V1::encoding(tx), rest);
                lemma_unvarint(0, 4, DeclareTransactionV0V1::encoding(tx) + rest);
                DeclareTransactionV0V1::lemma_parse_encoding(tx, rest);
            },
            TransactionVariantView::DeclareV1(tx) => {
                lemma_append_assoc(varint(1), DeclareTransactionV0V1::encoding(tx), rest);
                lemma_unvarint(1, 4, DeclareTransactionV0V1::encoding(tx) + rest);
                DeclareTransactionV0V1::lemma_parse_encoding(tx, rest);
            },
            TransactionVariantView::DeclareV2(tx) => {
                lemma_append_assoc(varint(2), DeclareTransactionV2::encoding(tx), rest);
                lemma_unvarint(2, 4, DeclareTransactionV2::encoding(tx) + rest);
                DeclareTransactionV2::lemma_parse_encoding(tx, rest);
            },
            TransactionVariantView::DeclareV3(tx) => {
                lemma_append_assoc(varint(3), DeclareTransactionV3::encoding(tx), rest);
                lemma_unvarint(3, 4, DeclareTransactionV3::encoding(tx) + rest);
                DeclareTransactionV3::lemma_parse_encoding(tx, rest);
            },
            TransactionVariantView::Deploy(tx) => {
                lemma_append_assoc(varint(4), DeployTransaction::encoding(tx), rest);
                lemma_unvarint(4, 4, DeployTransaction::encoding(tx) + rest);
                DeployTransaction::lemma_parse_encoding(tx, rest);
            },
            TransactionVariantView::DeployAccountV1(tx) => {
                lemma_append_assoc(varint(5), DeployAccountTransactionV1::encoding(tx), rest);
                lemma_unvarint(5, 4, DeployAccountTransactionV1::encoding(tx) + rest);
                DeployAccountTransactionV1::lemma_parse_encoding(tx, rest);
            },
            TransactionVariantView::DeployAccountV3(tx) => {
                lemma_append_assoc(varint(6), DeployAccountTransactionV3::encoding(tx), rest);
                lemma_unvarint(6, 4, DeployAccountTransactionV3::encoding(tx) + rest);
                DeployAccountTransactionV3::lemma_parse_encoding(tx, rest);
            },
            TransactionVariantView::InvokeV0(tx) => {
                lemma_append_assoc(varint(7), InvokeTransactionV0::encoding(tx), rest);
                lemma_unvarint(7, 4, InvokeTransactionV0::encoding(tx) + rest);
                InvokeTransactionV0::lemma_parse_encoding(tx, rest);
            },
            TransactionVariantView::InvokeV1(tx) => {
                lemma_append_assoc(varint(8), InvokeTransactionV1::encoding(tx), rest);
                lemma_unvarint(8, 4, InvokeTransactionV1::encoding(tx) + rest);
                InvokeTransactionV1::lemma_parse_encoding(tx, rest);
            },
            TransactionVariantView::InvokeV3(tx) => {
                lemma_append_assoc(varint(9), InvokeTransactionV3::encoding(tx), rest);
                lemma_unvarint(9, 4, InvokeTransactionV3::encoding(tx) + rest);
                InvokeTransactionV3::lemma_parse_encoding(tx, rest);
            },
            TransactionVariantView::L1Handler(tx) => {
                lemma_append_assoc(varint(10), L1HandlerTransactionV0::encoding(tx), rest);
                lemma_unvarint(10, 4, L1HandlerTransactionV0::encoding(tx) + rest);
                L1HandlerTransactionV0::lemma_parse_encoding(tx, rest);
            },
        }
    }

    fn decode(input: &[u8]) -> (r: Result<(TransactionVariantV0, &[u8]), Malformed>) {
        let (n, tail) = match decode_variant(input) {
            Ok(read) => read,
            Err(e) => return Err(e),
        };
        match n {
            0 => match DeclareTransactionV0V1::decode(tail) {
                Ok((tx, rest)) => Ok((TransactionVariantV0::DeclareV0(tx), rest)),
                Err(e) => Err(e),
            },
            1 => match DeclareTransactionV0V1::decode(tail) {
                Ok((tx, rest)) => Ok((TransactionVariantV0::DeclareV1(tx), rest)),
                Err(e) => Err(e),
            },
            2 => match DeclareTransactionV2::decode(tail) {
                Ok((tx, rest)) => Ok((TransactionVariantV0::DeclareV2(tx), rest)),
                Err(e) => Err(e),
            },
            3 => match DeclareTransactionV3::decode(tail) {
                Ok((tx, rest)) => Ok((TransactionVariantV0::DeclareV3(tx), rest)),
                Err(e) => Err(e),
            },
            4 => match DeployTransaction::decode(tail) {
                Ok((tx, rest)) => Ok((TransactionVariantV0::Deploy(tx), rest)),
                Err(e) => Err(e),
            },
            5 => match DeployAccountTransactionV1::decode(tail) {
                Ok((tx, rest)) => Ok((TransactionVariantV0::DeployAccountV1(tx), rest)),
                Err(e) => Err(e),
            },
            6 => match DeployAccountTransactionV3::decode(tail) {
                Ok((tx, rest)) => Ok((TransactionVariantV0::DeployAccountV3(tx), rest)),
                Err(e) => Err(e),
            },
            7 => match InvokeTransactionV0::decode(tail) {
                Ok((tx, rest)) => Ok((TransactionVariantV0::InvokeV0(tx), rest)),
                Err(e) => Err(e),
            },
            8 => match InvokeTransactionV1::decode(tail) {
                Ok((tx, rest)) => Ok((TransactionVariantV0::InvokeV1(tx), rest)),
                Err(e) => Err(e),
            },
            9 => match InvokeTransactionV3::decode(tail) {
                Ok((tx, rest)) => Ok((TransactionVariantV0::InvokeV3(tx), rest)),
                Err(e) => Err(e),
            },
            10 => match L1HandlerTransactionV0::decode(tail) {
                Ok((tx, rest)) => Ok((TransactionVariantV0::L1HandlerV0(tx), rest)),
                Err(e) => Err(e),
            },
            _ => Err(Malformed),
        }
    }
}

/// The fields of [`DeclareTransactionV0V1`] are stored one after the other, in this order, and read from bytes
/// exactly where all of them can be read.
pub proof fn lemma_layout_of_declare_transaction_v0_v1(content: DeclareTransactionV0V1View, s: Seq<u8>)
    ensures
        DeclareTransactionV0V1::encoding(content) == (
            MinimalFelt::encoding(content.class_hash) + (
            MinimalFelt::encoding(content.max_fee) + (
            MinimalFelt::encoding(content.nonce) + (
            <Vec<MinimalFelt> as Encode>::encoding(content.signature) + (
            MinimalFelt::encoding(content.sender_address)))))),
        match DeclareTransactionV0V1::parse(s) {
            Some((read, rest)) => DeclareTransactionV0V1Fields::parse(s) == Some(((read.class_hash, (read.max_fee,
                (read.nonce, (read.signature, read.sender_address)))), rest)),
            None => DeclareTransactionV0V1Fields::parse(s) is None,
        },
{
    reveal(<DeclareTransactionV0V1 as Encode>::encoding);
    reveal(<DeclareTransactionV0V1 as Decode>::parse);
}

/// The fields of [`DeclareTransactionV2`] are stored one after the other, in this order, and read from bytes
/// exactly where all of them can be read.
pub proof fn lemma_layout_of_declare_transaction_v2(content: DeclareTransactionV2View, s: Seq<u8>)
    ensures
        DeclareTransactionV2::encoding(content) == (
            MinimalFelt::encoding(content.class_hash) + (
            MinimalFelt::encoding(content.max_fee) + (
            MinimalFelt::encoding(content.nonce) + (
            <Vec<MinimalFelt> as Encode>::encoding(content.signature) + (
            MinimalFelt::encoding(content.sender_address) + (
            MinimalFelt::encoding(content.compiled_class_hash))))))),
        match DeclareTransactionV2::parse(s) {
            Some((read, rest)) => DeclareTransactionV2Fields::parse(s) == Some(((read.class_hash, (read.max_fee,
                (read.nonce, (read.signature, (read.sender_address, read.compiled_class_hash))))), rest)),
            None => DeclareTransactionV2Fields::parse(s) is None,
        },
{
    reveal(<DeclareTransactionV2 as Encode>::encoding);
    reveal(<DeclareTransactionV2 as Decode>::parse);
}

/// The fields of [`DeclareTransactionV3`] are stored one after the other, in this order, and read from bytes
/// exactly where all of them can be read.
pub proof fn lemma_layout_of_declare_transaction_v3(content: DeclareTransactionV3View, s: Seq<u8>)
    ensures
        DeclareTransactionV3::encoding(content) == (
            MinimalFelt::encoding(content.class_hash) + (
            MinimalFelt::encoding(content.nonce) + (
            DataAvailabilityMode::encoding(content.nonce_data_availability_mode) + (
            DataAvailabilityMode::encoding(content.fee_data_availability_mode) + (
            ResourceBounds::encoding(content.resource_bounds) + (
            Tip::encoding(content.tip) + (
            <Vec<MinimalFelt> as Encode>::encoding(content.paymaster_data) + (
            <Vec<MinimalFelt> as Encode>::encoding(content.signature) + (
            <Vec<MinimalFelt> as Encode>::encoding(content.account_deployment_data) + (
            MinimalFelt::encoding(content.sender_address) + (
            MinimalFelt::encoding(content.compiled_class_hash)))))))))))),
        match DeclareTransactionV3::parse(s) {
            Some((read, rest)) => DeclareTransactionV3Fields::parse(s) == Some(((read.class_hash, (read.nonce,
                (read.nonce_data_availability_mode, (read.fee_data_availability_mode, (read.resource_bounds,
                (read.tip, (read.paymaster_data, (read.signature, (read.account_deployment_data, (read.sender_address,
                read.compiled_class_hash)))))))))), rest)),
            None => DeclareTransactionV3Fields::parse(s) is None,
        },
{
    reveal(<DeclareTransactionV3 as Encode>::encoding);
    reveal(<DeclareTransactionV3 as Decode>::parse);
}

/// The fields of [`DeployTransaction`] are stored one after the other, in this order, and read from bytes
/// exactly where all of them can be read.
pub proof fn lemma_layout_of_deploy_transaction(content: DeployTransactionView, s: Seq<u8>)
    ensures
        DeployTransaction::encoding(content) == (
            MinimalFelt::encoding(content.contract_address) + (
            MinimalFelt::encoding(content.version) + (
            MinimalFelt::encoding(content.contract_address_salt) + (
            MinimalFelt::encoding(content.class_hash) + (
            <Vec<MinimalFelt> as Encode>::encoding(content.constructor_calldata)))))),
        match DeployTransaction::parse(s) {
            Some((read, rest)) => DeployTransactionFields::parse(s) == Some(((read.contract_address, (read.version,
                (read.contract_address_salt, (read.class_hash, read.constructor_calldata)))), rest)),
            None => DeployTransactionFields::parse(s) is None,
        },
{
    reveal(<DeployTransaction as Encode>::encoding);
    reveal(<DeployTransaction as Decode>::parse);
}

/// The fields of [`DeployAccountTransactionV1`] are stored one after the other, in this order, and read from bytes
/// exactly where all of them can be read.
pub proof fn lemma_layout_of_deploy_account_transaction_v1(content: DeployAccountTransactionV1View, s: Seq<u8>)
    ensures
        DeployAccountTransactionV1::encoding(content) == (
            MinimalFelt::encoding(content.contract_address) + (
            MinimalFelt::encoding(content.max_fee) + (
            <Vec<MinimalFelt> as Encode>::encoding(content.signature) + (
            MinimalFelt::encoding(content.nonce) + (
            MinimalFelt::encoding(content.contract_address_salt) + (
            <Vec<MinimalFelt> as Encode>::encoding(content.constructor_calldata) + (
            MinimalFelt::encoding(content.class_hash)))))))),
        match DeployAccountTransactionV1::parse(s) {
            Some((read, rest)) => DeployAccountTransactionV1Fields::parse(s) == Some(((read.contract_address,
                (read.max_fee, (read.signature, (read.nonce, (read.contract_address_salt, (read.constructor_calldata,
                read.class_hash)))))), rest)),
            None => DeployAccountTransactionV1Fields::parse(s) is None,
        },
{
    reveal(<DeployAccountTransactionV1 as Encode>::encoding);
    reveal(<DeployAccountTransactionV1 as Decode>::parse);
}

/// The fields of [`DeployAccountTransactionV3`] are stored one after the other, in this order, and read from bytes
/// exactly where all of them can be read.
pub proof fn lemma_layout_of_deploy_account_transaction_v3(content: DeployAccountTransactionV3View, s: Seq<u8>)
    ensures
        DeployAccountTransactionV3::encoding(content) == (
            MinimalFelt::encoding(content.contract_address) + (
            <Vec<MinimalFelt> as Encode>::encoding(content.signature) + (
            MinimalFelt::encoding(content.nonce) + (
            DataAvailabilityMode::encoding(content.nonce_data_availability_mode) + (
            DataAvailabilityMode::encoding(content.fee_data_availability_mode) + (
            ResourceBounds::encoding(content.resource_bounds) + (
            Tip::encoding(content.tip) + (
            <Vec<MinimalFelt> as Encode>::encoding(content.paymaster_data) + (
            MinimalFelt::encoding(content.contract_address_salt) + (
            <Vec<MinimalFelt> as Encode>::encoding(content.constructor_calldata) + (
            MinimalFelt::encoding(content.class_hash)))))))))))),
        match DeployAccountTransactionV3::parse(s) {
            Some((read, rest)) => DeployAccountTransactionV3Fields::parse(s) == Some(((read.contract_address,
                (read.signature, (read.nonce, (read.nonce_data_availability_mode, (read.fee_data_availability_mode,
                (read.resource_bounds, (read.tip, (read.paymaster_data, (read.contract_address_salt,
                (read.constructor_calldata, read.class_hash)))))))))), rest)),
            None => DeployAccountTransactionV3Fields::parse(s) is None,
        },
{
    reveal(<DeployAccountTransactionV3 as Encode>::encoding);
    reveal(<DeployAccountTransactionV3 as Decode>::parse);
}

/// The fields of [`InvokeTransactionV0`] are stored one after the other, in this order, and read from bytes
/// exactly where all of them can be read.
pub proof fn lemma_layout_of_invoke_transaction_v0(content: InvokeTransactionV0View, s: Seq<u8>)
    ensures
        InvokeTransactionV0::encoding(content) == (
            <Vec<MinimalFelt> as Encode>::encoding(content.calldata) + (
            MinimalFelt::encoding(content.sender_address) + (
            MinimalFelt::encoding(content.entry_point_selector) + (
            <Option<EntryPointType> as Encode>::encoding(content.entry_point_type) + (
            MinimalFelt::encoding(content.max_fee) + (
            <Vec<MinimalFelt> as Encode>::encoding(content.signature))))))),
        match InvokeTransactionV0::parse(s) {
            Some((read, rest)) => InvokeTransactionV0Fields::parse(s) == Some(((read.calldata, (read.sender_address,
                (read.entry_point_selector, (read.entry_point_type, (read.max_fee, read.signature))))), rest)),
            None => InvokeTransactionV0Fields::parse(s) is None,
        },
{
    reveal(<InvokeTransactionV0 as Encode>::encoding);
    reveal(<InvokeTransactionV0 as Decode>::parse);
}

/// The fields of [`InvokeTransactionV1`] are stored one after the other, in this order, and read from bytes
/// exactly where all of them can be read.
pub proof fn lemma_layout_of_invoke_transaction_v1(content: InvokeTransactionV1View, s: Seq<u8>)
    ensures
        InvokeTransactionV1::encoding(content) == (
            <Vec<MinimalFelt> as Encode>::encoding(content.calldata) + (
            MinimalFelt::encoding(content.sender_address) + (
            MinimalFelt::encoding(content.max_fee) + (
            <Vec<MinimalFelt> as Encode>::encoding(content.signature) + (
            MinimalFelt::encoding(content.nonce)))))),
        match InvokeTransactionV1::parse(s) {
            Some((read, rest)) => InvokeTransactionV1Fields::parse(s) == Some(((read.calldata, (read.sender_address,
                (read.max_fee, (read.signature, read.nonce)))), rest)),
            None => InvokeTransactionV1Fields::parse(s) is None,
        },
{
    reveal(<InvokeTransactionV1 as Encode>::encoding);
    reveal(<InvokeTransactionV1 as Decode>::parse);
}

/// The fields of [`InvokeTransactionV3`] are stored one after the other, in this order, and read from bytes
/// exactly where all of them can be read.
pub proof fn lemma_layout_of_invoke_transaction_v3(content: InvokeTransactionV3View, s: Seq<u8>)
    ensures
        InvokeTransactionV3::encoding(content) == (
            <Vec<MinimalFelt> as Encode>::encoding(content.signature) + (
            MinimalFelt::encoding(content.nonce) + (
            DataAvailabilityMode::encoding(content.nonce_data_availability_mode) + (
            DataAvailabilityMode::encoding(content.fee_data_availability_mode) + (
            ResourceBounds::encoding(content.resource_bounds) + (
            Tip::encoding(content.tip) + (
            <Vec<MinimalFelt> as Encode>::encoding(content.paymaster_data) + (
            <Vec<MinimalFelt> as Encode>::encoding(content.account_deployment_data) + (
            <Vec<MinimalFelt> as Encode>::encoding(content.calldata) + (
            MinimalFelt::encoding(content.sender_address))))))))))),
        match InvokeTransactionV3::parse(s) {
            Some((read, rest)) => InvokeTransactionV3Fields::parse(s) == Some(((read.signature, (read.nonce,
                (read.nonce_data_availability_mode, (read.fee_data_availability_mode, (read.resource_bounds,
                (read.tip, (read.paymaster_data, (read.account_deployment_data, (read.calldata,
                read.sender_address))))))))), rest)),
            None => InvokeTransactionV3Fields::parse(s) is None,
        },
{
    reveal(<InvokeTransactionV3 as Encode>::encoding);
    reveal(<InvokeTransactionV3 as Decode>::parse);
}

/// The fields of [`L1HandlerTransactionV0`] are stored one after the other, in this order, and read from bytes
/// exactly where all of them can be read.
pub proof fn lemma_layout_of_l1_handler_transaction_v0(content: L1HandlerTransactionView, s: Seq<u8>)
    ensures
        L1HandlerTransactionV0::encoding(content) == (
            MinimalFelt::encoding(content.contract_address) + (
            MinimalFelt::encoding(content.entry_point_selector) + (
            MinimalFelt::encoding(content.nonce) + (
            <Vec<MinimalFelt> as Encode>::encoding(content.calldata))))),
        match L1HandlerTransactionV0::parse(s) {
            Some((read, rest)) => L1HandlerTransactionV0Fields::parse(s) == Some(((read.contract_address,
                (read.entry_point_selector, (read.nonce, read.calldata))), rest)),
            None => L1HandlerTransactionV0Fields::parse(s) is None,
        },
{
    reveal(<L1HandlerTransactionV0 as Encode>::encoding);
    reveal(<L1HandlerTransactionV0 as Decode>::parse);
}

/// A transaction is stored as the number of its kind and then its fields, and what is read as one of
/// a kind is stored like this. A kind that does not exist is refused.
pub proof fn lemma_layout_of_kinds(content: TransactionVariantView, s: Seq<u8>)
    ensures
        match content {
            TransactionVariantView::DeclareV0(tx) => TransactionVariantV0::encoding(content) == varint(0)
                + DeclareTransactionV0V1::encoding(tx),
            TransactionVariantView::DeclareV1(tx) => TransactionVariantV0::encoding(content) == varint(1)
                + DeclareTransactionV0V1::encoding(tx),
            TransactionVariantView::DeclareV2(tx) => TransactionVariantV0::encoding(content) == varint(2)
                + DeclareTransactionV2::encoding(tx),
            TransactionVariantView::DeclareV3(tx) => TransactionVariantV0::encoding(content) == varint(3)
                + DeclareTransactionV3::encoding(tx),
            TransactionVariantView::Deploy(tx) => TransactionVariantV0::encoding(content) == varint(4)
                + DeployTransaction::encoding(tx),
            TransactionVariantView::DeployAccountV1(tx) => TransactionVariantV0::encoding(content) == varint(5)
                + DeployAccountTransactionV1::encoding(tx),
            TransactionVariantView::DeployAccountV3(tx) => TransactionVariantV0::encoding(content) == varint(6)
                + DeployAccountTransactionV3::encoding(tx),
            TransactionVariantView::InvokeV0(tx) => TransactionVariantV0::encoding(content) == varint(7)
                + InvokeTransactionV0::encoding(tx),
            TransactionVariantView::InvokeV1(tx) => TransactionVariantV0::encoding(content) == varint(8)
                + InvokeTransactionV1::encoding(tx),
            TransactionVariantView::InvokeV3(tx) => TransactionVariantV0::encoding(content) == varint(9)
                + InvokeTransactionV3::encoding(tx),
            TransactionVariantView::L1Handler(tx) => TransactionVariantV0::encoding(content) == varint(10)
                + L1HandlerTransactionV0::encoding(tx),
        },
        unvarint(s, 4) is None || unvarint(s, 4)->Some_0.0 > 10 ==> TransactionVariantV0::parse(s) is None,
        TransactionVariantV0::parse(s) matches Some((TransactionVariantView::DeclareV0(tx), rest)) ==> unvarint(s, 4)
            is Some
            && unvarint(s, 4)->Some_0.0 == 0 && DeclareTransactionV0V1::parse(unvarint(s, 4)->Some_0.1) == Some((tx,
                rest)),
        TransactionVariantV0::parse(s) matches Some((TransactionVariantView::DeclareV1(tx), rest)) ==> unvarint(s, 4)
            is Some
            && unvarint(s, 4)->Some_0.0 == 1 && DeclareTransactionV0V1::parse(unvarint(s, 4)->Some_0.1) == Some((tx,
                rest)),
        TransactionVariantV0::parse(s) matches Some((TransactionVariantView::DeclareV2(tx), rest)) ==> unvarint(s, 4)
            is Some
            && unvarint(s, 4)->Some_0.0 == 2 && DeclareTransactionV2::parse(unvarint(s, 4)->Some_0.1) == Some((tx,
                rest)),
        TransactionVariantV0::parse(s) matches Some((TransactionVariantView::DeclareV3(tx), rest)) ==> unvarint(s, 4)
            is Some
            && unvarint(s, 4)->Some_0.0 == 3 && DeclareTransactionV3::parse(unvarint(s, 4)->Some_0.1) == Some((tx,
                rest)),
        TransactionVariantV0::parse(s) matches Some((TransactionVariantView::Deploy(tx), rest)) ==> unvarint(s, 4) is
            Some
            && unvarint(s, 4)->Some_0.0 == 4 && DeployTransaction::parse(unvarint(s, 4)->Some_0.1) == Some((tx, rest)),
        TransactionVariantV0::parse(s) matches Some((TransactionVariantView::DeployAccountV1(tx), rest)) ==>
            unvarint(s, 4) is Some
            && unvarint(s, 4)->Some_0.0 == 5 && DeployAccountTransactionV1::parse(unvarint(s, 4)->Some_0.1) ==
                Some((tx, rest)),
        TransactionVariantV0::parse(s) matches Some((TransactionVariantView::DeployAccountV3(tx), rest)) ==>
            unvarint(s, 4) is Some
            && unvarint(s, 4)->Some_0.0 == 6 && DeployAccountTransactionV3::parse(unvarint(s, 4)->Some_0.1) ==
                Some((tx, rest)),
        TransactionVariantV0::parse(s) matches Some((TransactionVariantView::InvokeV0(tx), rest)) ==> unvarint(s, 4)
            is Some
            && unvarint(s, 4)->Some_0.0 == 7 && InvokeTransactionV0::parse(unvarint(s, 4)->Some_0.1) == Some((tx,
                rest)),
        TransactionVariantV0::parse(s) matches Some((TransactionVariantView::InvokeV1(tx), rest)) ==> unvarint(s, 4)
            is Some
            && unvarint(s, 4)->Some_0.0 == 8 && InvokeTransactionV1::parse(unvarint(s, 4)->Some_0.1) == Some((tx,
                rest)),
        TransactionVariantV0::parse(s) matches Some((TransactionVariantView::InvokeV3(tx), rest)) ==> unvarint(s, 4)
            is Some
            && unvarint(s, 4)->Some_0.0 == 9 && InvokeTransactionV3::parse(unvarint(s, 4)->Some_0.1) == Some((tx,
                rest)),
        TransactionVariantV0::parse(s) matches Some((TransactionVariantView::L1Handler(tx), rest)) ==> unvarint(s, 4)
            is Some
            && unvarint(s, 4)->Some_0.0 == 10 && L1HandlerTransactionV0::parse(unvarint(s, 4)->Some_0.1) == Some((tx,
                rest)),
{
}

} // verus!
