//! The stored form of the parts that rows are made of.
use crate::bytes::{be_value, lemma_append_assoc, lemma_be_value_leading_zeros, lemma_minimal_be_len,
    lemma_minimal_be_unique, lemma_minimal_be_value, lemma_pow256_values, minimal_be, zeros};
use crate::common::transaction as common;
use crate::common::{views, EthereumAddress, ResourceAmount, ResourcePricePerUnit, Tip, TransactionIndex};
use crate::felt::{lemma_modulus_bound, modulus, Felt};
use crate::storage::codec::{contents, decode_integer, decode_variant, encode_integer, Decode, Encode,
    Malformed};
use crate::storage::dto::{DataAvailabilityMode, EntryPointType, MinimalFelt, ResourceBound, ResourceBounds};
use crate::storage::wire::{address_decoding, address_encoding, decode_from_slice_address, encode_to_vec_address,
    lemma_unvarint, lemma_unvarint_bound, unvarint, varint};
use vstd::prelude::*;
use vstd::slice::slice_subrange;

verus! {

/// A field element is stored as a list of bytes, most significant byte first, without leading
/// zeros.
impl Encode for MinimalFelt {
    type Content = nat;

    open spec fn content(&self) -> nat {
        self@
    }

    open spec fn valid(content: nat) -> bool {
        content < modulus()
    }

    open spec fn encoding(content: nat) -> Seq<u8> {
        varint(minimal_be(content).len()) + minimal_be(content)
    }

    fn encode(&self, out: &mut Vec<u8>) {
        let bytes: &[u8; 32] = self.0.as_be_bytes();
        let mut first: usize = 0;
        while first < 32 && bytes[first] == 0
            invariant
                first <= 32,
                forall|j: int| 0 <= j < first ==> bytes@[j] == 0,
            decreases 32 - first,
        {
            first += 1;
        }
        proof {
            let significant = bytes@.skip(first as int);
            assert(bytes@ =~= zeros(first as nat) + significant);
            lemma_be_value_leading_zeros(first as nat, significant);
            lemma_minimal_be_unique(significant);
        }
        encode_integer((32 - first) as u128, out);
        let ghost head = out@;
        let mut i: usize = first;
        assert(head + bytes@.subrange(first as int, first as int) =~= head);
        while i < 32
            invariant
                first <= i <= 32,
                out@ == head + bytes@.subrange(first as int, i as int),
            decreases 32 - i,
        {
            out.push(bytes[i]);
            assert(bytes@.subrange(first as int, i + 1) =~= bytes@.subrange(first as int, i as int).push(
                bytes@[i as int],
            ));
            i += 1;
        }
        proof {
            assert(bytes@.subrange(first as int, 32) =~= bytes@.skip(first as int));
            lemma_append_assoc(old(out)@, varint(minimal_be(self@).len()), minimal_be(self@));
        }
    }
}

impl Decode for MinimalFelt {
    open spec fn parse(s: Seq<u8>) -> Option<(nat, Seq<u8>)> {
        match unvarint(s, 8) {
            Some((len, tail)) => if len > 32 || len > tail.len() || be_value(tail.take(len as int)) >= modulus() {
                None
            } else {
                Some((be_value(tail.take(len as int)), tail.skip(len as int)))
            },
            None => None,
        }
    }

    proof fn lemma_parse_encoding(content: nat, rest: Seq<u8>) {
        let bytes = minimal_be(content);
        lemma_modulus_bound();
        lemma_minimal_be_len(content, 32);
        lemma_minimal_be_value(content);
        lemma_pow256_values();
        lemma_append_assoc(varint(bytes.len()), bytes, rest);
        lemma_unvarint(bytes.len(), 8, bytes + rest);
        assert((bytes + rest).take(bytes.len() as int) =~= bytes);
        assert((bytes + rest).skip(bytes.len() as int) =~= rest);
    }

    fn decode(input: &[u8]) -> (r: Result<(MinimalFelt, &[u8]), Malformed>) {
        let (len, tail) = match decode_integer(input) {
            Ok(read) => read,
            Err(e) => return Err(e),
        };
        if len > 32 || len as usize > tail.len() {
            return Err(Malformed);
        }
        match Felt::from_be_slice(slice_subrange(tail, 0, len as usize)) {
            Ok(felt) => Ok((MinimalFelt(felt), slice_subrange(tail, len as usize, tail.len()))),
            Err(_) => Err(Malformed),
        }
    }
}

/// Where the views of values are stored, the views of a list are stored too.
pub proof fn lemma_contents_are_views<T: View + Encode<Content = <T as View>::V>>(values: Seq<T>)
    requires
        forall|i: int| 0 <= i < values.len() ==> #[trigger] values[i].content() == values[i]@,
    ensures
        contents(values) == views(values),
{
    assert(contents(values) =~= views(values));
}

impl Encode for EthereumAddress {
    type Content = Seq<u8>;

    open spec fn content(&self) -> Seq<u8> {
        self.0@
    }

    open spec fn valid(content: Seq<u8>) -> bool {
        forall|rest: Seq<u8>| #[trigger]
            address_decoding(address_encoding(content) + rest) == Some((content, address_encoding(content).len()))
    }

    open spec fn encoding(content: Seq<u8>) -> Seq<u8> {
        address_encoding(content)
    }

    fn encode(&self, out: &mut Vec<u8>) {
        let mut bytes: Vec<u8> = encode_to_vec_address(&self.0).unwrap();
        out.append(&mut bytes);
    }
}

impl Decode for EthereumAddress {
    open spec fn parse(s: Seq<u8>) -> Option<(Seq<u8>, Seq<u8>)> {
        match address_decoding(s) {
            Some((address, len)) => Some((address, s.skip(len as int))),
            None => None,
        }
    }

    proof fn lemma_parse_encoding(content: Seq<u8>, rest: Seq<u8>) {
        let bytes = address_encoding(content);
        assert(address_decoding(bytes + rest) == Some((content, bytes.len())));
        assert((bytes + rest).skip(bytes.len() as int) =~= rest);
    }

    fn decode(input: &[u8]) -> (r: Result<(EthereumAddress, &[u8]), Malformed>) {
        match decode_from_slice_address(input) {
            Ok((address, len)) => Ok((EthereumAddress(address), slice_subrange(input, len, input.len()))),
            Err(_) => Err(Malformed),
        }
    }
}

impl Encode for Tip {
    type Content = Tip;

    open spec fn content(&self) -> Tip {
        *self
    }

    open spec fn valid(content: Tip) -> bool {
        u64::valid(content.0)
    }

    open spec fn encoding(content: Tip) -> Seq<u8> {
        u64::encoding(content.0)
    }

    fn encode(&self, out: &mut Vec<u8>) {
        self.0.encode(out);
    }
}

impl Decode for Tip {
    open spec fn parse(s: Seq<u8>) -> Option<(Tip, Seq<u8>)> {
        match u64::parse(s) {
            Some((n, rest)) => Some((Tip(n), rest)),
            None => None,
        }
    }

    proof fn lemma_parse_encoding(content: Tip, rest: Seq<u8>) {
        u64::lemma_parse_encoding(content.0, rest);
    }

    fn decode(input: &[u8]) -> (r: Result<(Tip, &[u8]), Malformed>) {
        match u64::decode(input) {
            Ok((n, rest)) => Ok((Tip(n), rest)),
            Err(e) => Err(e),
        }
    }
}

impl Encode for ResourceAmount {
    type Content = ResourceAmount;

    open spec fn content(&self) -> ResourceAmount {
        *self
    }

    open spec fn valid(content: ResourceAmount) -> bool {
        u64::valid(content.0)
    }

    open spec fn encoding(content: ResourceAmount) -> Seq<u8> {
        u64::encoding(content.0)
    }

    fn encode(&self, out: &mut Vec<u8>) {
        self.0.encode(out);
    }
}

impl Decode for ResourceAmount {
    open spec fn parse(s: Seq<u8>) -> Option<(ResourceAmount, Seq<u8>)> {
        match u64::parse(s) {
            Some((n, rest)) => Some((ResourceAmount(n), rest)),
            None => None,
        }
    }

    proof fn lemma_parse_encoding(content: ResourceAmount, rest: Seq<u8>) {
        u64::lemma_parse_encoding(content.0, rest);
    }

    fn decode(input: &[u8]) -> (r: Result<(ResourceAmount, &[u8]), Malformed>) {
        match u64::decode(input) {
            Ok((n, rest)) => Ok((ResourceAmount(n), rest)),
            Err(e) => Err(e),
        }
    }
}

impl Encode for ResourcePricePerUnit {
    type Content = ResourcePricePerUnit;

    open spec fn content(&self) -> ResourcePricePerUnit {
        *self
    }

    open spec fn valid(content: ResourcePricePerUnit) -> bool {
        u128::valid(content.0)
    }

    open spec fn encoding(content: ResourcePricePerUnit) -> Seq<u8> {
        u128::encoding(content.0)
    }

    fn encode(&self, out: &mut Vec<u8>) {
        self.0.encode(out);
    }
}

impl Decode for ResourcePricePerUnit {
    open spec fn parse(s: Seq<u8>) -> Option<(ResourcePricePerUnit, Seq<u8>)> {
        match u128::parse(s) {
            Some((n, rest)) => Some((ResourcePricePerUnit(n), rest)),
            None => None,
        }
    }

    proof fn lemma_parse_encoding(content: ResourcePricePerUnit, rest: Seq<u8>) {
        u128::lemma_parse_encoding(content.0, rest);
    }

    fn decode(input: &[u8]) -> (r: Result<(ResourcePricePerUnit, &[u8]), Malformed>) {
        match u128::decode(input) {
            Ok((n, rest)) => Ok((ResourcePricePerUnit(n), rest)),
            Err(e) => Err(e),
        }
    }
}

/// A position is stored as an integer. One that does not fit a signed integer is refused.
impl Encode for TransactionIndex {
    type Content = u64;

    open spec fn content(&self) -> u64 {
        self@
    }

    open spec fn valid(content: u64) -> bool {
        content <= i64::MAX
    }

    open spec fn encoding(content: u64) -> Seq<u8> {
        u64::encoding(content)
    }

    fn encode(&self, out: &mut Vec<u8>) {
        self.get().encode(out);
    }
}

impl Decode for TransactionIndex {
    open spec fn parse(s: Seq<u8>) -> Option<(u64, Seq<u8>)> {
        match u64::parse(s) {
            Some((n, rest)) => if n <= i64::MAX {
                Some((n, rest))
            } else {
                None
            },
            None => None,
        }
    }

    proof fn lemma_parse_encoding(content: u64, rest: Seq<u8>) {
        u64::lemma_parse_encoding(content, rest);
    }

    fn decode(input: &[u8]) -> (r: Result<(TransactionIndex, &[u8]), Malformed>) {
        let (n, rest) = match u64::decode(input) {
            Ok(read) => read,
            Err(e) => return Err(e),
        };
        match TransactionIndex::new(n) {
            Some(index) => Ok((index, rest)),
            None => Err(Malformed),
        }
    }
}

impl Encode for EntryPointType {
    type Content = common::EntryPointType;

    open spec fn content(&self) -> common::EntryPointType {
        self@
    }

    open spec fn valid(content: common::EntryPointType) -> bool {
        true
    }

    open spec fn encoding(content: common::EntryPointType) -> Seq<u8> {
        match content {
            common::EntryPointType::External => varint(0),
            common::EntryPointType::L1Handler => varint(1),
        }
    }

    fn encode(&self, out: &mut Vec<u8>) {
        match self {
            EntryPointType::External => encode_integer(0, out),
            EntryPointType::L1Handler => encode_integer(1, out),
        }
    }
}

impl Decode for EntryPointType {
    open spec fn parse(s: Seq<u8>) -> Option<(common::EntryPointType, Seq<u8>)> {
        match unvarint(s, 4) {
            Some((n, rest)) => if n == 0 {
                Some((common::EntryPointType::External, rest))
            } else if n == 1 {
                Some((common::EntryPointType::L1Handler, rest))
            } else {
                None
            },
            None => None,
        }
    }

    proof fn lemma_parse_encoding(content: common::EntryPointType, rest: Seq<u8>) {
        lemma_pow256_values();
        lemma_unvarint(0, 4, rest);
        lemma_unvarint(1, 4, rest);
    }

    fn decode(input: &[u8]) -> (r: Result<(EntryPointType, &[u8]), Malformed>) {
        let (n, rest) = match decode_variant(input) {
            Ok(read) => read,
            Err(e) => return Err(e),
        };
        match n {
            0 => Ok((EntryPointType::External, rest)),
            1 => Ok((EntryPointType::L1Handler, rest)),
            _ => Err(Malformed),
        }
    }
}

impl Encode for DataAvailabilityMode {
    type Content = common::DataAvailabilityMode;

    open spec fn content(&self) -> common::DataAvailabilityMode {
        self@
    }

    open spec fn valid(content: common::DataAvailabilityMode) -> bool {
        true
    }

    open spec fn encoding(content: common::DataAvailabilityMode) -> Seq<u8> {
        match content {
            common::DataAvailabilityMode::L1 => varint(0),
            common::DataAvailabilityMode::L2 => varint(1),
        }
    }

    fn encode(&self, out: &mut Vec<u8>) {
        match self {
            DataAvailabilityMode::L1 => encode_integer(0, out),
            DataAvailabilityMode::L2 => encode_integer(1, out),
        }
    }
}

impl Decode for DataAvailabilityMode {
    open spec fn parse(s: Seq<u8>) -> Option<(common::DataAvailabilityMode, Seq<u8>)> {
        match unvarint(s, 4) {
            Some((n, rest)) => if n == 0 {
                Some((common::DataAvailabilityMode::L1, rest))
            } else if n == 1 {
                Some((common::DataAvailabilityMode::L2, rest))
            } else {
                None
            },
            None => None,
        }
    }

    proof fn lemma_parse_encoding(content: common::DataAvailabilityMode, rest: Seq<u8>) {
        lemma_pow256_values();
        lemma_unvarint(0, 4, rest);
        lemma_unvarint(1, 4, rest);
    }

    fn decode(input: &[u8]) -> (r: Result<(DataAvailabilityMode, &[u8]), Malformed>) {
        let (n, rest) = match decode_variant(input) {
            Ok(read) => read,
            Err(e) => return Err(e),
        };
        match n {
            0 => Ok((DataAvailabilityMode::L1, rest)),
            1 => Ok((DataAvailabilityMode::L2, rest)),
            _ => Err(Malformed),
        }
    }
}

/// The fields of [`ResourceBound`], as they are stored.
pub type ResourceBoundFields = (ResourceAmount, ResourcePricePerUnit);

/// What is stored of the fields.
pub open spec fn resource_bound_fields(content: common::ResourceBound) -> (ResourceAmount, ResourcePricePerUnit) {
    (content.max_amount, content.max_price_per_unit)
}

impl Encode for ResourceBound {
    type Content = common::ResourceBound;

    open spec fn content(&self) -> common::ResourceBound {
        self@
    }

    #[verifier::opaque]
    open spec fn valid(content: common::ResourceBound) -> bool {
        ResourceBoundFields::valid(resource_bound_fields(content))
    }

    #[verifier::opaque]
    open spec fn encoding(content: common::ResourceBound) -> Seq<u8> {
        ResourceBoundFields::encoding(resource_bound_fields(content))
    }

    fn encode(&self, out: &mut Vec<u8>) {
        proof {
            reveal(<ResourceBound as Encode>::valid);
            reveal(<ResourceBound as Encode>::encoding);
        }
        (&self.max_amount, &self.max_price_per_unit).encode(out);
    }
}

impl Decode for ResourceBound {
    #[verifier::opaque]
    open spec fn parse(s: Seq<u8>) -> Option<(common::ResourceBound, Seq<u8>)> {
        match ResourceBoundFields::parse(s) {
            Some(((max_amount, max_price_per_unit), rest)) => Some((common::ResourceBound { max_amount,
                max_price_per_unit }, rest)),
            None => None,
        }
    }

    proof fn lemma_parse_encoding(content: common::ResourceBound, rest: Seq<u8>) {
        reveal(<ResourceBound as Encode>::valid);
        reveal(<ResourceBound as Encode>::encoding);
        reveal(<ResourceBound as Decode>::parse);
        ResourceBoundFields::lemma_parse_encoding(resource_bound_fields(content), rest);
    }

    fn decode(input: &[u8]) -> (r: Result<(ResourceBound, &[u8]), Malformed>) {
        proof {
            reveal(<ResourceBound as Decode>::parse);
        }
        let (fields, rest) = match ResourceBoundFields::decode(input) {
            Ok(read) => read,
            Err(e) => return Err(e),
        };
        let (max_amount, max_price_per_unit) = fields;
        Ok((ResourceBound { max_amount, max_price_per_unit }, rest))
    }
}

/// The fields of [`ResourceBounds`], as they are stored.
pub type ResourceBoundsFields = (ResourceBound, ResourceBound);

/// What is stored of the fields.
pub open spec fn resource_bounds_fields(content: common::ResourceBounds) -> (common::ResourceBound,
    common::ResourceBound) {
    (content.l1_gas, content.l2_gas)
}

impl Encode for ResourceBounds {
    type Content = common::ResourceBounds;

    open spec fn content(&self) -> common::ResourceBounds {
        self@
    }

    #[verifier::opaque]
    open spec fn valid(content: common::ResourceBounds) -> bool {
        ResourceBoundsFields::valid(resource_bounds_fields(content))
    }

    #[verifier::opaque]
    open spec fn encoding(content: common::ResourceBounds) -> Seq<u8> {
        ResourceBoundsFields::encoding(resource_bounds_fields(content))
    }

    fn encode(&self, out: &mut Vec<u8>) {
        proof {
            reveal(<ResourceBounds as Encode>::valid);
            reveal(<ResourceBounds as Encode>::encoding);
        }
        (&self.l1_gas, &self.l2_gas).encode(out);
    }
}

impl Decode for ResourceBounds {
    #[verifier::opaque]
    open spec fn parse(s: Seq<u8>) -> Option<(common::ResourceBounds, Seq<u8>)> {
        match ResourceBoundsFields::parse(s) {
            Some(((l1_gas, l2_gas), rest)) => Some((common::ResourceBounds { l1_gas, l2_gas }, rest)),
            None => None,
        }
    }

    proof fn lemma_parse_encoding(content: common::ResourceBounds, rest: Seq<u8>) {
        reveal(<ResourceBounds as Encode>::valid);
        reveal(<ResourceBounds as Encode>::encoding);
        reveal(<ResourceBounds as Decode>::parse);
        ResourceBoundsFields::lemma_parse_encoding(resource_bounds_fields(content), rest);
    }

    fn decode(input: &[u8]) -> (r: Result<(ResourceBounds, &[u8]), Malformed>) {
        proof {
            reveal(<ResourceBounds as Decode>::parse);
        }
        let (fields, rest) = match ResourceBoundsFields::decode(input) {
            Ok(read) => read,
            Err(e) => return Err(e),
        };
        let (l1_gas, l2_gas) = fields;
        Ok((ResourceBounds { l1_gas, l2_gas }, rest))
    }
}

/// The fields of [`ResourceBound`] are stored one after the other, in this order, and read from bytes
/// exactly where all of them can be read.
pub proof fn lemma_layout_of_resource_bound(content: common::ResourceBound, s: Seq<u8>)
    ensures
        ResourceBound::encoding(content) == (
            ResourceAmount::encoding(content.max_amount) + (
            ResourcePricePerUnit::encoding(content.max_price_per_unit))),
        match ResourceBound::parse(s) {
            Some((read, rest)) => ResourceBoundFields::parse(s) == Some(((read.max_amount, read.max_price_per_unit),
                rest)),
            None => ResourceBoundFields::parse(s) is None,
        },
{
    reveal(<ResourceBound as Encode>::encoding);
    reveal(<ResourceBound as Decode>::parse);
}

/// The fields of [`ResourceBounds`] are stored one after the other, in this order, and read from bytes
/// exactly where all of them can be read.
pub proof fn lemma_layout_of_resource_bounds(content: common::ResourceBounds, s: Seq<u8>)
    ensures
        ResourceBounds::encoding(content) == (
            ResourceBound::encoding(content.l1_gas) + (
            ResourceBound::encoding(content.l2_gas))),
        match ResourceBounds::parse(s) {
            Some((read, rest)) => ResourceBoundsFields::parse(s) == Some(((read.l1_gas, read.l2_gas), rest)),
            None => ResourceBoundsFields::parse(s) is None,
        },
{
    reveal(<ResourceBounds as Encode>::encoding);
    reveal(<ResourceBounds as Decode>::parse);
}

/// A field element is stored as the bytes that write it, most significant byte first and without
/// leading zeros, behind their number.
pub proof fn lemma_layout_of_field_elements(bytes: Seq<u8>)
    requires
        bytes.len() > 0 ==> bytes[0] != 0,
    ensures
        MinimalFelt::encoding(be_value(bytes)) == varint(bytes.len()) + bytes,
{
    lemma_minimal_be_unique(bytes);
}

/// A field element is read from any bytes that write it, also with leading zeros. More than 32 bytes
/// are refused, and so are bytes that write no field element.
pub proof fn lemma_reading_field_elements(bytes: Seq<u8>, rest: Seq<u8>)
    requires
        bytes.len() < 0x1_0000_0000_0000_0000,
    ensures
        MinimalFelt::parse(varint(bytes.len()) + (bytes + rest)) == if bytes.len() <= 32 && be_value(bytes)
            < modulus() {
            Some((be_value(bytes), rest))
        } else {
            None
        },
{
    lemma_pow256_values();
    lemma_unvarint(bytes.len(), 8, bytes + rest);
    assert((bytes + rest).take(bytes.len() as int) =~= bytes);
    assert((bytes + rest).skip(bytes.len() as int) =~= rest);
}

/// Bytes that announce more than they hold are refused, and so are those that announce nothing.
pub proof fn lemma_truncated_field_elements_are_refused(s: Seq<u8>)
    ensures
        unvarint(s, 8) is None ==> MinimalFelt::parse(s) is None,
        unvarint(s, 8) matches Some((n, tail)) ==> (n > 32 || n > tail.len() ==> MinimalFelt::parse(s) is None),
{
}

/// Tips, amounts, prices and positions are stored as integers, choices as the number of the choice,
/// and addresses on Ethereum as text.
pub proof fn lemma_layout_of_elements(
    tip: Tip,
    amount: ResourceAmount,
    price: ResourcePricePerUnit,
    index: u64,
    address: Seq<u8>,
)
    ensures
        Tip::encoding(tip) == varint(tip.0 as nat),
        ResourceAmount::encoding(amount) == varint(amount.0 as nat),
        ResourcePricePerUnit::encoding(price) == varint(price.0 as nat),
        TransactionIndex::encoding(index) == varint(index as nat),
        EntryPointType::encoding(common::EntryPointType::External) == varint(0),
        EntryPointType::encoding(common::EntryPointType::L1Handler) == varint(1),
        DataAvailabilityMode::encoding(common::DataAvailabilityMode::L1) == varint(0),
        DataAvailabilityMode::encoding(common::DataAvailabilityMode::L2) == varint(1),
        EthereumAddress::encoding(address) == address_encoding(address),
{
}

/// A choice that does not exist is refused, and so is a position that a signed integer cannot hold.
pub proof fn lemma_unknown_elements_are_refused(s: Seq<u8>)
    ensures
        unvarint(s, 4) is None || unvarint(s, 4)->Some_0.0 > 1 ==> EntryPointType::parse(s) is None
            && DataAvailabilityMode::parse(s) is None,
        unvarint(s, 8) is None || unvarint(s, 8)->Some_0.0 > i64::MAX ==> TransactionIndex::parse(s) is None,
{
    lemma_unvarint_bound(s);
}

} // verus!
