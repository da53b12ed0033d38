//! JSON objects that stand for transactions.
use crate::common::transaction::{InvokeTransactionV0, InvokeTransactionV1};
use crate::common::{views, FeltWrapper, TransactionSignatureElem};
use crate::felt::{hex_digits, hex_value, lemma_hex_digits, Felt};
use vstd::prelude::*;
use vstd::string::StringExecFns;

verus! {

/// A value of a field of a JSON object.
#[derive(Clone, Debug, PartialEq, Eq)]
pub enum FieldValue {
    Text(String),
    List(Vec<String>),
}

/// A value of a field, as characters.
#[verifier::ext_equal]
pub enum FieldValueView {
    Text(Seq<char>),
    List(Seq<Seq<char>>),
}

impl View for FieldValue {
    type V = FieldValueView;

    open spec fn view(&self) -> FieldValueView {
        match self {
            FieldValue::Text(text) => FieldValueView::Text(text@),
            FieldValue::List(list) => FieldValueView::List(views(list@)),
        }
    }
}

/// A field of a JSON object.
#[derive(Clone, Debug, PartialEq, Eq)]
pub struct Field {
    pub name: &'static str,
    pub value: FieldValue,
}

/// A field, as characters.
#[verifier::ext_equal]
pub struct FieldView {
    pub name: Seq<char>,
    pub value: FieldValueView,
}

impl View for Field {
    type V = FieldView;

    open spec fn view(&self) -> FieldView {
        FieldView { name: self.name@, value: self.value@ }
    }
}

/// How a field element is written.
pub open spec fn hex(n: nat) -> Seq<char> {
    seq!['0', 'x'] + hex_digits(n)
}

/// How a list of field elements is written.
pub open spec fn hex_list(list: Seq<nat>) -> Seq<Seq<char>> {
    Seq::new(list.len(), |i: int| hex(list[i]))
}

/// A field that holds a field element.
pub open spec fn felt_field(name: Seq<char>, n: nat) -> FieldView {
    FieldView { name, value: FieldValueView::Text(hex(n)) }
}

/// A field that holds text.
pub open spec fn text_field(name: Seq<char>, text: Seq<char>) -> FieldView {
    FieldView { name, value: FieldValueView::Text(text) }
}

/// A field that holds a list of field elements.
pub open spec fn list_field(name: Seq<char>, list: Seq<nat>) -> FieldView {
    FieldView { name, value: FieldValueView::List(hex_list(list)) }
}

/// Writes a list of field elements.
fn serialize_iter<T: FeltWrapper>(list: &[T]) -> (r: Vec<String>)
    ensures
        views(r@) == hex_list(views(list@)),
{
    let mut r: Vec<String> = Vec::new();
    let mut i: usize = 0;
    while i < list.len()
        invariant
            i <= list@.len(),
            r@.len() == i,
            forall|j: int| 0 <= j < i ==> (#[trigger] r@[j])@ == hex(list@[j]@),
        decreases list.len() - i,
    {
        r.push(list[i].as_inner().to_hex_str());
        i += 1;
    }
    assert(views(r@) =~= hex_list(views(list@)));
    r
}

fn felt(name: &'static str, value: &Felt) -> (r: Field)
    ensures
        r@ == felt_field(name@, value@),
{
    Field { name, value: FieldValue::Text(value.to_hex_str()) }
}

fn text(name: &'static str, value: &str) -> (r: Field)
    ensures
        r@ == text_field(name@, value@),
{
    Field { name, value: FieldValue::Text(String::from_str(value)) }
}

fn list<T: FeltWrapper>(name: &'static str, value: &[T]) -> (r: Field)
    ensures
        r@ == list_field(name@, views(value@)),
{
    Field { name, value: FieldValue::List(serialize_iter(value)) }
}

/// An invoke transaction of version 0, or a query for one.
pub struct InvokeTxnV0<'a> {
    pub inner: &'a InvokeTransactionV0,
    pub query: bool,
}

/// An invoke transaction of version 1, or a query for one.
pub struct InvokeTxnV1<'a> {
    pub inner: &'a InvokeTransactionV1,
    pub query: bool,
}

/// The signature of a transaction.
pub struct Signature<'a>(pub &'a [TransactionSignatureElem]);

impl<'a> Signature<'a> {
    /// The elements of the signature.
    pub fn serialize(&self) -> (r: Vec<String>)
        ensures
            views(r@) == hex_list(views(self.0@)),
    {
        serialize_iter(self.0)
    }
}

impl<'a> InvokeTxnV0<'a> {
    /// The fields of the transaction's JSON object. A query has its own version.
    pub fn serialize(&self) -> (r: Vec<Field>)
        ensures
            views(r@) == seq![
                text_field("type"@, "INVOKE"@),
                felt_field("max_fee"@, self.inner@.max_fee),
                text_field(
                    "version"@,
                    if self.query {
                        "0x100000000000000000000000000000000"@
                    } else {
                        "0x0"@
                    },
                ),
                list_field("signature"@, self.inner@.signature),
                felt_field("contract_address"@, self.inner@.sender_address),
                felt_field("entry_point_selector"@, self.inner@.entry_point_selector),
                list_field("calldata"@, self.inner@.calldata),
            ],
    {
        let version = if self.query {
            "0x100000000000000000000000000000000"
        } else {
            "0x0"
        };
        let mut fields: Vec<Field> = Vec::new();
        fields.push(text("type", "INVOKE"));
        fields.push(felt("max_fee", &self.inner.max_fee.0));
        fields.push(text("version", version));
        fields.push(
            Field {
                name: "signature",
                value: FieldValue::List(Signature(self.inner.signature.as_slice()).serialize()),
            },
        );
        fields.push(felt("contract_address", &self.inner.sender_address.0));
        fields.push(felt("entry_point_selector", &self.inner.entry_point_selector.0));
        fields.push(list("calldata", self.inner.calldata.as_slice()));
        assert(views(fields@) =~= seq![
            text_field("type"@, "INVOKE"@),
            felt_field("max_fee"@, self.inner@.max_fee),
            text_field("version"@, version@),
            list_field("signature"@, self.inner@.signature),
            felt_field("contract_address"@, self.inner@.sender_address),
            felt_field("entry_point_selector"@, self.inner@.entry_point_selector),
            list_field("calldata"@, self.inner@.calldata),
        ]);
        fields
    }
}

impl<'a> InvokeTxnV1<'a> {
    /// The fields of the transaction's JSON object. A query has its own version.
    pub fn serialize(&self) -> (r: Vec<Field>)
        ensures
            views(r@) == seq![
                text_field("type"@, "INVOKE"@),
                felt_field("sender_address"@, self.inner@.sender_address),
                list_field("calldata"@, self.inner@.calldata),
                felt_field("max_fee"@, self.inner@.max_fee),
                text_field(
                    "version"@,
                    if self.query {
                        "0x100000000000000000000000000000001"@
                    } else {
                        "0x1"@
                    },
                ),
                list_field("signature"@, self.inner@.signature),
                felt_field("nonce"@, self.inner@.nonce),
            ],
    {
        let version = if self.query {
            "0x100000000000000000000000000000001"
        } else {
            "0x1"
        };
        let mut fields: Vec<Field> = Vec::new();
        fields.push(text("type", "INVOKE"));
        fields.push(felt("sender_address", &self.inner.sender_address.0));
        fields.push(list("calldata", self.inner.calldata.as_slice()));
        fields.push(felt("max_fee", &self.inner.max_fee.0));
        fields.push(text("version", version));
        fields.push(
            Field {
                name: "signature",
                value: FieldValue::List(Signature(self.inner.signature.as_slice()).serialize()),
            },
        );
        fields.push(felt("nonce", &self.inner.nonce.0));
        assert(views(fields@) =~= seq![
            text_field("type"@, "INVOKE"@),
            felt_field("sender_address"@, self.inner@.sender_address),
            list_field("calldata"@, self.inner@.calldata),
            felt_field("max_fee"@, self.inner@.max_fee),
            text_field("version"@, version@),
            list_field("signature"@, self.inner@.signature),
            felt_field("nonce"@, self.inner@.nonce),
        ]);
        fields
    }
}

/// A list of field elements is written element by element. Each of them is `0x` and hexadecimal
/// digits that write its number, without leading zeros.
pub proof fn lemma_lists_are_written_element_by_element(list: Seq<nat>, i: int)
    requires
        0 <= i < list.len(),
    ensures
        hex_list(list).len() == list.len(),
        hex_list(list)[i] == hex(list[i]),
        hex(list[i]).len() > 2,
        hex(list[i])[0] == '0' && hex(list[i])[1] == 'x',
        hex_value(hex(list[i]).skip(2)) == list[i],
        hex(list[i])[2] == '0' ==> list[i] == 0 && hex(list[i]).len() == 3,
{
    lemma_hex_digits(list[i]);
    assert(hex(list[i]).skip(2) =~= hex_digits(list[i]));
}

/// A field carries its name and its value: a number as `0x` and digits that write it, text as it
/// is, and a list as its elements.
pub proof fn lemma_fields_carry_their_values(name: Seq<char>, n: nat, text: Seq<char>, list: Seq<nat>)
    ensures
        felt_field(name, n).name == name,
        felt_field(name, n).value matches FieldValueView::Text(digits) && digits.take(2) == seq!['0', 'x']
            && hex_value(digits.skip(2)) == n,
        text_field(name, text) == (FieldView { name, value: FieldValueView::Text(text) }),
        list_field(name, list).name == name,
        list_field(name, list).value == FieldValueView::List(hex_list(list)),
{
    lemma_hex_digits(n);
    assert(hex(n).take(2) =~= seq!['0', 'x']);
    assert(hex(n).skip(2) =~= hex_digits(n));
}

/// A field says its name and its value, and a list each of its elements.
pub proof fn lemma_parts_of_a_field(field: Field)
    ensures
        field@.name == field.name@,
        field@.value == field.value@,
        field.value matches FieldValue::Text(text) ==> field@.value == FieldValueView::Text(text@),
        field.value matches FieldValue::List(list) ==> field@.value == FieldValueView::List(views(list@)),
{
}

} // verus!
