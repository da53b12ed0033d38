//! Values that can be stored, and the rules by which larger values are put together.
use crate::bytes::{lemma_append_assoc, lemma_pow256_values, pow256};
use crate::storage::wire::{borrow_decode_from_slice_str, decode_from_slice_u128, decode_from_slice_u32,
    decode_from_slice_u64, encode_to_vec_integer, encode_to_vec_str, lemma_string_parse, lemma_unvarint,
    string_encoding, string_parse, unvarint, varint};
use vstd::prelude::*;
use vstd::slice::slice_subrange;
use vstd::utf8::encode_utf8;

verus! {

/// The stored bytes are not what this library writes.
#[derive(Clone, Copy, Debug, PartialEq, Eq)]
pub struct Malformed;

/// A value that can be written.
pub trait Encode: Sized {
    /// What is stored of the value.
    type Content;

    /// What is stored of this value.
    spec fn content(&self) -> Self::Content;

    /// Whether a content is one that values can have.
    spec fn valid(content: Self::Content) -> bool;

    /// The stored form.
    spec fn encoding(content: Self::Content) -> Seq<u8>;

    /// Appends the stored form to `out`.
    fn encode(&self, out: &mut Vec<u8>)
        ensures
            final(out)@ == old(out)@ + Self::encoding(self.content()),
            Self::valid(self.content()),
    ;
}

/// A value that can be read back.
pub trait Decode: Encode {
    /// The content whose stored form `s` begins with, and what follows it.
    spec fn parse(s: Seq<u8>) -> Option<(Self::Content, Seq<u8>)>;

    /// What was written is read back.
    proof fn lemma_parse_encoding(content: Self::Content, rest: Seq<u8>)
        requires
            Self::valid(content),
        ensures
            Self::parse(Self::encoding(content) + rest) == Some((content, rest)),
    ;

    /// Reads a value from the beginning of `input`. Returns it with what follows it.
    fn decode(input: &[u8]) -> (r: Result<(Self, &[u8]), Malformed>)
        ensures
            match r {
                Ok((value, rest)) => Self::parse(input@) == Some((value.content(), rest@)),
                Err(_) => Self::parse(input@) is None,
            },
    ;
}

/// Values that are stored alike are alike.
pub proof fn lemma_encoding_is_injective<T: Decode>(a: T::Content, b: T::Content)
    requires
        T::valid(a),
        T::valid(b),
        T::encoding(a) == T::encoding(b),
    ensures
        a == b,
{
    T::lemma_parse_encoding(a, Seq::empty());
    T::lemma_parse_encoding(b, Seq::empty());
}

/// Appends an integer.
pub fn encode_integer(n: u128, out: &mut Vec<u8>)
    ensures
        final(out)@ == old(out)@ + varint(n as nat),
{
    let mut bytes: Vec<u8> = encode_to_vec_integer(n).unwrap();
    out.append(&mut bytes);
}

/// Reads the number of an enum's variant.
pub fn decode_variant(input: &[u8]) -> (r: Result<(u32, &[u8]), Malformed>)
    ensures
        match r {
            Ok((n, rest)) => unvarint(input@, 4) == Some((n as nat, rest@)),
            Err(_) => unvarint(input@, 4) is None,
        },
{
    match decode_from_slice_u32(input) {
        Ok((n, len)) => Ok((n, slice_subrange(input, len, input.len()))),
        Err(_) => Err(Malformed),
    }
}

/// Reads an integer of at most eight bytes.
pub fn decode_integer(input: &[u8]) -> (r: Result<(u64, &[u8]), Malformed>)
    ensures
        match r {
            Ok((n, rest)) => unvarint(input@, 8) == Some((n as nat, rest@)),
            Err(_) => unvarint(input@, 8) is None,
        },
{
    match decode_from_slice_u64(input) {
        Ok((n, len)) => Ok((n, slice_subrange(input, len, input.len()))),
        Err(_) => Err(Malformed),
    }
}

impl Encode for u64 {
    type Content = u64;

    open spec fn content(&self) -> u64 {
        *self
    }

    open spec fn valid(content: u64) -> bool {
        true
    }

    open spec fn encoding(content: u64) -> Seq<u8> {
        varint(content as nat)
    }

    fn encode(&self, out: &mut Vec<u8>) {
        encode_integer(*self as u128, out);
    }
}

impl Decode for u64 {
    open spec fn parse(s: Seq<u8>) -> Option<(u64, Seq<u8>)> {
        match unvarint(s, 8) {
            Some((n, rest)) => Some((n as u64, rest)),
            None => None,
        }
    }

    proof fn lemma_parse_encoding(content: u64, rest: Seq<u8>) {
        lemma_pow256_values();
        lemma_unvarint(content as nat, 8, rest);
    }

    fn decode(input: &[u8]) -> (r: Result<(u64, &[u8]), Malformed>) {
        decode_integer(input)
    }
}

impl Encode for u128 {
    type Content = u128;

    open spec fn content(&self) -> u128 {
        *self
    }

    open spec fn valid(content: u128) -> bool {
        true
    }

    open spec fn encoding(content: u128) -> Seq<u8> {
        varint(content as nat)
    }

    fn encode(&self, out: &mut Vec<u8>) {
        encode_integer(*self, out);
    }
}

impl Decode for u128 {
    open spec fn parse(s: Seq<u8>) -> Option<(u128, Seq<u8>)> {
        match unvarint(s, 16) {
            Some((n, rest)) => Some((n as u128, rest)),
            None => None,
        }
    }

    proof fn lemma_parse_encoding(content: u128, rest: Seq<u8>) {
        lemma_pow256_values();
        lemma_unvarint(content as nat, 16, rest);
    }

    fn decode(input: &[u8]) -> (r: Result<(u128, &[u8]), Malformed>) {
        match decode_from_slice_u128(input) {
            Ok((n, len)) => Ok((n, slice_subrange(input, len, input.len()))),
            Err(_) => Err(Malformed),
        }
    }
}

impl Encode for String {
    type Content = Seq<char>;

    open spec fn content(&self) -> Seq<char> {
        self@
    }

    open spec fn valid(content: Seq<char>) -> bool {
        encode_utf8(content).len() < pow256(8)
    }

    open spec fn encoding(content: Seq<char>) -> Seq<u8> {
        string_encoding(content)
    }

    fn encode(&self, out: &mut Vec<u8>) {
        let text: &[u8] = self.as_str().as_bytes();
        let len: usize = text.len();
        proof {
            lemma_pow256_values();
            assert(len <= u64::MAX);
        }
        let mut bytes: Vec<u8> = encode_to_vec_str(self.as_str()).unwrap();
        out.append(&mut bytes);
    }
}

impl Decode for String {
    open spec fn parse(s: Seq<u8>) -> Option<(Seq<char>, Seq<u8>)> {
        string_parse(s)
    }

    proof fn lemma_parse_encoding(content: Seq<char>, rest: Seq<u8>) {
        lemma_string_parse(content, rest);
    }

    fn decode(input: &[u8]) -> (r: Result<(String, &[u8]), Malformed>) {
        match borrow_decode_from_slice_str(input) {
            Ok((s, len)) => Ok((s, slice_subrange(input, len, input.len()))),
            Err(_) => Err(Malformed),
        }
    }
}

/// A reference is stored as what it refers to.
impl<T: Encode> Encode for &T {
    type Content = T::Content;

    open spec fn content(&self) -> T::Content {
        (**self).content()
    }

    open spec fn valid(content: T::Content) -> bool {
        T::valid(content)
    }

    open spec fn encoding(content: T::Content) -> Seq<u8> {
        T::encoding(content)
    }

    fn encode(&self, out: &mut Vec<u8>) {
        (**self).encode(out);
    }
}

/// Two values are stored one after the other.
impl<A: Encode, B: Encode> Encode for (A, B) {
    type Content = (A::Content, B::Content);

    open spec fn content(&self) -> (A::Content, B::Content) {
        (self.0.content(), self.1.content())
    }

    open spec fn valid(content: (A::Content, B::Content)) -> bool {
        A::valid(content.0) && B::valid(content.1)
    }

    open spec fn encoding(content: (A::Content, B::Content)) -> Seq<u8> {
        A::encoding(content.0) + B::encoding(content.1)
    }

    fn encode(&self, out: &mut Vec<u8>) {
        self.0.encode(out);
        self.1.encode(out);
        proof {
            lemma_append_assoc(old(out)@, A::encoding(self.0.content()), B::encoding(self.1.content()));
        }
    }
}

impl<A: Decode, B: Decode> Decode for (A, B) {
    open spec fn parse(s: Seq<u8>) -> Option<((A::Content, B::Content), Seq<u8>)> {
        match A::parse(s) {
            Some((a, tail)) => match B::parse(tail) {
                Some((b, rest)) => Some(((a, b), rest)),
                None => None,
            },
            None => None,
        }
    }

    proof fn lemma_parse_encoding(content: (A::Content, B::Content), rest: Seq<u8>) {
        lemma_append_assoc(A::encoding(content.0), B::encoding(content.1), rest);
        A::lemma_parse_encoding(content.0, B::encoding(content.1) + rest);
        B::lemma_parse_encoding(content.1, rest);
    }

    fn decode(input: &[u8]) -> (r: Result<((A, B), &[u8]), Malformed>) {
        let (a, tail) = match A::decode(input) {
            Ok(read) => read,
            Err(e) => return Err(e),
        };
        match B::decode(tail) {
            Ok((b, rest)) => Ok(((a, b), rest)),
            Err(e) => Err(e),
        }
    }
}

/// An optional value is stored as a zero, or as a one and the value.
impl<T: Encode> Encode for Option<T> {
    type Content = Option<T::Content>;

    open spec fn content(&self) -> Option<T::Content> {
        match self {
            Some(value) => Some(value.content()),
            None => None,
        }
    }

    open spec fn valid(content: Option<T::Content>) -> bool {
        content matches Some(c) ==> T::valid(c)
    }

    open spec fn encoding(content: Option<T::Content>) -> Seq<u8> {
        match content {
            Some(c) => seq![1u8] + T::encoding(c),
            None => seq![0u8],
        }
    }

    fn encode(&self, out: &mut Vec<u8>) {
        match self {
            Some(value) => {
                out.push(1);
                value.encode(out);
                assert(out@ =~= old(out)@ + Self::encoding(self.content()));
            },
            None => {
                out.push(0);
                assert(out@ =~= old(out)@ + Self::encoding(self.content()));
            },
        }
    }
}

impl<T: Decode> Decode for Option<T> {
    open spec fn parse(s: Seq<u8>) -> Option<(Option<T::Content>, Seq<u8>)> {
        if s.len() == 0 || s[0] > 1 {
            None
        } else if s[0] == 0 {
            Some((None, s.skip(1)))
        } else {
            match T::parse(s.skip(1)) {
                Some((c, rest)) => Some((Some(c), rest)),
                None => None,
            }
        }
    }

    proof fn lemma_parse_encoding(content: Option<T::Content>, rest: Seq<u8>) {
        let s = Self::encoding(content) + rest;
        match content {
            Some(c) => {
                assert(s.skip(1) =~= T::encoding(c) + rest);
                T::lemma_parse_encoding(c, rest);
            },
            None => {
                assert(s.skip(1) =~= rest);
            },
        }
    }

    fn decode(input: &[u8]) -> (r: Result<(Option<T>, &[u8]), Malformed>) {
        if input.len() == 0 || input[0] > 1 {
            return Err(Malformed);
        }
        let tail = slice_subrange(input, 1, input.len());
        if input[0] == 0 {
            return Ok((None, tail));
        }
        match T::decode(tail) {
            Ok((value, rest)) => Ok((Some(value), rest)),
            Err(e) => Err(e),
        }
    }
}

/// The contents of values, in order.
pub open spec fn contents<T: Encode>(values: Seq<T>) -> Seq<T::Content> {
    Seq::new(values.len(), |i: int| values[i].content())
}

/// The stored forms of values, one after the other.
pub open spec fn encode_all<T: Encode>(contents: Seq<T::Content>) -> Seq<u8>
    decreases contents.len(),
{
    if contents.len() == 0 {
        Seq::empty()
    } else {
        encode_all::<T>(contents.drop_last()) + T::encoding(contents.last())
    }
}

/// The `n` values that `s` begins with, and what follows them.
pub open spec fn parse_all<T: Decode>(n: nat, s: Seq<u8>) -> Option<(Seq<T::Content>, Seq<u8>)>
    decreases n,
{
    if n == 0 {
        Some((Seq::empty(), s))
    } else {
        match parse_all::<T>((n - 1) as nat, s) {
            Some((init, tail)) => match T::parse(tail) {
                Some((last, rest)) => Some((init.push(last), rest)),
                None => None,
            },
            None => None,
        }
    }
}

/// All values that were written are read back.
pub proof fn lemma_parse_all_encode_all<T: Decode>(contents: Seq<T::Content>, rest: Seq<u8>)
    requires
        forall|i: int| 0 <= i < contents.len() ==> T::valid(#[trigger] contents[i]),
    ensures
        parse_all::<T>(contents.len(), encode_all::<T>(contents) + rest) == Some((contents, rest)),
    decreases contents.len(),
{
    if contents.len() == 0 {
        assert(encode_all::<T>(contents) + rest =~= rest);
        assert(contents =~= Seq::empty());
    } else {
        let init = contents.drop_last();
        let last = T::encoding(contents.last());
        assert forall|i: int| 0 <= i < init.len() implies T::valid(#[trigger] init[i]) by {
            assert(init[i] == contents[i]);
        }
        lemma_append_assoc(encode_all::<T>(init), last, rest);
        lemma_parse_all_encode_all::<T>(init, last + rest);
        assert(T::valid(contents[contents.len() - 1]));
        T::lemma_parse_encoding(contents.last(), rest);
        assert(init.push(contents.last()) =~= contents);
    }
}

/// Where fewer values cannot be read, more cannot be read either.
pub proof fn lemma_parse_all_prefix<T: Decode>(k: nat, n: nat, s: Seq<u8>)
    requires
        k <= n,
        parse_all::<T>(k, s) is None,
    ensures
        parse_all::<T>(n, s) is None,
    decreases n,
{
    if k < n {
        lemma_parse_all_prefix::<T>(k, (n - 1) as nat, s);
    }
}

/// A list is stored as its length and its values, one after the other.
impl<T: Encode> Encode for Vec<T> {
    type Content = Seq<T::Content>;

    open spec fn content(&self) -> Seq<T::Content> {
        contents(self@)
    }

    open spec fn valid(content: Seq<T::Content>) -> bool {
        &&& content.len() < pow256(8)
        &&& forall|i: int| 0 <= i < content.len() ==> T::valid(#[trigger] content[i])
    }

    open spec fn encoding(content: Seq<T::Content>) -> Seq<u8> {
        varint(content.len()) + encode_all::<T>(content)
    }

    fn encode(&self, out: &mut Vec<u8>) {
        let len: usize = self.len();
        proof {
            lemma_pow256_values();
            assert(len <= u64::MAX);
        }
        encode_integer(len as u128, out);
        let ghost head = out@;
        let ghost all = self.content();
        let mut i: usize = 0;
        assert(all.take(0) =~= Seq::empty());
        assert(head + encode_all::<T>(all.take(0)) =~= head);
        while i < len
            invariant
                i <= len,
                len == self@.len(),
                all == self.content(),
                out@ == head + encode_all::<T>(all.take(i as int)),
                forall|j: int| 0 <= j < i ==> T::valid(#[trigger] all[j]),
            decreases len - i,
        {
            self[i].encode(out);
            proof {
                let next = all.take(i + 1);
                assert(next.drop_last() =~= all.take(i as int));
                assert(next.last() == self[i as int].content());
                lemma_append_assoc(head, encode_all::<T>(all.take(i as int)), T::encoding(next.last()));
            }
            i += 1;
        }
        proof {
            assert(all.take(len as int) =~= all);
            lemma_append_assoc(old(out)@, varint(len as nat), encode_all::<T>(all));
        }
    }
}

impl<T: Decode> Decode for Vec<T> {
    open spec fn parse(s: Seq<u8>) -> Option<(Seq<T::Content>, Seq<u8>)> {
        match unvarint(s, 8) {
            Some((n, tail)) => parse_all::<T>(n, tail),
            None => None,
        }
    }

    proof fn lemma_parse_encoding(content: Seq<T::Content>, rest: Seq<u8>) {
        lemma_append_assoc(varint(content.len()), encode_all::<T>(content), rest);
        lemma_unvarint(content.len(), 8, encode_all::<T>(content) + rest);
        lemma_parse_all_encode_all::<T>(content, rest);
    }

    fn decode(input: &[u8]) -> (r: Result<(Vec<T>, &[u8]), Malformed>) {
        let (n, tail) = match decode_integer(input) {
            Ok(read) => read,
            Err(e) => return Err(e),
        };
        let mut values: Vec<T> = Vec::new();
        let mut rest: &[u8] = tail;
        let mut i: u64 = 0;
        assert(contents(values@) =~= Seq::empty());
        while i < n
            invariant
                i <= n,
                parse_all::<T>(i as nat, tail@) == Some((contents(values@), rest@)),
                unvarint(input@, 8) == Some((n as nat, tail@)),
            decreases n - i,
        {
            match T::decode(rest) {
                Ok((value, next)) => {
                    let ghost before = values@;
                    values.push(value);
                    rest = next;
                    assert(contents(values@) =~= contents(before).push(value.content()));
                },
                Err(e) => {
                    proof {
                        assert(parse_all::<T>((i + 1) as nat, tail@) is None);
                        lemma_parse_all_prefix::<T>((i + 1) as nat, n as nat, tail@);
                    }
                    return Err(e);
                },
            }
            i += 1;
        }
        Ok((values, rest))
    }
}

/// A list is stored as its length and then its values, one after the other, in order.
pub proof fn lemma_layout_of_lists<T: Encode>(a: Seq<T::Content>, b: Seq<T::Content>, x: T::Content)
    ensures
        <Vec<T> as Encode>::encoding(a) == varint(a.len()) + encode_all::<T>(a),
        encode_all::<T>(a + b) == encode_all::<T>(a) + encode_all::<T>(b),
        encode_all::<T>(seq![x]) == T::encoding(x),
        encode_all::<T>(Seq::empty()).len() == 0,
    decreases b.len(),
{
    reveal_with_fuel(encode_all, 2);
    assert(seq![x].drop_last() =~= Seq::empty());
    assert(Seq::<u8>::empty() + T::encoding(x) =~= T::encoding(x));
    if b.len() == 0 {
        assert(a + b =~= a);
        assert(encode_all::<T>(a) + encode_all::<T>(b) =~= encode_all::<T>(a));
    } else {
        lemma_layout_of_lists::<T>(a, b.drop_last(), x);
        assert((a + b).drop_last() =~= a + b.drop_last());
        assert((a + b).last() == b.last());
        lemma_append_assoc(encode_all::<T>(a), encode_all::<T>(b.drop_last()), T::encoding(b.last()));
    }
}

/// An optional value is stored as a zero byte where it is missing, and as a one and the value where
/// it is not. Two values are stored one after the other.
pub proof fn lemma_layout_of_options_and_pairs<A: Encode, B: Encode>(a: A::Content, b: B::Content)
    ensures
        <Option<A> as Encode>::encoding(None).len() == 1,
        <Option<A> as Encode>::encoding(None)[0] == 0,
        <Option<A> as Encode>::encoding(Some(a)).len() == 1 + A::encoding(a).len(),
        <Option<A> as Encode>::encoding(Some(a))[0] == 1,
        <Option<A> as Encode>::encoding(Some(a)).skip(1) == A::encoding(a),
        <(A, B) as Encode>::encoding((a, b)).take(A::encoding(a).len() as int) == A::encoding(a),
        <(A, B) as Encode>::encoding((a, b)).skip(A::encoding(a).len() as int) == B::encoding(b),
{
    assert(<Option<A> as Encode>::encoding(Some(a)).skip(1) =~= A::encoding(a));
    assert(<(A, B) as Encode>::encoding((a, b)).take(A::encoding(a).len() as int) =~= A::encoding(a));
    assert(<(A, B) as Encode>::encoding((a, b)).skip(A::encoding(a).len() as int) =~= B::encoding(b));
}

/// Integers are stored in the variable-length form, strings as the number of their bytes in UTF-8
/// and these bytes.
pub proof fn lemma_layout_of_integers_and_strings(n: u64, m: u128, s: Seq<char>)
    ensures
        u64::encoding(n) == varint(n as nat),
        u128::encoding(m) == varint(m as nat),
        String::encoding(s) == varint(encode_utf8(s).len()) + encode_utf8(s),
{
}

/// Integers and strings are read exactly where their stored form can be, and a pair exactly where
/// both of its values can be, one after the other.
pub proof fn lemma_reading_integers_strings_and_pairs<A: Decode, B: Decode>(s: Seq<u8>)
    ensures
        u64::parse(s) is Some <==> unvarint(s, 8) is Some,
        u128::parse(s) is Some <==> unvarint(s, 16) is Some,
        String::parse(s) == string_parse(s),
        match <(A, B) as Decode>::parse(s) {
            Some(((a, b), rest)) => A::parse(s) matches Some((first, tail)) && first == a && B::parse(tail) == Some(
                (b, rest),
            ),
            None => A::parse(s) is None || B::parse(A::parse(s)->Some_0.1) is None,
        },
{
}

/// An optional value is refused where the first byte is neither zero nor one, or where there is
/// none. A list is refused where its length cannot be read, and read to the end of its values
/// otherwise.
pub proof fn lemma_options_and_lists_are_refused<T: Decode>(s: Seq<u8>)
    ensures
        s.len() == 0 || s[0] > 1 ==> <Option<T> as Decode>::parse(s) is None,
        s.len() > 0 && s[0] == 0 ==> <Option<T> as Decode>::parse(s) == Some((None::<T::Content>, s.skip(1))),
        s.len() > 0 && s[0] == 1 && T::parse(s.skip(1)) is None ==> <Option<T> as Decode>::parse(s) is None,
        s.len() > 0 && s[0] == 1 && T::parse(s.skip(1)) is Some ==> <Option<T> as Decode>::parse(s) == Some(
            (Some(T::parse(s.skip(1))->Some_0.0), T::parse(s.skip(1))->Some_0.1),
        ),
        unvarint(s, 8) is None ==> <Vec<T> as Decode>::parse(s) is None,
        unvarint(s, 8) matches Some((n, tail)) ==> (<Vec<T> as Decode>::parse(s) matches Some((list, rest))
            ==> list.len() == n),
{
    if let Some((n, tail)) = unvarint(s, 8) {
        lemma_parse_all_len::<T>(n, tail);
    }
}

proof fn lemma_parse_all_len<T: Decode>(n: nat, s: Seq<u8>)
    ensures
        parse_all::<T>(n, s) matches Some((list, rest)) ==> list.len() == n,
    decreases n,
{
    if n > 0 {
        lemma_parse_all_len::<T>((n - 1) as nat, s);
    }
}

/// Values are read one after the other: where the next one can be read, it is the next of the list,
/// and where it cannot, the list cannot.
pub proof fn lemma_values_are_read_one_by_one<T: Decode>(n: nat, s: Seq<u8>)
    ensures
        parse_all::<T>(0, s) == Some((Seq::<T::Content>::empty(), s)),
        match parse_all::<T>(n, s) {
            None => parse_all::<T>(n + 1, s) is None,
            Some((list, tail)) => match T::parse(tail) {
                None => parse_all::<T>(n + 1, s) is None,
                Some((value, rest)) => parse_all::<T>(n + 1, s) == Some((list.push(value), rest)),
            },
        },
{
}

} // verus!
