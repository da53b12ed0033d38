//! Elements of the Stark field.
use crate::bytes::{be_value, lemma_be_value_bound, lemma_be_value_concat, lemma_be_value_injective,
    lemma_be_value_leading_zeros, lemma_be_value_lexicographic, lemma_pow256_is_pow2, lemma_values_of_bytes, pow256,
    zeros};
use vstd::arithmetic::power2::{lemma2_to64, lemma_pow2_adds, pow2};
use vstd::prelude::*;
use vstd::string::StringExecFns;

verus! {

/// The order of the field, `2^251 + 17 * 2^192 + 1`, most significant byte first.
pub const MODULUS: [u8; 32] = [
    0x08, 0, 0, 0, 0, 0, 0, 0x11,
    0, 0, 0, 0, 0, 0, 0, 0,
    0, 0, 0, 0, 0, 0, 0, 0,
    0, 0, 0, 0, 0, 0, 0, 0x01,
];

/// The order of the field as a number.
pub open spec fn modulus() -> nat {
    be_value(MODULUS@)
}

/// The bytes write a number that is no field element.
#[derive(Clone, Copy, Debug, PartialEq, Eq)]
pub struct OverflowError;

/// A field element. Its view is the number that it stands for.
#[derive(Clone, Copy, Debug, Eq)]
pub struct Felt {
    bytes: [u8; 32],
}

impl View for Felt {
    type V = nat;

    closed spec fn view(&self) -> nat {
        be_value(self.bytes@)
    }
}

impl vstd::std_specs::cmp::PartialEqSpecImpl for Felt {
    open spec fn obeys_eq_spec() -> bool {
        true
    }

    open spec fn eq_spec(&self, other: &Felt) -> bool {
        self@ == other@
    }
}

impl PartialEq for Felt {
    fn eq(&self, other: &Felt) -> (r: bool) {
        let mut i: usize = 0;
        while i < 32
            invariant
                i <= 32,
                forall|j: int| 0 <= j < i ==> self.bytes[j] == other.bytes[j],
            decreases 32 - i,
        {
            if self.bytes[i] != other.bytes[i] {
                proof {
                    if self@ == other@ {
                        lemma_be_value_injective(self.bytes@, other.bytes@);
                        assert(self.bytes@[i as int] == other.bytes@[i as int]);
                    }
                }
                return false;
            }
            i += 1;
        }
        assert(self.bytes@ =~= other.bytes@);
        true
    }
}

impl Felt {
    #[verifier::type_invariant]
    spec fn reduced(self) -> bool {
        be_value(self.bytes@) < modulus()
    }

    /// The element zero.
    pub fn zero() -> (r: Felt)
        ensures
            r@ == 0,
    {
        proof {
            lemma_zero_bytes();
        }
        Felt { bytes: zero_bytes() }
    }

    /// Reads an element from its 32 bytes, most significant byte first.
    pub fn from_be_bytes(bytes: [u8; 32]) -> (r: Result<Felt, OverflowError>)
        ensures
            match r {
                Ok(felt) => felt@ == be_value(bytes@) && be_value(bytes@) < modulus(),
                Err(_) => be_value(bytes@) >= modulus(),
            },
    {
        let mut i: usize = 0;
        while i < 32
            invariant
                i <= 32,
                bytes@.take(i as int) == MODULUS@.take(i as int),
            decreases 32 - i,
        {
            if bytes[i] < MODULUS[i] {
                proof {
                    lemma_be_value_lexicographic(bytes@, MODULUS@, i as int);
                }
                return Ok(Felt { bytes });
            }
            if bytes[i] > MODULUS[i] {
                proof {
                    lemma_be_value_lexicographic(MODULUS@, bytes@, i as int);
                }
                return Err(OverflowError);
            }
            assert(bytes@.take(i + 1) =~= bytes@.take(i as int).push(bytes@[i as int]));
            assert(MODULUS@.take(i + 1) =~= MODULUS@.take(i as int).push(MODULUS@[i as int]));
            i += 1;
        }
        assert(bytes@.take(32) =~= bytes@);
        assert(MODULUS@.take(32) =~= MODULUS@);
        Err(OverflowError)
    }

    /// Reads an element from at most 32 bytes, most significant byte first.
    pub fn from_be_slice(slice: &[u8]) -> (r: Result<Felt, OverflowError>)
        ensures
            match r {
                Ok(felt) => slice@.len() <= 32 && felt@ == be_value(slice@) && be_value(slice@) < modulus(),
                Err(_) => slice@.len() > 32 || be_value(slice@) >= modulus(),
            },
    {
        let len: usize = slice.len();
        if len > 32 {
            return Err(OverflowError);
        }
        let mut bytes: [u8; 32] = zero_bytes();
        let start: usize = 32 - len;
        let mut i: usize = 0;
        while i < len
            invariant
                i <= len,
                len == slice@.len(),
                len <= 32,
                start == 32 - len,
                forall|j: int| 0 <= j < start ==> bytes@[j] == 0,
                forall|j: int| 0 <= j < i ==> bytes@[start + j] == slice@[j],
            decreases len - i,
        {
            bytes[start + i] = slice[i];
            i += 1;
        }
        proof {
            assert(bytes@ =~= zeros(start as nat) + slice@);
            lemma_be_value_leading_zeros(start as nat, slice@);
        }
        Felt::from_be_bytes(bytes)
    }

    /// The element with a given number.
    pub fn from_u64(n: u64) -> (r: Felt)
        ensures
            r@ == n,
    {
        let q1: u64 = n / 256;
        let q2: u64 = q1 / 256;
        let q3: u64 = q2 / 256;
        let q4: u64 = q3 / 256;
        let q5: u64 = q4 / 256;
        let q6: u64 = q5 / 256;
        let q7: u64 = q6 / 256;
        let bytes: [u8; 32] = [
            0, 0, 0, 0, 0, 0, 0, 0,
            0, 0, 0, 0, 0, 0, 0, 0,
            0, 0, 0, 0, 0, 0, 0, 0,
            q7 as u8, (q6 % 256) as u8, (q5 % 256) as u8, (q4 % 256) as u8,
            (q3 % 256) as u8, (q2 % 256) as u8, (q1 % 256) as u8, (n % 256) as u8,
        ];
        proof {
            assert(bytes@.take(24) =~= zeros(24) + Seq::empty());
            lemma_be_value_leading_zeros(24, Seq::empty());
            assert(bytes@.take(25).drop_last() =~= bytes@.take(24));
            assert(bytes@.take(26).drop_last() =~= bytes@.take(25));
            assert(bytes@.take(27).drop_last() =~= bytes@.take(26));
            assert(bytes@.take(28).drop_last() =~= bytes@.take(27));
            assert(bytes@.take(29).drop_last() =~= bytes@.take(28));
            assert(bytes@.take(30).drop_last() =~= bytes@.take(29));
            assert(bytes@.take(31).drop_last() =~= bytes@.take(30));
            assert(bytes@.drop_last() =~= bytes@.take(31));
            assert(be_value(bytes@.take(25)) == q7);
            assert(be_value(bytes@.take(26)) == q6);
            assert(be_value(bytes@.take(27)) == q5);
            assert(be_value(bytes@.take(28)) == q4);
            assert(be_value(bytes@.take(29)) == q3);
            assert(be_value(bytes@.take(30)) == q2);
            assert(be_value(bytes@.take(31)) == q1);
            assert(be_value(bytes@) == n);
            assert(bytes@.take(0) =~= MODULUS@.take(0));
            lemma_be_value_lexicographic(bytes@, MODULUS@, 0);
        }
        Felt { bytes }
    }

    /// The element's 32 bytes, most significant byte first. They write a number below the order of
    /// the field.
    pub fn as_be_bytes(&self) -> (r: &[u8; 32])
        ensures
            be_value(r@) == self@,
            self@ < modulus(),
    {
        proof {
            use_type_invariant(self);
        }
        &self.bytes
    }

    /// Whether the number needs more than 251 bits.
    pub fn has_more_than_251_bits(&self) -> (r: bool)
        ensures
            r == (self@ >= 8 * pow256(31)),
    {
        proof {
            lemma_top_byte(self.bytes@);
        }
        self.bytes[0] >= 8
    }

    /// The element in hexadecimal, with the prefix `0x` and without leading zeros.
    pub fn to_hex_str(&self) -> (r: String)
        ensures
            r@ == seq!['0', 'x'] + hex_digits(self@),
    {
        let mut digits = String::new();
        let mut i: usize = 0;
        assert(digits@ =~= significant_digits(0));
        assert(self.bytes@.take(0) =~= Seq::<u8>::empty());
        while i < 32
            invariant
                i <= 32,
                digits@ == significant_digits(be_value(self.bytes@.take(i as int))),
            decreases 32 - i,
        {
            let ghost value = be_value(self.bytes@.take(i as int));
            let byte: u8 = self.bytes[i];
            let high: u8 = byte / 16;
            let low: u8 = byte % 16;
            if high != 0 || !digits.as_str().is_empty() {
                digits.append(hex_digit_str(high));
            }
            proof {
                lemma_next_digit(value, high as nat);
            }
            assert(digits@ =~= significant_digits(value * 16 + high as nat));
            if low != 0 || !digits.as_str().is_empty() {
                digits.append(hex_digit_str(low));
            }
            proof {
                lemma_next_digit(value * 16 + high as nat, low as nat);
            }
            assert(digits@ =~= significant_digits((value * 16 + high as nat) * 16 + low as nat));
            assert(self.bytes@.take(i + 1).drop_last() =~= self.bytes@.take(i as int));
            i += 1;
        }
        assert(self.bytes@.take(32) =~= self.bytes@);
        let mut r = String::new();
        r.append("0x");
        proof {
            reveal_strlit("0x");
        }
        if digits.as_str().is_empty() {
            r.append(hex_digit_str(0));
        } else {
            r.append(digits.as_str());
        }
        assert(r@ =~= seq!['0', 'x'] + hex_digits(self@));
        r
    }
}

/// 32 zero bytes.
fn zero_bytes() -> (r: [u8; 32])
    ensures
        r@ == zeros(32),
{
    let r: [u8; 32] = [
        0, 0, 0, 0, 0, 0, 0, 0,
        0, 0, 0, 0, 0, 0, 0, 0,
        0, 0, 0, 0, 0, 0, 0, 0,
        0, 0, 0, 0, 0, 0, 0, 0,
    ];
    assert(r@ =~= zeros(32));
    r
}

proof fn lemma_zero_bytes()
    ensures
        be_value(zeros(32)) == 0,
        0 < modulus(),
{
    assert(zeros(32) =~= zeros(32) + Seq::empty());
    lemma_be_value_leading_zeros(32, Seq::empty());
    assert(zeros(32).take(0) =~= MODULUS@.take(0));
    lemma_be_value_lexicographic(zeros(32), MODULUS@, 0);
}

/// The field fits 32 bytes.
pub proof fn lemma_modulus_bound()
    ensures
        modulus() < pow256(32),
{
    lemma_be_value_bound(MODULUS@);
}

/// The topmost of 32 bytes tells whether the number needs more than 251 bits.
proof fn lemma_top_byte(s: Seq<u8>)
    requires
        s.len() == 32,
    ensures
        s[0] >= 8 <==> be_value(s) >= 8 * pow256(31),
{
    lemma_be_value_prefix(s, 31);
    lemma_be_value_bound(s.skip(1));
    assert(be_value(s.take(1)) == s[0] as nat) by {
        assert(s.take(1).drop_last().len() == 0);
        assert(be_value(s.take(1).drop_last()) == 0);
    }
    let top = s[0] as nat;
    let p = pow256(31);
    let low = be_value(s.skip(1));
    assert(top >= 8 ==> top * p >= 8 * p) by (nonlinear_arith);
    assert(top <= 7 ==> top * p <= 7 * p) by (nonlinear_arith);
}

/// The number in two parts: what stands before the last `k` bytes, and the last `k` bytes.
proof fn lemma_be_value_prefix(s: Seq<u8>, k: nat)
    requires
        k <= s.len(),
    ensures
        be_value(s) == be_value(s.take(s.len() - k)) * pow256(k) + be_value(s.skip(s.len() - k)),
    decreases k,
{
    if k == 0 {
        assert(s.take(s.len() as int) =~= s);
        assert(s.skip(s.len() as int) =~= Seq::<u8>::empty());
        let a = be_value(s);
        let one = pow256(0);
        assert(a * one == a) by (nonlinear_arith)
            requires
                one == 1,
        ;
    } else {
        let init = s.drop_last();
        lemma_be_value_prefix(init, (k - 1) as nat);
        assert(init.take(init.len() - (k - 1)) =~= s.take(s.len() - k));
        assert(init.skip(init.len() - (k - 1)) =~= s.skip(s.len() - k).drop_last());
        let a = be_value(s.take(s.len() - k));
        let p = pow256((k - 1) as nat);
        let low = be_value(s.skip(s.len() - k).drop_last());
        let q = pow256(k);
        assert((a * p + low) * 256 == a * q + low * 256) by (nonlinear_arith)
            requires
                q == 256 * p,
        ;
        assert(s.skip(s.len() - k).last() == s.last());
    }
}

/// The hexadecimal digit of a number below sixteen.
pub open spec fn hex_digit(n: nat) -> char {
    if n < 10 {
        ('0' as nat + n) as char
    } else {
        ('a' as nat + n - 10) as char
    }
}

/// `n` in hexadecimal, without leading zeros.
pub open spec fn hex_digits(n: nat) -> Seq<char>
    decreases n,
{
    if n < 16 {
        seq![hex_digit(n)]
    } else {
        hex_digits(n / 16).push(hex_digit(n % 16))
    }
}

/// The same, but nothing at all for zero.
spec fn significant_digits(n: nat) -> Seq<char> {
    if n == 0 {
        Seq::empty()
    } else {
        hex_digits(n)
    }
}

proof fn lemma_next_digit(n: nat, digit: nat)
    requires
        digit < 16,
    ensures
        significant_digits(n).len() == 0 <==> n == 0,
        significant_digits(n * 16 + digit) == if n == 0 && digit == 0 {
            Seq::empty()
        } else {
            significant_digits(n).push(hex_digit(digit))
        },
{
    if n == 0 {
        assert(significant_digits(digit) =~= if digit == 0 {
            Seq::empty()
        } else {
            significant_digits(0).push(hex_digit(digit))
        });
    } else {
        assert((n * 16 + digit) / 16 == n);
        assert((n * 16 + digit) % 16 == digit);
    }
}

fn hex_digit_str(n: u8) -> (r: &'static str)
    requires
        n < 16,
    ensures
        r@ == seq![hex_digit(n as nat)],
{
    proof {
        reveal_strlit("0");
        reveal_strlit("1");
        reveal_strlit("2");
        reveal_strlit("3");
        reveal_strlit("4");
        reveal_strlit("5");
        reveal_strlit("6");
        reveal_strlit("7");
        reveal_strlit("8");
        reveal_strlit("9");
        reveal_strlit("a");
        reveal_strlit("b");
        reveal_strlit("c");
        reveal_strlit("d");
        reveal_strlit("e");
        reveal_strlit("f");
    }
    let r = match n {
        0 => "0",
        1 => "1",
        2 => "2",
        3 => "3",
        4 => "4",
        5 => "5",
        6 => "6",
        7 => "7",
        8 => "8",
        9 => "9",
        10 => "a",
        11 => "b",
        12 => "c",
        13 => "d",
        14 => "e",
        _ => "f",
    };
    assert(r@ =~= seq![hex_digit(n as nat)]);
    r
}

/// The order of the field.
pub proof fn lemma_modulus()
    ensures
        modulus() == pow2(251) + 17 * pow2(192) + 1,
{
    let s = MODULUS@;
    let top = seq![0x08u8];
    let middle = zeros(6) + seq![0x11u8];
    let low = zeros(23) + seq![0x01u8];
    assert(s =~= (top + middle) + low);
    lemma_be_value_concat(top + middle, low);
    lemma_be_value_concat(top, middle);
    lemma_be_value_leading_zeros(6, seq![0x11u8]);
    lemma_be_value_leading_zeros(23, seq![0x01u8]);
    lemma_values_of_bytes(0x08, s);
    lemma_values_of_bytes(0x11, s);
    lemma_values_of_bytes(0x01, s);
    lemma_pow256_is_pow2(7);
    lemma_pow256_is_pow2(24);
    lemma2_to64();
    lemma_pow2_adds(3, 56);
    lemma_pow2_adds(59, 192);
    let p = pow2(59);
    let q = pow2(192);
    assert((p + 17) * q == p * q + 17 * q) by (nonlinear_arith);
}

/// The number that a hexadecimal digit stands for.
pub open spec fn digit_value(c: char) -> int {
    if '0' <= c <= '9' {
        c as int - '0' as int
    } else {
        c as int - 'a' as int + 10
    }
}

/// The number that hexadecimal digits write.
pub open spec fn hex_value(s: Seq<char>) -> int
    decreases s.len(),
{
    if s.len() == 0 {
        0
    } else {
        16 * hex_value(s.drop_last()) + digit_value(s.last())
    }
}

/// The hexadecimal form of a number writes this number, in lower case, and without leading zeros.
pub proof fn lemma_hex_digits(n: nat)
    ensures
        hex_value(hex_digits(n)) == n,
        hex_digits(n).len() > 0,
        forall|i: int|
            0 <= i < hex_digits(n).len() ==> '0' <= #[trigger] hex_digits(n)[i] <= '9' || 'a' <= hex_digits(n)[i] <=
                'f',
        hex_digits(n)[0] == '0' ==> n == 0,
        n == 0 ==> hex_digits(n).len() == 1,
    decreases n,
{
    reveal_with_fuel(hex_value, 2);
    if n < 16 {
        assert(hex_digits(n).drop_last() =~= Seq::empty());
    } else {
        lemma_hex_digits(n / 16);
        assert(hex_digits(n).drop_last() =~= hex_digits(n / 16));
        assert(hex_digits(n)[0] == hex_digits(n / 16)[0]);
        assert forall|i: int| 0 <= i < hex_digits(n).len() implies '0' <= #[trigger] hex_digits(n)[i] <= '9' || 'a'
            <= hex_digits(n)[i] <= 'f' by {
            if i < hex_digits(n).len() - 1 {
                assert(hex_digits(n)[i] == hex_digits(n / 16)[i]);
            }
        }
    }
}

} // verus!
