//! Numbers as sequences of bytes.
use vstd::arithmetic::power2::{lemma2_to64, lemma_pow2_adds, pow2};
use vstd::prelude::*;

verus! {

/// 256 to the power `k`: how many numbers `k` bytes can hold.
pub open spec fn pow256(k: nat) -> nat
    decreases k,
{
    if k == 0 {
        1
    } else {
        256 * pow256((k - 1) as nat)
    }
}

/// `k` bytes have eight times as many bits.
pub proof fn lemma_pow256_is_pow2(k: nat)
    ensures
        pow256(k) == pow2(8 * k),
    decreases k,
{
    lemma2_to64();
    if k > 0 {
        lemma_pow256_is_pow2((k - 1) as nat);
        lemma_pow2_adds(8, (8 * (k - 1)) as nat);
    }
}

/// The number that `s` writes in base 256, most significant byte first.
pub open spec fn be_value(s: Seq<u8>) -> nat
    decreases s.len(),
{
    if s.len() == 0 {
        0
    } else {
        be_value(s.drop_last()) * 256 + s.last() as nat
    }
}

/// `n` in base 256, most significant byte first, without leading zeros.
pub open spec fn minimal_be(n: nat) -> Seq<u8>
    decreases n,
{
    if n == 0 {
        Seq::empty()
    } else {
        minimal_be(n / 256).push((n % 256) as u8)
    }
}

/// The number that `s` writes in base 256, least significant byte first.
pub open spec fn le_value(s: Seq<u8>) -> nat
    decreases s.len(),
{
    if s.len() == 0 {
        0
    } else {
        s[0] as nat + 256 * le_value(s.drop_first())
    }
}

/// The `k` least significant bytes of `n`, least significant byte first.
pub open spec fn le_bytes(n: nat, k: nat) -> Seq<u8>
    decreases k,
{
    if k == 0 {
        Seq::empty()
    } else {
        seq![(n % 256) as u8] + le_bytes(n / 256, (k - 1) as nat)
    }
}

/// `k` zero bytes.
pub open spec fn zeros(k: nat) -> Seq<u8> {
    Seq::new(k, |i: int| 0u8)
}

/// Bytes can be joined in any grouping.
pub proof fn lemma_append_assoc(a: Seq<u8>, b: Seq<u8>, c: Seq<u8>)
    ensures
        (a + b) + c == a + (b + c),
{
    assert((a + b) + c =~= a + (b + c));
}

pub proof fn lemma_be_value_bound(s: Seq<u8>)
    ensures
        be_value(s) < pow256(s.len()),
    decreases s.len(),
{
    if s.len() > 0 {
        lemma_be_value_bound(s.drop_last());
    }
}

/// Leading zeros do not change the number.
pub proof fn lemma_be_value_leading_zeros(k: nat, s: Seq<u8>)
    ensures
        be_value(zeros(k) + s) == be_value(s),
    decreases k + s.len(),
{
    if s.len() > 0 {
        assert((zeros(k) + s).drop_last() =~= zeros(k) + s.drop_last());
        lemma_be_value_leading_zeros(k, s.drop_last());
    } else if k > 0 {
        assert(zeros(k) + s =~= zeros(k));
        assert(zeros(k).drop_last() =~= zeros((k - 1) as nat));
        assert(zeros((k - 1) as nat) + s =~= zeros((k - 1) as nat));
        lemma_be_value_leading_zeros((k - 1) as nat, s);
    } else {
        assert(zeros(k) + s =~= s);
    }
}

/// Of two numbers written with equally many bytes, the one with the smaller byte at the first
/// difference is the smaller one.
pub proof fn lemma_be_value_lexicographic(a: Seq<u8>, b: Seq<u8>, i: int)
    requires
        a.len() == b.len(),
        0 <= i < a.len(),
        a.take(i) == b.take(i),
        a[i] < b[i],
    ensures
        be_value(a) < be_value(b),
    decreases a.len(),
{
    if i == a.len() - 1 {
        assert(a.drop_last() =~= a.take(i));
        assert(b.drop_last() =~= b.take(i));
    } else {
        assert(a.drop_last().take(i) =~= a.take(i));
        assert(b.drop_last().take(i) =~= b.take(i));
        lemma_be_value_lexicographic(a.drop_last(), b.drop_last(), i);
    }
}

/// Equally long byte strings that write the same number are equal.
pub proof fn lemma_be_value_injective(a: Seq<u8>, b: Seq<u8>)
    requires
        a.len() == b.len(),
        be_value(a) == be_value(b),
    ensures
        a == b,
    decreases a.len(),
{
    if a.len() == 0 {
        assert(a =~= b);
    } else {
        lemma_be_value_injective(a.drop_last(), b.drop_last());
        assert(a =~= a.drop_last().push(a.last()));
        assert(b =~= b.drop_last().push(b.last()));
    }
}

/// A byte string without leading zeros is the minimal form of the number that it writes.
pub proof fn lemma_minimal_be_unique(s: Seq<u8>)
    requires
        s.len() > 0 ==> s[0] != 0,
    ensures
        minimal_be(be_value(s)) == s,
    decreases s.len(),
{
    if s.len() == 0 {
        assert(minimal_be(be_value(s)) =~= s);
    } else {
        let init = s.drop_last();
        lemma_minimal_be_unique(init);
        if init.len() == 0 {
            assert(be_value(init) == 0);
            assert(s =~= seq![s[0]]);
        } else {
            lemma_be_value_positive(init);
        }
        assert(be_value(s) / 256 == be_value(init));
        assert(be_value(s) % 256 == s.last() as nat);
        assert(be_value(s) > 0);
        assert(init.push(s.last()) =~= s);
    }
}

proof fn lemma_be_value_positive(s: Seq<u8>)
    requires
        s.len() > 0,
        s[0] != 0,
    ensures
        be_value(s) > 0,
    decreases s.len(),
{
    if s.len() > 1 {
        lemma_be_value_positive(s.drop_last());
    }
}

/// The minimal form of a number writes that number.
pub proof fn lemma_minimal_be_value(n: nat)
    ensures
        be_value(minimal_be(n)) == n,
    decreases n,
{
    if n > 0 {
        lemma_minimal_be_value(n / 256);
        assert(minimal_be(n).drop_last() =~= minimal_be(n / 256));
    }
}

/// The minimal form has no leading zero.
pub proof fn lemma_minimal_be_is_minimal(n: nat)
    ensures
        minimal_be(n).len() > 0 ==> minimal_be(n)[0] != 0,
        minimal_be(n).len() == 0 <==> n == 0,
    decreases n,
{
    if n > 0 {
        lemma_minimal_be_is_minimal(n / 256);
        if n < 256 {
            assert(minimal_be(n / 256).len() == 0);
        }
    }
}

/// A number that fits `k` bytes has a minimal form of at most `k` bytes.
pub proof fn lemma_minimal_be_len(n: nat, k: nat)
    requires
        n < pow256(k),
    ensures
        minimal_be(n).len() <= k,
    decreases k,
{
    if n > 0 {
        assert(k > 0);
        assert(n / 256 < pow256((k - 1) as nat));
        lemma_minimal_be_len(n / 256, (k - 1) as nat);
    }
}

pub proof fn lemma_le_bytes_len(n: nat, k: nat)
    ensures
        le_bytes(n, k).len() == k,
    decreases k,
{
    if k > 0 {
        lemma_le_bytes_len(n / 256, (k - 1) as nat);
    }
}

/// `k` bytes hold every number below 256 to the power `k`.
pub proof fn lemma_le_value_of_bytes(n: nat, k: nat)
    requires
        n < pow256(k),
    ensures
        le_value(le_bytes(n, k)) == n,
    decreases k,
{
    if k > 0 {
        assert(n / 256 < pow256((k - 1) as nat));
        lemma_le_value_of_bytes(n / 256, (k - 1) as nat);
        assert(le_bytes(n, k).drop_first() =~= le_bytes(n / 256, (k - 1) as nat));
    }
}

pub proof fn lemma_pow256_values()
    ensures
        pow256(2) == 0x1_0000,
        pow256(4) == 0x1_0000_0000,
        pow256(8) == 0x1_0000_0000_0000_0000,
        pow256(16) == 0x1_0000_0000_0000_0000_0000_0000_0000_0000,
{
    reveal_with_fuel(pow256, 17);
}

/// The number that two byte strings write together, one after the other.
pub proof fn lemma_be_value_concat(a: Seq<u8>, b: Seq<u8>)
    ensures
        be_value(a + b) == be_value(a) * pow256(b.len()) + be_value(b),
    decreases b.len(),
{
    if b.len() == 0 {
        assert(a + b =~= a);
        let n = be_value(a);
        let one = pow256(0);
        assert(n * one == n) by (nonlinear_arith)
            requires
                one == 1,
        ;
    } else {
        let init = b.drop_last();
        lemma_be_value_concat(a, init);
        assert((a + b).drop_last() =~= a + init);
        let n = be_value(a);
        let p = pow256(init.len());
        let q = pow256(b.len());
        let low = be_value(init);
        assert((n * p + low) * 256 == n * q + low * 256) by (nonlinear_arith)
            requires
                q == 256 * p,
        ;
    }
}

/// A single byte writes itself, and no byte writes zero. The order of the bytes is all that the two
/// ways to write a number differ in.
pub proof fn lemma_values_of_bytes(byte: u8, s: Seq<u8>)
    ensures
        be_value(seq![byte]) == byte,
        be_value(Seq::empty()) == 0,
        le_value(s) == be_value(s.reverse()),
    decreases s.len(),
{
    reveal_with_fuel(be_value, 2);
    assert(seq![byte].drop_last() =~= Seq::empty());
    if s.len() > 0 {
        lemma_values_of_bytes(byte, s.drop_first());
        assert(s.reverse().drop_last() =~= s.drop_first().reverse());
        assert(s.reverse().last() == s[0]);
    }
}

} // verus!
