//! Candid's variable-length integers: a `Nat` is written as unsigned LEB128 and an
//! `Int` as signed LEB128, seven bits per byte, least significant group first, the
//! top bit of each byte but the last set.

use vstd::prelude::*;

verus! {

/// The bytes have LEB128's shape: at least one byte, the top bit set on every byte
/// but the last, and clear on the last.
pub open spec fn leb128_form(s: Seq<u8>) -> bool {
    &&& s.len() >= 1
    &&& s.last() < 128
    &&& forall|i: int| 0 <= i < s.len() - 1 ==> s[i] >= 128
}

/// The unsigned value of LEB128 bytes: the low seven bits of each byte, least
/// significant group first.
pub open spec fn leb128_value(s: Seq<u8>) -> nat
    decreases s.len(),
{
    if s.len() == 0 {
        0
    } else {
        (s[0] % 128) as nat + 128 * leb128_value(s.drop_first())
    }
}

/// `128` to the power `n`.
pub open spec fn pow128(n: nat) -> nat
    decreases n,
{
    if n == 0 {
        1
    } else {
        128 * pow128((n - 1) as nat)
    }
}

/// The signed value of signed LEB128 bytes: the unsigned value, less `128` to the
/// power of the byte count when the last group's sign bit (`0x40`) is set.
pub open spec fn sleb128_value(s: Seq<u8>) -> int {
    if s.len() >= 1 && s.last() % 128 >= 64 {
        leb128_value(s) - pow128(s.len())
    } else {
        leb128_value(s) as int
    }
}

/// The shortest LEB128 bytes of `n`.
pub open spec fn leb128_of(n: nat) -> Seq<u8>
    decreases n,
{
    if n < 128 {
        seq![n as u8]
    } else {
        seq![(n % 128 + 128) as u8] + leb128_of(n / 128)
    }
}

/// The shortest LEB128 bytes of `n` have LEB128's shape and read back as `n`.
pub proof fn lemma_leb128_round_trip(n: nat)
    ensures
        leb128_form(leb128_of(n)),
        leb128_value(leb128_of(n)) == n,
    decreases n,
{
    if n < 128 {
        let s = leb128_of(n);
        assert(s.drop_first() =~= Seq::<u8>::empty());
        assert(s[0] == n);
        assert(leb128_value(Seq::<u8>::empty()) == 0);
        assert(leb128_value(s) == (s[0] % 128) as nat + 128 * leb128_value(s.drop_first()));
    } else {
        lemma_leb128_round_trip(n / 128);
        let s = leb128_of(n);
        assert(s.drop_first() =~= leb128_of(n / 128));
        assert(s[0] == n % 128 + 128);
        assert(s[0] % 128 == n % 128);
        assert(leb128_value(s) == (s[0] % 128) as nat + 128 * leb128_value(s.drop_first()));
        assert(n == n % 128 + 128 * (n / 128)) by (nonlinear_arith);
    }
}

proof fn lemma_value_step(s: Seq<u8>, i: int)
    requires
        0 <= i < s.len(),
    ensures
        leb128_value(s.skip(i)) == (s[i] % 128) as nat + 128 * leb128_value(s.skip(i + 1)),
{
    assert(s.skip(i).drop_first() =~= s.skip(i + 1));
}

/// The value of LEB128 bytes, or `u128::MAX` when it is larger.
pub fn leb128_saturating_u128(s: &Vec<u8>) -> (r: u128)
    ensures
        r == (if leb128_value(s@) <= u128::MAX { leb128_value(s@) } else { u128::MAX as nat }),
{
    let mut acc: u128 = 0;
    let mut over = false;
    let mut i = s.len();
    assert(s@.skip(s@.len() as int) =~= Seq::<u8>::empty());
    while i > 0
        invariant
            i <= s.len(),
            over ==> leb128_value(s@.skip(i as int)) > u128::MAX,
            !over ==> acc == leb128_value(s@.skip(i as int)),
        decreases i,
    {
        i = i - 1;
        proof {
            lemma_value_step(s@, i as int);
        }
        let d: u128 = (s[i] % 128) as u128;
        if !over {
            if acc <= (u128::MAX - d) / 128 {
                assert(128 * acc + d <= u128::MAX) by (nonlinear_arith)
                    requires
                        acc <= (u128::MAX - d) / 128,
                        d < 128,
                ;
                acc = d + 128 * acc;
            } else {
                assert(128 * acc + d > u128::MAX) by (nonlinear_arith)
                    requires
                        acc > (u128::MAX - d) / 128,
                        d < 128,
                ;
                over = true;
            }
        } else {
            let ghost rest = leb128_value(s@.skip(i + 1));
            assert(128 * rest >= rest) by (nonlinear_arith);
        }
    }
    assert(s@.skip(0) =~= s@);
    if over {
        u128::MAX
    } else {
        acc
    }
}

} // verus!
