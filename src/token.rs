//! Token-account balances.

use vstd::prelude::*;

verus! {

/// Where a token account keeps its balance: after the 32-byte mint and the
/// 32-byte owner.
pub const AMOUNT_OFFSET: usize = 64;

/// The little-endian integer of eight bytes.
pub open spec fn le_u64(b: Seq<u8>) -> int {
    b[0] as int + 256 * (b[1] as int + 256 * (b[2] as int + 256 * (b[3] as int + 256 * (b[4] as int + 256 * (
    b[5] as int + 256 * (b[6] as int + 256 * b[7] as int))))))
}

/// The balance a token account's bytes record, or `None` when the bytes are
/// too short to hold one.
pub fn token_amount(data: &Vec<u8>) -> (r: Option<u64>)
    ensures
        data@.len() < AMOUNT_OFFSET + 8 ==> r is None,
        data@.len() >= AMOUNT_OFFSET + 8 ==> (r matches Some(x) && x as int == le_u64(
            data@.subrange(AMOUNT_OFFSET as int, AMOUNT_OFFSET + 8),
        )),
{
    if data.len() < AMOUNT_OFFSET + 8 {
        return None;
    }
    let ghost b = data@.subrange(AMOUNT_OFFSET as int, AMOUNT_OFFSET + 8);
    proof {
        assert(pow256(8) == 0x1_0000_0000_0000_0000) by {
            reveal_with_fuel(pow256, 9);
        }
    }
    let mut x: u64 = 0;
    let mut i: usize = 8;
    while i > 0
        invariant
            i <= 8,
            data@.len() >= AMOUNT_OFFSET + 8,
            b == data@.subrange(AMOUNT_OFFSET as int, AMOUNT_OFFSET + 8),
            x as int == tail_value(b, i as int),
            pow256(8) == 0x1_0000_0000_0000_0000,
        decreases i,
    {
        i = i - 1;
        let byte = data[AMOUNT_OFFSET + i];
        assert(byte == b[i as int]);
        proof {
            lemma_tail_value_bound(b, i as int + 1);
            lemma_pow256_bound(8 - i as int);
            assert(pow256(8 - i as int) == 256 * pow256(7 - i as int));
        }
        assert(x * 256 + byte < pow256(8 - i as int)) by (nonlinear_arith)
            requires
                x < pow256(7 - i as int),
                byte < 256,
                pow256(8 - i as int) == 256 * pow256(7 - i as int);
        x = x * 256 + byte as u64;
    }
    proof {
        assert(tail_value(b, 0) == le_u64(b)) by {
            reveal_with_fuel(tail_value, 9);
        }
    }
    Some(x)
}

/// `256^n`.
spec fn pow256(n: int) -> int
    decreases n,
{
    if n <= 0 {
        1
    } else {
        256 * pow256(n - 1)
    }
}

/// The little-endian value of `b[from..8]`.
spec fn tail_value(b: Seq<u8>, from: int) -> int
    decreases 8 - from,
{
    if from >= 8 {
        0
    } else {
        b[from] as int + 256 * tail_value(b, from + 1)
    }
}

proof fn lemma_pow256_bound(n: int)
    requires
        0 <= n <= 8,
    ensures
        0 < pow256(n) <= pow256(8),
    decreases 8 - n,
{
    lemma_pow256_positive(n);
    if n < 8 {
        lemma_pow256_bound(n + 1);
        assert(pow256(n + 1) == 256 * pow256(n));
    }
}

proof fn lemma_pow256_positive(n: int)
    ensures
        0 < pow256(n),
    decreases n,
{
    if n > 0 {
        lemma_pow256_positive(n - 1);
    }
}

proof fn lemma_tail_value_bound(b: Seq<u8>, from: int)
    requires
        0 <= from <= 8,
        b.len() == 8,
    ensures
        0 <= tail_value(b, from) < pow256(8 - from),
    decreases 8 - from,
{
    if from < 8 {
        lemma_tail_value_bound(b, from + 1);
        lemma_pow256_positive(8 - from - 1);
        assert(pow256(8 - from) == 256 * pow256(8 - from - 1));
        assert(b[from] as int + 256 * tail_value(b, from + 1) < 256 * pow256(8 - from - 1)) by (nonlinear_arith)
            requires
                0 <= b[from] < 256,
                0 <= tail_value(b, from + 1) < pow256(8 - from - 1);
    }
}

} // verus!
