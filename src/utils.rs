//! Reading the random seed of a redemption out of the recent-slot-hashes
//! record.
use vstd::prelude::*;
use crate::error::CashError;

verus! {

/// Offset, in the recent-slot-hashes record, of the newest hash.
pub const SLOT_HASH_OFFSET: usize = 12;

/// The unsigned little-endian value of `s`.
pub open spec fn le_value(s: Seq<u8>) -> nat
    decreases s.len(),
{
    if s.len() == 0 {
        0
    } else {
        s[0] as nat + 256 * le_value(s.drop_first())
    }
}

/// `256` to the power `n`.
pub open spec fn pow256(n: nat) -> nat
    decreases n,
{
    if n == 0 {
        1
    } else {
        256 * pow256((n - 1) as nat)
    }
}

proof fn lemma_le_value_bound(s: Seq<u8>)
    ensures
        le_value(s) < pow256(s.len()),
    decreases s.len(),
{
    if s.len() > 0 {
        lemma_le_value_bound(s.drop_first());
        let rest = le_value(s.drop_first());
        let p = pow256((s.len() - 1) as nat);
        assert(s[0] as nat + 256 * rest < 256 * p) by (nonlinear_arith)
            requires
                rest < p,
                s[0] < 256,
        ;
    }
}

/// The seed of a random payout: the 8 bytes of the newest slot hash, read
/// little-endian, less the current time, floored at 0.
pub open spec fn slot_hash_seed(data: Seq<u8>, unix_timestamp: u64) -> int {
    let hash = le_value(data.subrange(12, 20)) as int;
    if hash >= unix_timestamp {
        hash - unix_timestamp
    } else {
        0
    }
}

/// Derives the seed of a random payout from the recent-slot-hashes record;
/// fails when the record is too short to hold a hash.
pub fn get_random_value(slot_hashes: &[u8], unix_timestamp: u64) -> (r: Result<u64, CashError>)
    ensures
        r is Ok <==> slot_hashes@.len() >= 20,
        r matches Ok(v) ==> v == slot_hash_seed(slot_hashes@, unix_timestamp),
        r matches Err(e) ==> e == CashError::InvalidSlotHashProgram,
{
    if slot_hashes.len() < SLOT_HASH_OFFSET + 8 {
        return Err(CashError::InvalidSlotHashProgram);
    }
    let mut value: u64 = 0;
    let mut i: usize = SLOT_HASH_OFFSET + 8;
    while i > SLOT_HASH_OFFSET
        invariant
            SLOT_HASH_OFFSET <= i <= SLOT_HASH_OFFSET + 8,
            slot_hashes@.len() >= 20,
            value == le_value(slot_hashes@.subrange(i as int, 20)),
        decreases i,
    {
        let ghost tail = slot_hashes@.subrange(i as int, 20);
        let ghost next = slot_hashes@.subrange(i - 1, 20);
        proof {
            assert(next.drop_first() =~= tail);
            lemma_le_value_bound(tail);
            assert(pow256(tail.len()) <= pow256(7)) by {
                lemma_pow256_monotone(tail.len(), 7);
            }
            lemma_pow256_seven();
        }
        value = slot_hashes[i - 1] as u64 + 256 * value;
        i = i - 1;
    }
    if value >= unix_timestamp {
        Ok(value - unix_timestamp)
    } else {
        Ok(0)
    }
}

proof fn lemma_pow256_seven()
    ensures
        pow256(7) == 72057594037927936,
{
    assert(pow256(0) == 1);
    assert(pow256(1) == 256);
    assert(pow256(2) == 65536);
    assert(pow256(3) == 16777216);
    assert(pow256(4) == 4294967296);
    assert(pow256(5) == 1099511627776);
    assert(pow256(6) == 281474976710656);
    assert(pow256(7) == 72057594037927936);
}

proof fn lemma_pow256_monotone(a: nat, b: nat)
    requires
        a <= b,
    ensures
        pow256(a) <= pow256(b),
    decreases b,
{
    if a < b {
        lemma_pow256_monotone(a, (b - 1) as nat);
    }
}

} // verus!
