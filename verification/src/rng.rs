use vstd::prelude::*;
use vstd::string::*;

verus! {

/// Multiplier of the 64-bit linear congruential generator shared by all seeded rolls.
pub const LCG_MULTIPLIER: u64 = 6364136223846793005u64;

/// Offset basis of the 64-bit FNV-1a hash.
pub const FNV_OFFSET: u64 = 1469598103934665603u64;

/// Prime of the 64-bit FNV-1a hash.
pub const FNV_PRIME: u64 = 1099511628211u64;

/// One step of the generator: `state * LCG_MULTIPLIER + 1` modulo 2^64.
pub open spec fn lcg_step(state: u64) -> u64 {
    ((state as int * LCG_MULTIPLIER as int + 1) % 0x1_0000_0000_0000_0000int) as u64
}

/// The state after `n` steps of the generator.
pub open spec fn lcg_iter(state: u64, n: nat) -> u64
    decreases n,
{
    if n == 0 {
        state
    } else {
        lcg_iter(lcg_step(state), (n - 1) as nat)
    }
}

/// One FNV-1a round: xor the byte in, then multiply by the prime modulo 2^64.
pub open spec fn fnv_step(hash: u64, byte: u8) -> u64 {
    (((hash ^ (byte as u64)) as int * FNV_PRIME as int) % 0x1_0000_0000_0000_0000int) as u64
}

/// FNV-1a over a byte sequence, folding from the front.
pub open spec fn fnv_fold(hash: u64, bytes: Seq<u8>) -> u64
    decreases bytes.len(),
{
    if bytes.len() == 0 {
        hash
    } else {
        fnv_fold(fnv_step(hash, bytes[0]), bytes.drop_first())
    }
}

/// The 64-bit FNV-1a hash of a byte sequence.
pub open spec fn fnv1a(bytes: Seq<u8>) -> u64 {
    fnv_fold(FNV_OFFSET, bytes)
}

proof fn lemma_fnv_fold_push(hash: u64, bytes: Seq<u8>, b: u8)
    ensures
        fnv_fold(hash, bytes.push(b)) == fnv_step(fnv_fold(hash, bytes), b),
    decreases bytes.len(),
{
    if bytes.len() == 0 {
        assert(bytes.push(b).drop_first() =~= Seq::<u8>::empty());
        assert(fnv_fold(fnv_step(hash, b), Seq::<u8>::empty()) == fnv_step(hash, b));
        assert(bytes.push(b)[0] == b);
    } else {
        assert(bytes.push(b).drop_first() =~= bytes.drop_first().push(b));
        lemma_fnv_fold_push(fnv_step(hash, bytes[0]), bytes.drop_first(), b);
        assert(bytes.push(b)[0] == bytes[0]);
    }
}

/// Advances the generator state and returns the new state.
pub fn next_u64(state: &mut u64) -> (value: u64)
    ensures
        *final(state) == lcg_step(*old(state)),
        value == *final(state),
{
    let s: u64 = *state;
    assert(s as int * LCG_MULTIPLIER as int + 1 < 0x1_0000_0000_0000_0000_0000_0000_0000_0000int)
        by (nonlinear_arith)
        requires
            s <= u64::MAX,
    ;
    let wide: u128 = (s as u128) * (LCG_MULTIPLIER as u128) + 1;
    let next: u64 = (wide % 0x1_0000_0000_0000_0000u128) as u64;
    *state = next;
    next
}

/// Hashes the UTF-8 bytes of `value` with 64-bit FNV-1a.
pub fn hash_seed(value: &str) -> (hash: u64)
    ensures
        hash == fnv1a(value.spec_bytes()),
{
    let bytes = value.as_bytes();
    let mut hash: u64 = FNV_OFFSET;
    let mut i: usize = 0;
    while i < bytes.len()
        invariant
            i <= bytes@.len(),
            bytes@ == value.spec_bytes(),
            hash == fnv_fold(FNV_OFFSET, bytes@.take(i as int)),
        decreases bytes@.len() - i,
    {
        let b: u8 = bytes[i];
        let mixed: u64 = hash ^ (b as u64);
        assert((mixed as int) * (FNV_PRIME as int) < 0x1_0000_0000_0000_0000_0000_0000_0000_0000int)
            by (nonlinear_arith)
            requires
                mixed <= u64::MAX,
        ;
        let wide: u128 = (mixed as u128) * (FNV_PRIME as u128);
        hash = (wide % 0x1_0000_0000_0000_0000u128) as u64;
        proof {
            lemma_fnv_fold_push(FNV_OFFSET, bytes@.take(i as int), b);
            assert(bytes@.take(i as int).push(b) =~= bytes@.take(i + 1));
        }
        i = i + 1;
    }
    assert(bytes@.take(i as int) =~= bytes@);
    hash
}

} // verus!
