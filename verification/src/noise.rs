//! Permutation table of the 2D gradient noise used for terrain and biomes.
use vstd::prelude::*;

verus! {

/// Multiplier of the linear congruential generator that drives the shuffle.
pub const LCG_MULTIPLIER: u64 = 6364136223846793005;

/// One step of the generator: `state * LCG_MULTIPLIER + 1`, modulo 2^64.
pub open spec fn lcg_next(state: u64) -> u64 {
    vstd::wrapping::u64_specs::wrapping_add(
        vstd::wrapping::u64_specs::wrapping_mul(state, LCG_MULTIPLIER),
        1,
    )
}

/// The index that the shuffle swaps with position `i` after advancing to `state`.
pub open spec fn swap_partner(state: u64, i: nat) -> nat {
    ((state >> 32u64) as nat) % (i + 1)
}

/// `p` with the entries at `i` and `j` exchanged.
pub open spec fn seq_swap(p: Seq<u8>, i: int, j: int) -> Seq<u8> {
    p.update(i, p[j]).update(j, p[i])
}

/// The Fisher-Yates pass over positions `i, i-1, ..., 1`, starting from `p`
/// with generator state `state`.
pub open spec fn shuffle_down(p: Seq<u8>, state: u64, i: nat) -> Seq<u8>
    decreases i,
{
    if i == 0 {
        p
    } else {
        let next = lcg_next(state);
        shuffle_down(seq_swap(p, i as int, swap_partner(next, i) as int), next, (i - 1) as nat)
    }
}

/// The identity table `0, 1, ..., 255`.
pub open spec fn identity_table() -> Seq<u8> {
    Seq::new(256, |k: int| k as u8)
}

/// The shuffled 256-entry table for `seed`.
pub open spec fn shuffled_table(seed: u64) -> Seq<u8> {
    shuffle_down(identity_table(), seed, 255)
}

/// The 512-entry table for `seed`: the shuffled table written out twice.
pub open spec fn perm_table(seed: u64) -> Seq<u8> {
    Seq::new(512, |k: int| shuffled_table(seed)[k % 256])
}

/// Value `v` stands at some position of the 256-entry table `p`.
pub open spec fn occurs_in(p: Seq<u8>, v: u8) -> bool {
    exists|k: int| 0 <= k < 256 && #[trigger] p[k] == v
}

/// Every byte value occurs in `p`, and no value occurs twice.
pub open spec fn is_byte_permutation(p: Seq<u8>) -> bool {
    &&& p.len() == 256
    &&& forall|v: u8| #[trigger] occurs_in(p, v)
    &&& forall|a: int, b: int| 0 <= a < 256 && 0 <= b < 256 && a != b ==> p[a] != p[b]
}

proof fn lemma_swap_keeps_permutation(p: Seq<u8>, i: int, j: int)
    requires
        is_byte_permutation(p),
        0 <= i < 256,
        0 <= j < 256,
    ensures
        is_byte_permutation(seq_swap(p, i, j)),
{
    let q = seq_swap(p, i, j);
    assert forall|v: u8| #[trigger] occurs_in(q, v) by {
        assert(occurs_in(p, v));
        let k = choose|k: int| 0 <= k < 256 && #[trigger] p[k] == v;
        if k == i {
            assert(q[j] == v);
        } else if k == j {
            assert(q[i] == v);
        } else {
            assert(q[k] == v);
        }
    }
}

proof fn lemma_shuffle_keeps_permutation(p: Seq<u8>, state: u64, i: nat)
    requires
        is_byte_permutation(p),
        i < 256,
    ensures
        is_byte_permutation(shuffle_down(p, state, i)),
    decreases i,
{
    if i > 0 {
        let next = lcg_next(state);
        let j = swap_partner(next, i);
        lemma_swap_keeps_permutation(p, i as int, j as int);
        lemma_shuffle_keeps_permutation(seq_swap(p, i as int, j as int), next, (i - 1) as nat);
    }
}

/// Law: whatever the seed, the first half of the table is a permutation of the
/// byte values and the second half repeats the first.
pub proof fn lemma_perm_table_is_permutation(seed: u64)
    ensures
        is_byte_permutation(perm_table(seed).subrange(0, 256)),
        forall|k: int| 0 <= k < 512 ==> #[trigger] perm_table(seed)[k] == perm_table(seed)[k % 256],
{
    let id = identity_table();
    assert forall|v: u8| #[trigger] occurs_in(id, v) by {
        assert(id[v as int] == v);
    }
    lemma_shuffle_keeps_permutation(id, seed, 255);
    assert(perm_table(seed).subrange(0, 256) =~= shuffled_table(seed));
}

/// Gradient-noise permutation table.
#[derive(Debug, Clone, Copy)]
pub struct Perlin2D {
    /// The shuffled bytes, twice over so lookups may run past 255.
    perm: [u8; 512],
}

impl View for Perlin2D {
    type V = Seq<u8>;

    closed spec fn view(&self) -> Seq<u8> {
        self.perm@
    }
}

impl Perlin2D {
    /// Builds the table for `seed`: a Fisher-Yates shuffle of `0..=255` driven by
    /// the generator, repeated twice.
    pub fn new(seed: u64) -> (res: Self)
        ensures
            res@ == perm_table(seed),
    {
        let mut p = [0u8; 256];
        let mut k: usize = 0;
        while k < 256
            invariant
                k <= 256,
                forall|m: int| 0 <= m < k ==> p@[m] == m as u8,
            decreases 256 - k,
        {
            p[k] = k as u8;
            k = k + 1;
        }
        assert(p@ =~= identity_table());

        let ghost target = shuffled_table(seed);
        let mut state = seed;
        let mut i: usize = 255;
        while i > 0
            invariant
                i <= 255,
                p@.len() == 256,
                shuffle_down(p@, state, i as nat) == target,
            decreases i,
        {
            let ghost prev_state = state;
            state = state.wrapping_mul(LCG_MULTIPLIER).wrapping_add(1);
            let hi = state >> 32u64;
            assert(hi <= u32::MAX) by (bit_vector)
                requires
                    hi == state >> 32u64,
            ;
            let j = (hi as usize) % (i + 1);
            assert(j as nat == swap_partner(state, i as nat));
            let ghost before = p@;
            let a = p[i];
            let b = p[j];
            p[i] = b;
            p[j] = a;
            assert(p@ =~= seq_swap(before, i as int, j as int));
            assert(state == lcg_next(prev_state));
            assert(shuffle_down(before, prev_state, i as nat) == shuffle_down(
                seq_swap(before, i as int, j as int),
                state,
                (i - 1) as nat,
            ));
            i = i - 1;
        }

        let mut perm = [0u8; 512];
        let mut t: usize = 0;
        while t < 512
            invariant
                t <= 512,
                p@ == target,
                forall|m: int| 0 <= m < t ==> perm@[m] == target[m % 256],
            decreases 512 - t,
        {
            perm[t] = p[t % 256];
            t = t + 1;
        }
        assert(perm@ =~= perm_table(seed));
        Perlin2D { perm }
    }

    /// Entry `i` of the table.
    pub fn perm_at(&self, i: usize) -> (v: u8)
        requires
            i < 512,
        ensures
            v == self@[i as int],
    {
        self.perm[i]
    }
}

} // verus!
