//! The seeded permutation table: the sole source of pseudo-randomness.
//!
//! A table is a shuffle of the 256 byte values, selected deterministically by
//! a 32-bit seed: a fixed 64-bit linear congruential generator drives a
//! Fisher-Yates shuffle of the identity table.  Lattice lookups chain the
//! coordinates through the table (each coordinate wrapped into the table's
//! index range, so every integer coordinate, negative ones included, is valid)
//! and reduce the final byte to the gradient-index range of the arity.

use vstd::arithmetic::div_mod::{lemma_add_mod_noop, lemma_small_mod};
use vstd::prelude::*;

verus! {

/// Multiplier of the linear congruential generator (Knuth's MMIX constant).
pub const LCG_MULTIPLIER: u64 = 0x5851_F42D_4C95_7F2D;

/// Increment of the linear congruential generator (Knuth's MMIX constant).
pub const LCG_INCREMENT: u64 = 0x1405_7B7E_F767_814F;

/// One step of the generator: `state * LCG_MULTIPLIER + LCG_INCREMENT`,
/// taken modulo 2^64.
#[verifier::opaque]
pub open spec fn lcg_next(state: u64) -> u64 {
    ((state * LCG_MULTIPLIER + LCG_INCREMENT) % 0x1_0000_0000_0000_0000) as u64
}

/// The byte drawn from a generator state: its top eight bits.
#[verifier::opaque]
pub open spec fn lcg_byte(state: u64) -> u64 {
    state / 0x100_0000_0000_0000
}

/// One generator step, computed exactly in 128-bit arithmetic.
fn lcg_step(state: u64) -> (r: u64)
    ensures
        r == lcg_next(state),
{
    proof {
        reveal(lcg_next);
        assert(state * LCG_MULTIPLIER + LCG_INCREMENT
            < 0x1_0000_0000_0000_0000_0000_0000_0000_0000) by (nonlinear_arith)
            requires
                state <= 0xFFFF_FFFF_FFFF_FFFFu64,
        ;
    }
    let wide: u128 = state as u128 * (LCG_MULTIPLIER as u128) + (LCG_INCREMENT as u128);
    (wide % 0x1_0000_0000_0000_0000u128) as u64
}

/// The identity table: entry `i` holds the byte `i`.
pub open spec fn identity_table() -> Seq<u8> {
    Seq::new(256, |i: int| i as u8)
}

/// The table `t` with entries `i` and `j` exchanged.
pub open spec fn swap_entries(t: Seq<u8>, i: int, j: int) -> Seq<u8> {
    t.update(i, t[j]).update(j, t[i])
}

/// Fisher-Yates shuffle of `t`, walking the pivot down from `i` to 1: at each
/// pivot the generator is stepped once and the pivot entry is exchanged with a
/// drawn entry at or below it.
pub open spec fn shuffle_from(t: Seq<u8>, state: u64, i: nat) -> Seq<u8>
    decreases i,
{
    if i == 0 {
        t
    } else {
        let stepped = lcg_next(state);
        let j = lcg_byte(stepped) as int % ((i + 1) as int);
        shuffle_from(swap_entries(t, i as int, j), stepped, (i - 1) as nat)
    }
}

/// The permutation table that a seed selects.
pub open spec fn table_of_seed(seed: u32) -> Seq<u8> {
    shuffle_from(identity_table(), seed as u64, 255)
}

/// One unfolding of the shuffle: with the pivot at `i >= 1`, the shuffle is
/// one exchange followed by the shuffle with the pivot at `i - 1`.
pub proof fn lemma_shuffle_from_step(t: Seq<u8>, state: u64, i: nat)
    requires
        1 <= i,
    ensures
        shuffle_from(t, state, i) == shuffle_from(
            swap_entries(t, i as int, lcg_byte(lcg_next(state)) as int % ((i + 1) as int)),
            lcg_next(state),
            (i - 1) as nat,
        ),
{
}

/// A shuffle never changes the length of the table.
pub proof fn lemma_shuffle_from_len(t: Seq<u8>, state: u64, i: nat)
    requires
        i < t.len(),
    ensures
        shuffle_from(t, state, i).len() == t.len(),
    decreases i,
{
    if i > 0 {
        let stepped = lcg_next(state);
        let j = lcg_byte(stepped) as int % ((i + 1) as int);
        lemma_shuffle_from_step(t, state, i);
        lemma_shuffle_from_len(swap_entries(t, i as int, j), stepped, (i - 1) as nat);
    }
}

/// The table of any seed has exactly 256 entries.
pub proof fn lemma_table_of_seed_len(seed: u32)
    ensures
        table_of_seed(seed).len() == 256,
{
    lemma_shuffle_from_len(identity_table(), seed as u64, 255);
}

/// Exchanging two entries never changes what the table holds, only where.
pub proof fn lemma_swap_entries_multiset(t: Seq<u8>, i: int, j: int)
    requires
        0 <= i < t.len(),
        0 <= j < t.len(),
    ensures
        swap_entries(t, i, j).to_multiset() == t.to_multiset(),
{
    broadcast use vstd::multiset::group_multiset_axioms;

    let s1 = t.update(i, t[j]);
    vstd::seq_lib::to_multiset_update(t, i, t[j]);
    vstd::seq_lib::to_multiset_update(s1, j, t[i]);
    t.to_multiset_ensures();
    assert(s1[j] == t[j]);
    assert(t.contains(t[i]));
    assert(t.contains(t[j]));
    assert(swap_entries(t, i, j).to_multiset() =~= t.to_multiset());
}

/// A shuffle never changes what the table holds, only the order.
pub proof fn lemma_shuffle_from_multiset(t: Seq<u8>, state: u64, i: nat)
    requires
        i < t.len(),
    ensures
        shuffle_from(t, state, i).to_multiset() == t.to_multiset(),
    decreases i,
{
    if i > 0 {
        let stepped = lcg_next(state);
        let j = lcg_byte(stepped) as int % ((i + 1) as int);
        lemma_shuffle_from_step(t, state, i);
        lemma_swap_entries_multiset(t, i as int, j);
        lemma_shuffle_from_multiset(swap_entries(t, i as int, j), stepped, (i - 1) as nat);
    }
}

/// Permutation law: whatever the seed, the table holds every byte value
/// exactly once — the shuffle rearranges the identity table and never loses
/// or repeats an entry, so each lattice hash is drawn from the full range.
pub proof fn lemma_table_is_permutation(seed: u32)
    ensures
        forall|b: u8| table_of_seed(seed).to_multiset().count(b) == 1,
{
    broadcast use vstd::multiset::group_multiset_axioms;

    let ident = identity_table();
    lemma_shuffle_from_multiset(ident, seed as u64, 255);
    assert(ident.no_duplicates());
    ident.lemma_multiset_has_no_duplicates();
    ident.to_multiset_ensures();
    assert forall|b: u8| table_of_seed(seed).to_multiset().count(b) == 1 by {
        assert(ident[b as int] == b);
        assert(ident.contains(b));
    }
}

/// An integer lattice coordinate wrapped into the table's index range.
pub open spec fn wrap_index(c: int) -> int {
    c % 256
}

/// The byte the table holds for a 2-dimensional lattice coordinate: the first
/// coordinate indexes the table, and each further coordinate is added to the
/// previous byte before indexing again.
pub open spec fn hash2(t: Seq<u8>, x: int, y: int) -> int {
    let h1 = t[wrap_index(x)] as int;
    t[wrap_index(h1 + y)] as int
}

/// The byte the table holds for a 3-dimensional lattice coordinate.
pub open spec fn hash3(t: Seq<u8>, x: int, y: int, z: int) -> int {
    let h2 = hash2(t, x, y);
    t[wrap_index(h2 + z)] as int
}

/// The byte the table holds for a 4-dimensional lattice coordinate.
pub open spec fn hash4(t: Seq<u8>, x: int, y: int, z: int, w: int) -> int {
    let h3 = hash3(t, x, y, z);
    t[wrap_index(h3 + w)] as int
}

/// Gradient index of a 2-dimensional lattice coordinate: one of the 8
/// directions of the 2-dimensional gradient table.
pub open spec fn gradient_index2(t: Seq<u8>, x: int, y: int) -> int {
    hash2(t, x, y) % 8
}

/// Gradient index of a 3-dimensional lattice coordinate: one of the 12
/// directions of the 3-dimensional gradient table.
pub open spec fn gradient_index3(t: Seq<u8>, x: int, y: int, z: int) -> int {
    hash3(t, x, y, z) % 12
}

/// Gradient index of a 4-dimensional lattice coordinate: one of the 32
/// directions of the 4-dimensional gradient table.
pub open spec fn gradient_index4(t: Seq<u8>, x: int, y: int, z: int, w: int) -> int {
    hash4(t, x, y, z, w) % 32
}

/// Wrapping law: the lattice hashing is total over all integer coordinates by
/// wrapping, so shifting any coordinate by a multiple of 256 leaves every
/// gradient index unchanged.
pub proof fn lemma_gradient_index2_periodic(t: Seq<u8>, x: int, y: int, kx: int, ky: int)
    ensures
        gradient_index2(t, x + 256 * kx, y + 256 * ky) == gradient_index2(t, x, y),
{
    vstd::arithmetic::div_mod::lemma_mod_multiples_vanish(kx, x, 256);
    vstd::arithmetic::div_mod::lemma_mod_multiples_vanish(ky, t[wrap_index(x)] + y, 256);
}

/// Wrapping law for 3-dimensional lookups.
pub proof fn lemma_gradient_index3_periodic(
    t: Seq<u8>,
    x: int,
    y: int,
    z: int,
    kx: int,
    ky: int,
    kz: int,
)
    ensures
        gradient_index3(t, x + 256 * kx, y + 256 * ky, z + 256 * kz) == gradient_index3(
            t,
            x,
            y,
            z,
        ),
{
    lemma_gradient_index2_periodic(t, x, y, kx, ky);
    vstd::arithmetic::div_mod::lemma_mod_multiples_vanish(kz, hash2(t, x, y) + z, 256);
}

/// Wrapping law for 4-dimensional lookups.
pub proof fn lemma_gradient_index4_periodic(
    t: Seq<u8>,
    x: int,
    y: int,
    z: int,
    w: int,
    kx: int,
    ky: int,
    kz: int,
    kw: int,
)
    ensures
        gradient_index4(t, x + 256 * kx, y + 256 * ky, z + 256 * kz, w + 256 * kw)
            == gradient_index4(t, x, y, z, w),
{
    lemma_gradient_index3_periodic(t, x, y, z, kx, ky, kz);
    vstd::arithmetic::div_mod::lemma_mod_multiples_vanish(kw, hash3(t, x, y, z) + w, 256);
}

/// Wrap a lattice coordinate into the table's index range.
fn wrap_coord(c: i64) -> (r: usize)
    ensures
        r == wrap_index(c as int),
        r < 256,
{
    match c.checked_rem_euclid(256) {
        Some(m) => m as usize,
        None => {
            proof {
                assert(false);
            }
            0
        },
    }
}

/// A seeded permutation of the byte values, immutable once built.
#[derive(Clone, Debug, PartialEq, Eq)]
pub struct PermutationTable {
    entries: Vec<u8>,
}

impl View for PermutationTable {
    type V = Seq<u8>;

    closed spec fn view(&self) -> Seq<u8> {
        self.entries@
    }
}

impl PermutationTable {
    /// The table has its full complement of entries.
    pub open spec fn wf(self) -> bool {
        self@.len() == 256
    }

    /// Build the table a seed selects: the identity table shuffled by the
    /// seed-started generator.
    pub fn new(seed: u32) -> (r: Self)
        ensures
            r@ == table_of_seed(seed),
            r.wf(),
    {
        let mut entries: Vec<u8> = Vec::new();
        let mut k: usize = 0;
        while k < 256
            invariant
                k <= 256,
                entries@.len() == k,
                forall|m: int| 0 <= m < k ==> entries@[m] == m as u8,
            decreases 256 - k,
        {
            entries.push(k as u8);
            k += 1;
        }
        assert(entries@ =~= identity_table());

        let mut state: u64 = seed as u64;
        let mut i: usize = 255;
        while i >= 1
            invariant
                i <= 255,
                entries@.len() == 256,
                shuffle_from(entries@, state, i as nat) == table_of_seed(seed),
            decreases i,
        {
            let ghost before = entries@;
            let stepped = lcg_step(state);
            let drawn: u64 = stepped / 0x100_0000_0000_0000;
            proof {
                reveal(lcg_byte);
            }
            let j: usize = (drawn % (i as u64 + 1)) as usize;
            assert(j as int == lcg_byte(stepped) as int % ((i + 1) as int));
            let vi = entries[i];
            let vj = entries[j];
            entries.set(i, vj);
            entries.set(j, vi);
            proof {
                assert(entries@ =~= swap_entries(before, i as int, j as int));
                lemma_shuffle_from_step(before, state, i as nat);
            }
            state = stepped;
            i -= 1;
        }
        proof {
            lemma_table_of_seed_len(seed);
        }
        PermutationTable { entries }
    }

    /// Gradient index for a 2-dimensional lattice coordinate.
    pub fn get2(&self, x: i64, y: i64) -> (r: usize)
        requires
            self.wf(),
        ensures
            r == gradient_index2(self@, x as int, y as int),
            r < 8,
    {
        let h1 = self.entries[wrap_coord(x)] as usize;
        let h2 = self.entries[(h1 + wrap_coord(y)) % 256] as usize;
        proof {
            lemma_small_mod(h1 as nat, 256);
            lemma_add_mod_noop(h1 as int, y as int, 256);
        }
        h2 % 8
    }

    /// Gradient index for a 3-dimensional lattice coordinate.
    pub fn get3(&self, x: i64, y: i64, z: i64) -> (r: usize)
        requires
            self.wf(),
        ensures
            r == gradient_index3(self@, x as int, y as int, z as int),
            r < 12,
    {
        let h1 = self.entries[wrap_coord(x)] as usize;
        let h2 = self.entries[(h1 + wrap_coord(y)) % 256] as usize;
        proof {
            lemma_small_mod(h1 as nat, 256);
            lemma_add_mod_noop(h1 as int, y as int, 256);
        }
        let h3 = self.entries[(h2 + wrap_coord(z)) % 256] as usize;
        proof {
            lemma_small_mod(h2 as nat, 256);
            lemma_add_mod_noop(h2 as int, z as int, 256);
        }
        h3 % 12
    }

    /// Gradient index for a 4-dimensional lattice coordinate.
    pub fn get4(&self, x: i64, y: i64, z: i64, w: i64) -> (r: usize)
        requires
            self.wf(),
        ensures
            r == gradient_index4(self@, x as int, y as int, z as int, w as int),
            r < 32,
    {
        let h1 = self.entries[wrap_coord(x)] as usize;
        let h2 = self.entries[(h1 + wrap_coord(y)) % 256] as usize;
        proof {
            lemma_small_mod(h1 as nat, 256);
            lemma_add_mod_noop(h1 as int, y as int, 256);
        }
        let h3 = self.entries[(h2 + wrap_coord(z)) % 256] as usize;
        proof {
            lemma_small_mod(h2 as nat, 256);
            lemma_add_mod_noop(h2 as int, z as int, 256);
        }
        let h4 = self.entries[(h3 + wrap_coord(w)) % 256] as usize;
        proof {
            lemma_small_mod(h3 as nat, 256);
            lemma_add_mod_noop(h3 as int, w as int, 256);
        }
        h4 % 32
    }
}

} // verus!
