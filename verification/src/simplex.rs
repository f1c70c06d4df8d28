//! The Simplex evaluator value type and the discrete half of its algorithm.
//!
//! An evaluator is an immutable pair of a seed and the permutation table that
//! the seed selects; re-seeding builds a fresh evaluator and never mutates an
//! existing one.  The floating-point surflet arithmetic lives outside the
//! verified library; what is proved here is everything the arithmetic is
//! steered by: the seed/table coherence, the per-arity gradient-index lookups
//! with their range guarantees, and the corner-ordering step that turns the
//! component ranking of the in-cell displacement into the ordered walk over
//! the n+1 vertices of the simplex.

use crate::permutation::{
    gradient_index2, gradient_index3, gradient_index4, lemma_table_of_seed_len, table_of_seed,
    PermutationTable,
};
use vstd::prelude::*;

verus! {

/// Noise evaluator for 2-, 3- and 4-dimensional Simplex noise: a seed and the
/// permutation table derived from it.
#[derive(Clone, Debug, PartialEq, Eq)]
pub struct Simplex {
    seed: u32,
    perm_table: PermutationTable,
}

impl Simplex {
    /// The seed a plain constructor uses.
    pub const DEFAULT_SEED: u32 = 0;

    /// The evaluator's seed.
    pub closed spec fn spec_seed(self) -> u32 {
        self.seed
    }

    /// The entries of the evaluator's permutation table.
    pub closed spec fn table(self) -> Seq<u8> {
        self.perm_table@
    }

    /// The table is exactly the one the seed selects.
    pub open spec fn wf(self) -> bool {
        self.table() == table_of_seed(self.spec_seed())
    }

    /// Evaluator with the default seed.
    pub fn new() -> (r: Self)
        ensures
            r.wf(),
            r.spec_seed() == Self::DEFAULT_SEED,
    {
        Simplex { seed: Self::DEFAULT_SEED, perm_table: PermutationTable::new(Self::DEFAULT_SEED) }
    }

    /// Evaluator for the given seed.  Re-seeding with the current seed hands
    /// the evaluator back unchanged; any other seed derives a fresh table.
    pub fn set_seed(self, seed: u32) -> (r: Self)
        requires
            self.wf(),
        ensures
            r.wf(),
            r.spec_seed() == seed,
            seed == self.spec_seed() ==> r == self,
    {
        if self.seed == seed {
            return self;
        }
        Simplex { seed, perm_table: PermutationTable::new(seed) }
    }

    /// The current seed.
    pub fn seed(&self) -> (r: u32)
        ensures
            r == self.spec_seed(),
    {
        self.seed
    }

    /// Gradient index for a 2-dimensional lattice coordinate.
    pub fn get2(&self, x: i64, y: i64) -> (r: usize)
        requires
            self.wf(),
        ensures
            r == gradient_index2(self.table(), x as int, y as int),
            r < 8,
    {
        proof {
            lemma_table_of_seed_len(self.seed);
        }
        self.perm_table.get2(x, y)
    }

    /// Gradient index for a 3-dimensional lattice coordinate.
    pub fn get3(&self, x: i64, y: i64, z: i64) -> (r: usize)
        requires
            self.wf(),
        ensures
            r == gradient_index3(self.table(), x as int, y as int, z as int),
            r < 12,
    {
        proof {
            lemma_table_of_seed_len(self.seed);
        }
        self.perm_table.get3(x, y, z)
    }

    /// Gradient index for a 4-dimensional lattice coordinate.
    pub fn get4(&self, x: i64, y: i64, z: i64, w: i64) -> (r: usize)
        requires
            self.wf(),
        ensures
            r == gradient_index4(self.table(), x as int, y as int, z as int, w as int),
            r < 32,
    {
        proof {
            lemma_table_of_seed_len(self.seed);
        }
        self.perm_table.get4(x, y, z, w)
    }
}

impl Default for Simplex {
    /// Same evaluator as a plain constructor builds.
    fn default() -> (r: Self)
        ensures
            r.wf(),
            r.spec_seed() == Simplex::DEFAULT_SEED,
    {
        Simplex::new()
    }
}

/// 1 when the comparison holds, 0 otherwise: one point of a pairwise rank.
pub open spec fn bool_bit(b: bool) -> u8 {
    if b {
        1
    } else {
        0
    }
}

/// Middle-corner offset of the 2-dimensional simplex: the traversal steps
/// first along the axis whose displacement component is the larger, ties
/// toward the second axis.
pub fn corner_offsets2(x_dominant: bool) -> (r: (u8, u8))
    ensures
        r == (if x_dominant { (1u8, 0u8) } else { (0u8, 1u8) }),
        r.0 + r.1 == 1,
{
    if x_dominant {
        (1, 0)
    } else {
        (0, 1)
    }
}

/// The two middle-corner offsets of the 3-dimensional simplex, from the
/// pairwise comparisons of the displacement components: a decision tree over
/// the six orderings of three values.
pub open spec fn spec_corner_offsets3(
    x_ge_y: bool,
    y_ge_z: bool,
    x_ge_z: bool,
    z_ge_y: bool,
    z_ge_x: bool,
) -> ((u8, u8, u8), (u8, u8, u8)) {
    if x_ge_y {
        if y_ge_z {
            ((1u8, 0u8, 0u8), (1u8, 1u8, 0u8))
        } else if x_ge_z {
            ((1u8, 0u8, 0u8), (1u8, 0u8, 1u8))
        } else {
            ((0u8, 0u8, 1u8), (1u8, 0u8, 1u8))
        }
    } else if z_ge_y {
        ((0u8, 0u8, 1u8), (0u8, 1u8, 1u8))
    } else if z_ge_x {
        ((0u8, 1u8, 0u8), (0u8, 1u8, 1u8))
    } else {
        ((0u8, 1u8, 0u8), (1u8, 1u8, 0u8))
    }
}

/// The two middle-corner offsets of the 3-dimensional simplex.  Whatever the
/// comparisons, the pair traces a valid edge path: the first offset sets
/// exactly one coordinate, the second exactly two, and the second dominates
/// the first componentwise.
pub fn corner_offsets3(x_ge_y: bool, y_ge_z: bool, x_ge_z: bool, z_ge_y: bool, z_ge_x: bool) -> (r:
    ((u8, u8, u8), (u8, u8, u8)))
    ensures
        r == spec_corner_offsets3(x_ge_y, y_ge_z, x_ge_z, z_ge_y, z_ge_x),
        r.0.0 + r.0.1 + r.0.2 == 1,
        r.1.0 + r.1.1 + r.1.2 == 2,
        r.0.0 <= r.1.0 && r.0.1 <= r.1.1 && r.0.2 <= r.1.2,
        r.1.0 <= 1 && r.1.1 <= 1 && r.1.2 <= 1,
{
    if x_ge_y {
        if y_ge_z {
            ((1, 0, 0), (1, 1, 0))
        } else if x_ge_z {
            ((1, 0, 0), (1, 0, 1))
        } else {
            ((0, 0, 1), (1, 0, 1))
        }
    } else if z_ge_y {
        ((0, 0, 1), (0, 1, 1))
    } else if z_ge_x {
        ((0, 1, 0), (0, 1, 1))
    } else {
        ((0, 1, 0), (1, 1, 0))
    }
}

/// The per-axis rank counters of the 4-dimensional corner ordering: each axis
/// scores one point for every pairwise comparison of the displacement
/// components that it wins, ties scoring for the later axis.
pub open spec fn spec_corner_ranks4(
    x_gt_y: bool,
    x_gt_z: bool,
    x_gt_w: bool,
    y_gt_z: bool,
    y_gt_w: bool,
    z_gt_w: bool,
) -> (int, int, int, int) {
    (
        bool_bit(x_gt_y) + bool_bit(x_gt_z) + bool_bit(x_gt_w),
        bool_bit(!x_gt_y) + bool_bit(y_gt_z) + bool_bit(y_gt_w),
        bool_bit(!x_gt_z) + bool_bit(!y_gt_z) + bool_bit(z_gt_w),
        bool_bit(!x_gt_w) + bool_bit(!y_gt_w) + bool_bit(!z_gt_w),
    )
}

/// Rank counters for the 4-dimensional corner ordering, from the six pairwise
/// comparisons of the displacement components.  The six points are always
/// split among the four axes, and no axis can score more than three.
pub fn corner_ranks4(
    x_gt_y: bool,
    x_gt_z: bool,
    x_gt_w: bool,
    y_gt_z: bool,
    y_gt_w: bool,
    z_gt_w: bool,
) -> (r: (u8, u8, u8, u8))
    ensures
        (r.0 as int, r.1 as int, r.2 as int, r.3 as int) == spec_corner_ranks4(
            x_gt_y,
            x_gt_z,
            x_gt_w,
            y_gt_z,
            y_gt_w,
            z_gt_w,
        ),
        r.0 + r.1 + r.2 + r.3 == 6,
        r.0 <= 3 && r.1 <= 3 && r.2 <= 3 && r.3 <= 3,
{
    let mut rank_x: u8 = 0;
    let mut rank_y: u8 = 0;
    let mut rank_z: u8 = 0;
    let mut rank_w: u8 = 0;

    if x_gt_y {
        rank_x += 1;
    } else {
        rank_y += 1;
    }
    if x_gt_z {
        rank_x += 1;
    } else {
        rank_z += 1;
    }
    if x_gt_w {
        rank_x += 1;
    } else {
        rank_w += 1;
    }
    if y_gt_z {
        rank_y += 1;
    } else {
        rank_z += 1;
    }
    if y_gt_w {
        rank_y += 1;
    } else {
        rank_w += 1;
    }
    if z_gt_w {
        rank_z += 1;
    } else {
        rank_w += 1;
    }

    (rank_x, rank_y, rank_z, rank_w)
}

/// 1 when the rank reaches the level, 0 otherwise: one coordinate of a
/// thresholded corner offset.
pub open spec fn offset_at(rank: u8, level: u8) -> u8 {
    if rank >= level {
        1
    } else {
        0
    }
}

/// The three middle-corner offsets of the 4-dimensional simplex, by
/// thresholding the rank counters at levels 3, 2 and 1.  The offsets grow
/// monotonically componentwise, so successive corners never drop a
/// coordinate.
pub fn corner_offsets4(ranks: (u8, u8, u8, u8)) -> (r: (
    (u8, u8, u8, u8),
    (u8, u8, u8, u8),
    (u8, u8, u8, u8),
))
    ensures
        r.0 == (
            offset_at(ranks.0, 3),
            offset_at(ranks.1, 3),
            offset_at(ranks.2, 3),
            offset_at(ranks.3, 3),
        ),
        r.1 == (
            offset_at(ranks.0, 2),
            offset_at(ranks.1, 2),
            offset_at(ranks.2, 2),
            offset_at(ranks.3, 2),
        ),
        r.2 == (
            offset_at(ranks.0, 1),
            offset_at(ranks.1, 1),
            offset_at(ranks.2, 1),
            offset_at(ranks.3, 1),
        ),
        r.0.0 <= r.1.0 <= r.2.0 <= 1,
        r.0.1 <= r.1.1 <= r.2.1 <= 1,
        r.0.2 <= r.1.2 <= r.2.2 <= 1,
        r.0.3 <= r.1.3 <= r.2.3 <= 1,
        r.0.0 + r.0.1 + r.0.2 + r.0.3 == ranks_at_least(
            (ranks.0 as int, ranks.1 as int, ranks.2 as int, ranks.3 as int),
            3,
        ),
        r.1.0 + r.1.1 + r.1.2 + r.1.3 == ranks_at_least(
            (ranks.0 as int, ranks.1 as int, ranks.2 as int, ranks.3 as int),
            2,
        ),
        r.2.0 + r.2.1 + r.2.2 + r.2.3 == ranks_at_least(
            (ranks.0 as int, ranks.1 as int, ranks.2 as int, ranks.3 as int),
            1,
        ),
{
    let offset1 = (
        if ranks.0 >= 3 { 1u8 } else { 0u8 },
        if ranks.1 >= 3 { 1u8 } else { 0u8 },
        if ranks.2 >= 3 { 1u8 } else { 0u8 },
        if ranks.3 >= 3 { 1u8 } else { 0u8 },
    );
    let offset2 = (
        if ranks.0 >= 2 { 1u8 } else { 0u8 },
        if ranks.1 >= 2 { 1u8 } else { 0u8 },
        if ranks.2 >= 2 { 1u8 } else { 0u8 },
        if ranks.3 >= 2 { 1u8 } else { 0u8 },
    );
    let offset3 = (
        if ranks.0 >= 1 { 1u8 } else { 0u8 },
        if ranks.1 >= 1 { 1u8 } else { 0u8 },
        if ranks.2 >= 1 { 1u8 } else { 0u8 },
        if ranks.3 >= 1 { 1u8 } else { 0u8 },
    );
    (offset1, offset2, offset3)
}

/// How many of the four rank counters reach a level.
pub open spec fn ranks_at_least(r: (int, int, int, int), level: int) -> int {
    (if r.0 >= level {
        1int
    } else {
        0int
    }) + (if r.1 >= level {
        1int
    } else {
        0int
    }) + (if r.2 >= level {
        1int
    } else {
        0int
    }) + (if r.3 >= level {
        1int
    } else {
        0int
    })
}

/// Corner-path law of the 4-dimensional ordering: when the six pairwise
/// comparisons are consistent with a single ordering of the four displacement
/// components (no three of them form a cycle, which holds of comparisons of
/// real numbers), the rank counters are a permutation of 0..=3, so
/// thresholding them at levels 3, 2 and 1 yields corner offsets with exactly
/// one, two and three coordinates set.  Together with the componentwise
/// monotonicity of the thresholds, the five corners of the cell therefore
/// form a strictly increasing path of unit steps from the zero offset to the
/// all-ones offset.
pub proof fn lemma_corner_path4(
    x_gt_y: bool,
    x_gt_z: bool,
    x_gt_w: bool,
    y_gt_z: bool,
    y_gt_w: bool,
    z_gt_w: bool,
)
    requires
        !(x_gt_y && y_gt_z && !x_gt_z),
        !(!x_gt_y && !y_gt_z && x_gt_z),
        !(x_gt_y && y_gt_w && !x_gt_w),
        !(!x_gt_y && !y_gt_w && x_gt_w),
        !(x_gt_z && z_gt_w && !x_gt_w),
        !(!x_gt_z && !z_gt_w && x_gt_w),
        !(y_gt_z && z_gt_w && !y_gt_w),
        !(!y_gt_z && !z_gt_w && y_gt_w),
    ensures
        ranks_at_least(spec_corner_ranks4(x_gt_y, x_gt_z, x_gt_w, y_gt_z, y_gt_w, z_gt_w), 3) == 1,
        ranks_at_least(spec_corner_ranks4(x_gt_y, x_gt_z, x_gt_w, y_gt_z, y_gt_w, z_gt_w), 2) == 2,
        ranks_at_least(spec_corner_ranks4(x_gt_y, x_gt_z, x_gt_w, y_gt_z, y_gt_w, z_gt_w), 1) == 3,
{
}

/// Two well-formed evaluators with equal seeds carry equal tables, so every
/// gradient-index lookup agrees between them; a noise field is a function of
/// the seed alone.
pub proof fn lemma_same_seed_same_field(a: Simplex, b: Simplex)
    requires
        a.wf(),
        b.wf(),
        a.spec_seed() == b.spec_seed(),
    ensures
        a.table() == b.table(),
        forall|x: int, y: int|
            gradient_index2(a.table(), x, y) == gradient_index2(b.table(), x, y),
        forall|x: int, y: int, z: int|
            gradient_index3(a.table(), x, y, z) == gradient_index3(b.table(), x, y, z),
        forall|x: int, y: int, z: int, w: int|
            gradient_index4(a.table(), x, y, z, w) == gradient_index4(b.table(), x, y, z, w),
{
}

} // verus!
