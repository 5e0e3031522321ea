//! Thingamajigs: clusters of cuboids cut from a lattice.

use crate::geometry::{clamp_i64, saturating_sum, Vec3};
use vstd::arithmetic::div_mod::{lemma_div_denominator, lemma_fundamental_div_mod};
use vstd::prelude::*;

verus! {

/// Distance between neighbouring cuboids of a thingamajig.
pub const CUBOID_PITCH: i64 = 2_000;

/// The two forms a thingamajig comes in. Both are hollow.
#[derive(Clone, Copy, Debug, PartialEq, Eq, Structural)]
pub enum Shape {
    /// The outer layer of a box of 8 by 8 by 4 cuboids.
    Block,
    /// The cuboids of an 8 by 8 by 8 lattice that lie at least four and less
    /// than five cells from its origin.
    Ball,
}

/// `v` times itself.
pub open spec fn square(v: int) -> int {
    v * v
}

/// The squares of the lattice coordinates.
proof fn lemma_squares()
    ensures
        square(-4) == 16,
        square(-3) == 9,
        square(-2) == 4,
        square(-1) == 1,
        square(0) == 0,
        square(1) == 1,
        square(2) == 4,
        square(3) == 9,
{
    assert((-4) * (-4) == 16 && (-3) * (-3) == 9 && (-2) * (-2) == 4 && (-1) * (-1) == 1 && 0 * 0
        == 0 && 1 * 1 == 1 && 2 * 2 == 4 && 3 * 3 == 9) by (nonlinear_arith);
}

impl Shape {
    /// Number of lattice cells the shape is cut from.
    pub open spec fn cells(self) -> nat {
        match self {
            Shape::Block => 256,
            Shape::Ball => 512,
        }
    }

    /// Lattice coordinates of cell `i`, the first coordinate varying slowest.
    pub open spec fn cell(self, i: int) -> (int, int, int) {
        match self {
            Shape::Block => (i / 32 - 4, (i / 4) % 8 - 4, i % 4 - 2),
            Shape::Ball => (i / 64 - 4, (i / 8) % 8 - 4, i % 8 - 4),
        }
    }

    /// Whether the shape has a cuboid at lattice cell `c`: a block on the
    /// faces of its box, a ball between its inner and its outer radius.
    pub open spec fn keeps(self, c: (int, int, int)) -> bool {
        match self {
            Shape::Block => c.0 == -4 || c.0 == 3 || c.1 == -4 || c.1 == 3 || c.2 == -2 || c.2
                == 1,
            Shape::Ball => 16 <= square(c.0) + square(c.1) + square(c.2) < 25,
        }
    }

    /// Number of cuboids among the first `n` lattice cells.
    pub open spec fn kept(self, n: nat) -> nat
        decreases n,
    {
        if n == 0 {
            0
        } else if self.keeps(self.cell(n - 1)) {
            self.kept((n - 1) as nat) + 1
        } else {
            self.kept((n - 1) as nat)
        }
    }
}

/// Where the cuboid of lattice cell `c` stands, for a thingamajig at `center`.
pub open spec fn cuboid_position(center: Vec3, c: (int, int, int)) -> Vec3 {
    Vec3 {
        x: clamp_i64(center.x + (c.0 * CUBOID_PITCH + CUBOID_PITCH)),
        y: clamp_i64(center.y + (c.1 * CUBOID_PITCH + CUBOID_PITCH)),
        z: clamp_i64(center.z + (c.2 * CUBOID_PITCH + CUBOID_PITCH)),
    }
}

/// The cuboids among the first `n` lattice cells, in lattice order.
pub open spec fn lattice_prefix(center: Vec3, shape: Shape, n: nat) -> Seq<Vec3> {
    Seq::new(n, |i: int| i).filter(|i: int| shape.keeps(shape.cell(i))).map_values(
        |i: int| cuboid_position(center, shape.cell(i)),
    )
}

/// The cuboids of a thingamajig at `center`, in lattice order.
pub open spec fn lattice(center: Vec3, shape: Shape) -> Seq<Vec3> {
    lattice_prefix(center, shape, shape.cells())
}

proof fn lemma_lattice_step(center: Vec3, shape: Shape, n: nat)
    ensures
        lattice_prefix(center, shape, n + 1) == if shape.keeps(shape.cell(n as int)) {
            lattice_prefix(center, shape, n).push(cuboid_position(center, shape.cell(n as int)))
        } else {
            lattice_prefix(center, shape, n)
        },
        lattice_prefix(center, shape, 0) == Seq::<Vec3>::empty(),
{
    let keep = |i: int| shape.keeps(shape.cell(i));
    let place = |i: int| cuboid_position(center, shape.cell(i));
    let before = Seq::new(n, |i: int| i);
    let after = Seq::new(n + 1, |i: int| i);
    assert(after =~= before.push(n as int));
    Seq::lemma_filter_push(before, n as int, keep);
    if keep(n as int) {
        assert(before.filter(keep).push(n as int).map_values(place) =~= before.filter(
            keep,
        ).map_values(place).push(place(n as int)));
    }
    let none = Seq::new(0, |i: int| i);
    assert(none =~= Seq::<int>::empty());
    assert(none.filter(keep) =~= Seq::<int>::empty()) by {
        none.lemma_filter_len(keep);
    }
    assert(none.filter(keep).map_values(place) =~= Seq::<Vec3>::empty());
}

/// The lattice holds one cuboid for every cell the shape keeps.
pub proof fn lemma_lattice_len(center: Vec3, shape: Shape, n: nat)
    ensures
        lattice_prefix(center, shape, n).len() == shape.kept(n),
    decreases n,
{
    if n == 0 {
        lemma_lattice_step(center, shape, 0);
    } else {
        lemma_lattice_len(center, shape, (n - 1) as nat);
        lemma_lattice_step(center, shape, (n - 1) as nat);
    }
}

/// The cuboids of a block, counted slab by slab.
proof fn lemma_block_kept()
    ensures
        Shape::Block.kept(256) == 184,
{
    assert(Shape::Block.kept(32) == 32) by {
        reveal_with_fuel(Shape::kept, 33);
    }
    assert(Shape::Block.kept(64) == 52) by {
        reveal_with_fuel(Shape::kept, 33);
    }
    assert(Shape::Block.kept(96) == 72) by {
        reveal_with_fuel(Shape::kept, 33);
    }
    assert(Shape::Block.kept(128) == 92) by {
        reveal_with_fuel(Shape::kept, 33);
    }
    assert(Shape::Block.kept(160) == 112) by {
        reveal_with_fuel(Shape::kept, 33);
    }
    assert(Shape::Block.kept(192) == 132) by {
        reveal_with_fuel(Shape::kept, 33);
    }
    assert(Shape::Block.kept(224) == 152) by {
        reveal_with_fuel(Shape::kept, 33);
    }
    assert(Shape::Block.kept(256) == 184) by {
        reveal_with_fuel(Shape::kept, 33);
    }
}

/// The cuboids of a ball up to lattice cell 64.
proof fn lemma_ball_kept_64()
    ensures
        Shape::Ball.kept(64) == 25,
{
    lemma_squares();
    assert(Shape::Ball.kept(8) == 0) by {
        reveal_with_fuel(Shape::kept, 9);
    }
    assert(Shape::Ball.kept(16) == 0) by {
        reveal_with_fuel(Shape::kept, 9);
    }
    assert(Shape::Ball.kept(24) == 5) by {
        reveal_with_fuel(Shape::kept, 9);
    }
    assert(Shape::Ball.kept(32) == 10) by {
        reveal_with_fuel(Shape::kept, 9);
    }
    assert(Shape::Ball.kept(40) == 15) by {
        reveal_with_fuel(Shape::kept, 9);
    }
    assert(Shape::Ball.kept(48) == 20) by {
        reveal_with_fuel(Shape::kept, 9);
    }
    assert(Shape::Ball.kept(56) == 25) by {
        reveal_with_fuel(Shape::kept, 9);
    }
    assert(Shape::Ball.kept(64) == 25) by {
        reveal_with_fuel(Shape::kept, 9);
    }
}

/// The cuboids of a ball up to lattice cell 128.
proof fn lemma_ball_kept_128()
    requires
        Shape::Ball.kept(64) == 25,
    ensures
        Shape::Ball.kept(128) == 49,
{
    lemma_squares();
    assert(Shape::Ball.kept(72) == 25) by {
        reveal_with_fuel(Shape::kept, 9);
    }
    assert(Shape::Ball.kept(80) == 30) by {
        reveal_with_fuel(Shape::kept, 9);
    }
    assert(Shape::Ball.kept(88) == 34) by {
        reveal_with_fuel(Shape::kept, 9);
    }
    assert(Shape::Ball.kept(96) == 36) by {
        reveal_with_fuel(Shape::kept, 9);
    }
    assert(Shape::Ball.kept(104) == 38) by {
        reveal_with_fuel(Shape::kept, 9);
    }
    assert(Shape::Ball.kept(112) == 40) by {
        reveal_with_fuel(Shape::kept, 9);
    }
    assert(Shape::Ball.kept(120) == 44) by {
        reveal_with_fuel(Shape::kept, 9);
    }
    assert(Shape::Ball.kept(128) == 49) by {
        reveal_with_fuel(Shape::kept, 9);
    }
}

/// The cuboids of a ball up to lattice cell 192.
proof fn lemma_ball_kept_192()
    requires
        Shape::Ball.kept(128) == 49,
    ensures
        Shape::Ball.kept(192) == 71,
{
    lemma_squares();
    assert(Shape::Ball.kept(136) == 54) by {
        reveal_with_fuel(Shape::kept, 9);
    }
    assert(Shape::Ball.kept(144) == 58) by {
        reveal_with_fuel(Shape::kept, 9);
    }
    assert(Shape::Ball.kept(152) == 61) by {
        reveal_with_fuel(Shape::kept, 9);
    }
    assert(Shape::Ball.kept(160) == 62) by {
        reveal_with_fuel(Shape::kept, 9);
    }
    assert(Shape::Ball.kept(168) == 63) by {
        reveal_with_fuel(Shape::kept, 9);
    }
    assert(Shape::Ball.kept(176) == 64) by {
        reveal_with_fuel(Shape::kept, 9);
    }
    assert(Shape::Ball.kept(184) == 67) by {
        reveal_with_fuel(Shape::kept, 9);
    }
    assert(Shape::Ball.kept(192) == 71) by {
        reveal_with_fuel(Shape::kept, 9);
    }
}

/// The cuboids of a ball up to lattice cell 256.
proof fn lemma_ball_kept_256()
    requires
        Shape::Ball.kept(192) == 71,
    ensures
        Shape::Ball.kept(256) == 85,
{
    lemma_squares();
    assert(Shape::Ball.kept(200) == 76) by {
        reveal_with_fuel(Shape::kept, 9);
    }
    assert(Shape::Ball.kept(208) == 78) by {
        reveal_with_fuel(Shape::kept, 9);
    }
    assert(Shape::Ball.kept(216) == 79) by {
        reveal_with_fuel(Shape::kept, 9);
    }
    assert(Shape::Ball.kept(224) == 80) by {
        reveal_with_fuel(Shape::kept, 9);
    }
    assert(Shape::Ball.kept(232) == 81) by {
        reveal_with_fuel(Shape::kept, 9);
    }
    assert(Shape::Ball.kept(240) == 82) by {
        reveal_with_fuel(Shape::kept, 9);
    }
    assert(Shape::Ball.kept(248) == 83) by {
        reveal_with_fuel(Shape::kept, 9);
    }
    assert(Shape::Ball.kept(256) == 85) by {
        reveal_with_fuel(Shape::kept, 9);
    }
}

/// The cuboids of a ball up to lattice cell 320.
proof fn lemma_ball_kept_320()
    requires
        Shape::Ball.kept(256) == 85,
    ensures
        Shape::Ball.kept(320) == 99,
{
    lemma_squares();
    assert(Shape::Ball.kept(264) == 90) by {
        reveal_with_fuel(Shape::kept, 9);
    }
    assert(Shape::Ball.kept(272) == 92) by {
        reveal_with_fuel(Shape::kept, 9);
    }
    assert(Shape::Ball.kept(280) == 93) by {
        reveal_with_fuel(Shape::kept, 9);
    }
    assert(Shape::Ball.kept(288) == 94) by {
        reveal_with_fuel(Shape::kept, 9);
    }
    assert(Shape::Ball.kept(296) == 95) by {
        reveal_with_fuel(Shape::kept, 9);
    }
    assert(Shape::Ball.kept(304) == 96) by {
        reveal_with_fuel(Shape::kept, 9);
    }
    assert(Shape::Ball.kept(312) == 97) by {
        reveal_with_fuel(Shape::kept, 9);
    }
    assert(Shape::Ball.kept(320) == 99) by {
        reveal_with_fuel(Shape::kept, 9);
    }
}

/// The cuboids of a ball up to lattice cell 384.
proof fn lemma_ball_kept_384()
    requires
        Shape::Ball.kept(320) == 99,
    ensures
        Shape::Ball.kept(384) == 113,
{
    lemma_squares();
    assert(Shape::Ball.kept(328) == 104) by {
        reveal_with_fuel(Shape::kept, 9);
    }
    assert(Shape::Ball.kept(336) == 106) by {
        reveal_with_fuel(Shape::kept, 9);
    }
    assert(Shape::Ball.kept(344) == 107) by {
        reveal_with_fuel(Shape::kept, 9);
    }
    assert(Shape::Ball.kept(352) == 108) by {
        reveal_with_fuel(Shape::kept, 9);
    }
    assert(Shape::Ball.kept(360) == 109) by {
        reveal_with_fuel(Shape::kept, 9);
    }
    assert(Shape::Ball.kept(368) == 110) by {
        reveal_with_fuel(Shape::kept, 9);
    }
    assert(Shape::Ball.kept(376) == 111) by {
        reveal_with_fuel(Shape::kept, 9);
    }
    assert(Shape::Ball.kept(384) == 113) by {
        reveal_with_fuel(Shape::kept, 9);
    }
}

/// The cuboids of a ball up to lattice cell 448.
proof fn lemma_ball_kept_448()
    requires
        Shape::Ball.kept(384) == 113,
    ensures
        Shape::Ball.kept(448) == 135,
{
    lemma_squares();
    assert(Shape::Ball.kept(392) == 118) by {
        reveal_with_fuel(Shape::kept, 9);
    }
    assert(Shape::Ball.kept(400) == 122) by {
        reveal_with_fuel(Shape::kept, 9);
    }
    assert(Shape::Ball.kept(408) == 125) by {
        reveal_with_fuel(Shape::kept, 9);
    }
    assert(Shape::Ball.kept(416) == 126) by {
        reveal_with_fuel(Shape::kept, 9);
    }
    assert(Shape::Ball.kept(424) == 127) by {
        reveal_with_fuel(Shape::kept, 9);
    }
    assert(Shape::Ball.kept(432) == 128) by {
        reveal_with_fuel(Shape::kept, 9);
    }
    assert(Shape::Ball.kept(440) == 131) by {
        reveal_with_fuel(Shape::kept, 9);
    }
    assert(Shape::Ball.kept(448) == 135) by {
        reveal_with_fuel(Shape::kept, 9);
    }
}

/// The cuboids of a ball up to lattice cell 512.
proof fn lemma_ball_kept_512()
    requires
        Shape::Ball.kept(448) == 135,
    ensures
        Shape::Ball.kept(512) == 159,
{
    lemma_squares();
    assert(Shape::Ball.kept(456) == 135) by {
        reveal_with_fuel(Shape::kept, 9);
    }
    assert(Shape::Ball.kept(464) == 140) by {
        reveal_with_fuel(Shape::kept, 9);
    }
    assert(Shape::Ball.kept(472) == 144) by {
        reveal_with_fuel(Shape::kept, 9);
    }
    assert(Shape::Ball.kept(480) == 146) by {
        reveal_with_fuel(Shape::kept, 9);
    }
    assert(Shape::Ball.kept(488) == 148) by {
        reveal_with_fuel(Shape::kept, 9);
    }
    assert(Shape::Ball.kept(496) == 150) by {
        reveal_with_fuel(Shape::kept, 9);
    }
    assert(Shape::Ball.kept(504) == 154) by {
        reveal_with_fuel(Shape::kept, 9);
    }
    assert(Shape::Ball.kept(512) == 159) by {
        reveal_with_fuel(Shape::kept, 9);
    }
}

/// The cuboids of a ball, counted slab by slab.
proof fn lemma_ball_kept()
    ensures
        Shape::Ball.kept(512) == 159,
{
    lemma_ball_kept_64();
    lemma_ball_kept_128();
    lemma_ball_kept_192();
    lemma_ball_kept_256();
    lemma_ball_kept_320();
    lemma_ball_kept_384();
    lemma_ball_kept_448();
    lemma_ball_kept_512();
}

/// A thingamajig is a hollow shell of a size that is known beforehand: a
/// block has 184 cuboids and a ball 159, wherever it stands.
pub proof fn lemma_thingamajig_size(center: Vec3, shape: Shape)
    ensures
        lattice(center, shape).len() == match shape {
            Shape::Block => 184nat,
            Shape::Ball => 159nat,
        },
        120 <= lattice(center, shape).len() <= 200,
{
    lemma_lattice_len(center, shape, shape.cells());
    lemma_block_kept();
    lemma_ball_kept();
}

/// A block is hollow: the cells that touch no face of its box are left out.
pub proof fn lemma_block_is_hollow(x: int, y: int, z: int)
    requires
        -3 <= x <= 2,
        -3 <= y <= 2,
        -1 <= z <= 0,
    ensures
        !Shape::Block.keeps((x, y, z)),
{
}

/// A ball is hollow: the cells less than four cells from its origin are
/// left out, and so are those five cells away and more.
pub proof fn lemma_ball_is_hollow(x: int, y: int, z: int)
    ensures
        x * x + y * y + z * z < 16 ==> !Shape::Ball.keeps((x, y, z)),
        x * x + y * y + z * z >= 25 ==> !Shape::Ball.keeps((x, y, z)),
        16 <= x * x + y * y + z * z < 25 ==> Shape::Ball.keeps((x, y, z)),
{
}

/// Whether a thingamajig at `center` lies clear of the ends of the `i64`
/// range, so that none of its cuboids is held back there.
pub open spec fn clear_of_ends(center: Vec3) -> bool {
    &&& i64::MIN + 10_000 <= center.x <= i64::MAX - 10_000
    &&& i64::MIN + 10_000 <= center.y <= i64::MAX - 10_000
    &&& i64::MIN + 10_000 <= center.z <= i64::MAX - 10_000
}

/// Whether `place` is where one of the first `n` lattice cells stands.
pub open spec fn at_a_cell(center: Vec3, shape: Shape, n: nat, place: Vec3) -> bool {
    exists|k: int| 0 <= k < n && place == #[trigger] cuboid_position(center, shape.cell(k))
}

/// Every cuboid among the first `n` lattice cells stands at one of them.
proof fn lemma_cuboids_come_from_cells(center: Vec3, shape: Shape, n: nat)
    ensures
        forall|i: int|
            0 <= i < lattice_prefix(center, shape, n).len() ==> at_a_cell(
                center,
                shape,
                n,
                #[trigger] lattice_prefix(center, shape, n)[i],
            ),
    decreases n,
{
    lemma_lattice_step(center, shape, 0);
    if n > 0 {
        let before = lattice_prefix(center, shape, (n - 1) as nat);
        let after = lattice_prefix(center, shape, n);
        lemma_cuboids_come_from_cells(center, shape, (n - 1) as nat);
        lemma_lattice_step(center, shape, (n - 1) as nat);
        assert forall|i: int| 0 <= i < after.len() implies at_a_cell(
            center,
            shape,
            n,
            #[trigger] after[i],
        ) by {
            if i < before.len() {
                assert(at_a_cell(center, shape, (n - 1) as nat, before[i]));
                let k = choose|k: int|
                    0 <= k < n - 1 && before[i] == #[trigger] cuboid_position(
                        center,
                        shape.cell(k),
                    );
                assert(after[i] == cuboid_position(center, shape.cell(k)));
            } else {
                assert(after[i] == cuboid_position(center, shape.cell(n - 1)));
            }
        }
    }
}

/// Two lattice cells with the same coordinates are the same cell.
proof fn lemma_cells_differ(shape: Shape, i: int, j: int)
    requires
        0 <= i < shape.cells(),
        0 <= j < shape.cells(),
        shape.cell(i) == shape.cell(j),
    ensures
        i == j,
{
    let (row, layer) = match shape {
        Shape::Block => (4int, 8int),
        Shape::Ball => (8int, 8int),
    };
    lemma_div_denominator(i, row, layer);
    lemma_div_denominator(j, row, layer);
    lemma_fundamental_div_mod(i, row);
    lemma_fundamental_div_mod(j, row);
    lemma_fundamental_div_mod(i / row, layer);
    lemma_fundamental_div_mod(j / row, layer);
    assert(i / row == j / row);
}

/// No two cuboids of a thingamajig stand in the same place, as long as it
/// lies clear of the ends of the range.
pub proof fn lemma_cuboids_distinct(center: Vec3, shape: Shape, n: nat)
    requires
        clear_of_ends(center),
        n <= shape.cells(),
    ensures
        lattice_prefix(center, shape, n).no_duplicates(),
    decreases n,
{
    lemma_lattice_step(center, shape, 0);
    if n > 0 {
        let before = lattice_prefix(center, shape, (n - 1) as nat);
        let after = lattice_prefix(center, shape, n);
        lemma_cuboids_distinct(center, shape, (n - 1) as nat);
        lemma_lattice_step(center, shape, (n - 1) as nat);
        lemma_cuboids_come_from_cells(center, shape, (n - 1) as nat);
        if shape.keeps(shape.cell(n - 1)) {
            let added = cuboid_position(center, shape.cell(n - 1));
            assert forall|i: int| 0 <= i < before.len() implies before[i] != added by {
                assert(at_a_cell(center, shape, (n - 1) as nat, before[i]));
                let k = choose|k: int|
                    0 <= k < n - 1 && before[i] == #[trigger] cuboid_position(
                        center,
                        shape.cell(k),
                    );
                if before[i] == added {
                    assert(shape.cell(k) == shape.cell(n - 1));
                    lemma_cells_differ(shape, k, n - 1);
                }
            }
            assert forall|i: int, j: int| 0 <= i < after.len() && 0 <= j < after.len() && i
                != j implies after[i] != after[j] by {
                if i < before.len() && j < before.len() {
                    assert(before[i] != before[j]);
                }
            }
        }
    }
}

fn cuboid_at(center: Vec3, x: i64, y: i64, z: i64) -> (position: Vec3)
    requires
        -4 <= x < 4,
        -4 <= y < 4,
        -4 <= z < 4,
    ensures
        position == cuboid_position(center, (x as int, y as int, z as int)),
{
    Vec3 {
        x: saturating_sum(center.x, x * CUBOID_PITCH + CUBOID_PITCH),
        y: saturating_sum(center.y, y * CUBOID_PITCH + CUBOID_PITCH),
        z: saturating_sum(center.z, z * CUBOID_PITCH + CUBOID_PITCH),
    }
}

fn block_cuboids(center: Vec3) -> (cuboids: Vec<Vec3>)
    ensures
        cuboids@ == lattice(center, Shape::Block),
{
    let mut cuboids: Vec<Vec3> = Vec::new();
    proof {
        lemma_lattice_step(center, Shape::Block, 0);
    }
    for x in -4i64..4
        invariant
            cuboids@ == lattice_prefix(center, Shape::Block, ((x + 4) * 32) as nat),
    {
        for y in -4i64..4
            invariant
                -4 <= x < 4,
                cuboids@ == lattice_prefix(
                    center,
                    Shape::Block,
                    ((x + 4) * 32 + (y + 4) * 4) as nat,
                ),
        {
            for z in -2i64..2
                invariant
                    -4 <= x < 4,
                    -4 <= y < 4,
                    cuboids@ == lattice_prefix(
                        center,
                        Shape::Block,
                        ((x + 4) * 32 + (y + 4) * 4 + (z + 2)) as nat,
                    ),
            {
                let ghost n = ((x + 4) * 32 + (y + 4) * 4 + (z + 2)) as nat;
                proof {
                    lemma_lattice_step(center, Shape::Block, n);
                    assert(n / 4 == (x + 4) * 8 + (y + 4));
                    assert(Shape::Block.cell(n as int) == (x as int, y as int, z as int));
                }
                if x == -4 || x == 3 || y == -4 || y == 3 || z == -2 || z == 1 {
                    cuboids.push(cuboid_at(center, x, y, z));
                }
            }
        }
    }
    cuboids
}

fn ball_cuboids(center: Vec3) -> (cuboids: Vec<Vec3>)
    ensures
        cuboids@ == lattice(center, Shape::Ball),
{
    let mut cuboids: Vec<Vec3> = Vec::new();
    proof {
        lemma_lattice_step(center, Shape::Ball, 0);
    }
    for x in -4i64..4
        invariant
            cuboids@ == lattice_prefix(center, Shape::Ball, ((x + 4) * 64) as nat),
    {
        for y in -4i64..4
            invariant
                -4 <= x < 4,
                cuboids@ == lattice_prefix(
                    center,
                    Shape::Ball,
                    ((x + 4) * 64 + (y + 4) * 8) as nat,
                ),
        {
            for z in -4i64..4
                invariant
                    -4 <= x < 4,
                    -4 <= y < 4,
                    cuboids@ == lattice_prefix(
                        center,
                        Shape::Ball,
                        ((x + 4) * 64 + (y + 4) * 8 + (z + 4)) as nat,
                    ),
            {
                let ghost n = ((x + 4) * 64 + (y + 4) * 8 + (z + 4)) as nat;
                proof {
                    lemma_lattice_step(center, Shape::Ball, n);
                    assert(n / 8 == (x + 4) * 8 + (y + 4));
                    assert(Shape::Ball.cell(n as int) == (x as int, y as int, z as int));
                }
                assert(0 <= x * x <= 16 && 0 <= y * y <= 16 && 0 <= z * z <= 16) by (nonlinear_arith)
                    requires
                        -4 <= x < 4,
                        -4 <= y < 4,
                        -4 <= z < 4,
                ;
                let far = x * x + y * y + z * z;
                assert(far == square(x as int) + square(y as int) + square(z as int));
                if 16 <= far && far < 25 {
                    cuboids.push(cuboid_at(center, x, y, z));
                }
            }
        }
    }
    cuboids
}

/// What the second spawn tier asks the host to create: a cluster of cuboids
/// and one collider around them.
#[derive(Clone, Debug, PartialEq, Eq)]
pub struct ThingamajigPlan {
    pub center: Vec3,
    pub shape: Shape,
    /// Size of the collider around the whole cluster.
    pub collider: Vec3,
    /// Where each cuboid stands.
    pub cuboids: Vec<Vec3>,
}

impl Shape {
    /// Size of the collider around a whole thingamajig of this shape.
    pub open spec fn collider_size(self) -> Vec3 {
        match self {
            Shape::Block => Vec3 { x: 20_000, y: 20_000, z: 12_000 },
            Shape::Ball => Vec3 { x: 20_000, y: 20_000, z: 20_000 },
        }
    }
}

/// A plan with its cuboids as a sequence.
pub struct ThingamajigView {
    pub center: Vec3,
    pub shape: Shape,
    pub collider: Vec3,
    pub cuboids: Seq<Vec3>,
}

impl View for ThingamajigPlan {
    type V = ThingamajigView;

    open spec fn view(&self) -> ThingamajigView {
        ThingamajigView {
            center: self.center,
            shape: self.shape,
            collider: self.collider,
            cuboids: self.cuboids@,
        }
    }
}

/// The plan of a thingamajig of `shape` at `center`.
pub open spec fn planned(center: Vec3, shape: Shape) -> ThingamajigView {
    ThingamajigView {
        center,
        shape,
        collider: shape.collider_size(),
        cuboids: lattice(center, shape),
    }
}

impl ThingamajigPlan {
    /// Plans a thingamajig of `shape` at `center`.
    pub fn new(center: Vec3, shape: Shape) -> (plan: ThingamajigPlan)
        ensures
            plan@ == planned(center, shape),
            120 <= plan.cuboids@.len() <= 200,
    {
        proof {
            lemma_thingamajig_size(center, shape);
        }
        match shape {
            Shape::Block => ThingamajigPlan {
                center,
                shape,
                collider: Vec3 { x: 20_000, y: 20_000, z: 12_000 },
                cuboids: block_cuboids(center),
            },
            Shape::Ball => ThingamajigPlan {
                center,
                shape,
                collider: Vec3 { x: 20_000, y: 20_000, z: 20_000 },
                cuboids: ball_cuboids(center),
            },
        }
    }
}

} // verus!
