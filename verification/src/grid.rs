//! A uniform grid over the seeds of a world.
//!
//! The volume is cut into `grid_size` voxels along each axis. Every seed is
//! entered into the voxel it lies in and into the voxels around that one, so
//! that a point can find the seeds near it by looking into its own voxel
//! only. A voxel keeps the first eight seeds entered and drops the rest.
//!
//! Seeds are given by the voxel coordinates of their positions, as they come
//! out of the division by the voxel size: possibly outside the grid, and then
//! taken to the nearest voxel inside.

use vstd::prelude::*;

verus! {

/// Number of seeds that one voxel can keep.
pub const VOXEL_CAPACITY: u32 = 8;

/// Value of a slot that keeps no seed.
pub const EMPTY_SLOT: i32 = -1;

/// Voxel coordinates of a seed, not yet confined to the grid.
#[derive(Clone, Copy, Debug, PartialEq, Eq, Structural)]
pub struct VoxelCoord {
    pub x: i32,
    pub y: i32,
    pub z: i32,
}

/// The seeds kept by one voxel.
#[derive(Clone, Copy, Debug)]
pub struct GridCell {
    /// Indices of the seeds kept, in the order they were entered; `-1` in
    /// every slot that is not in use.
    pub cell_indices: [i32; 8],
    /// Number of slots in use.
    pub count: u32,
}

/// The grid: `grid_size` cubed voxels, x running fastest, then y, then z.
#[derive(Debug)]
pub struct SpatialGrid {
    pub cells: Vec<GridCell>,
    pub grid_size: u32,
}

/// `c` where it names a voxel along an axis of `g` voxels, else the nearest
/// coordinate that does.
pub open spec fn clamp_axis(c: int, g: int) -> int {
    if c < 0 {
        0
    } else if c >= g {
        g - 1
    } else {
        c
    }
}

/// Position of the voxel at `x`, `y`, `z` in the grid's sequence of voxels.
pub open spec fn voxel_index(x: int, y: int, z: int, g: int) -> int {
    (z * g + y) * g + x
}

/// The x coordinate of the voxel at position `idx`.
#[verifier::opaque]
pub open spec fn voxel_x(idx: int, g: int) -> int {
    idx % g
}

/// The y coordinate of the voxel at position `idx`.
#[verifier::opaque]
pub open spec fn voxel_y(idx: int, g: int) -> int {
    (idx / g) % g
}

/// The z coordinate of the voxel at position `idx`.
#[verifier::opaque]
pub open spec fn voxel_z(idx: int, g: int) -> int {
    (idx / g) / g
}

/// `b` is `a` or next to it.
pub open spec fn adjacent(a: int, b: int) -> bool {
    a - 1 <= b <= a + 1
}

/// The seed is entered into the voxel at position `idx`: the voxel is the
/// seed's own, confined to the grid, or one of the twenty-six around it.
pub open spec fn reaches(seed: VoxelCoord, g: int, idx: int) -> bool {
    &&& adjacent(clamp_axis(seed.x as int, g), voxel_x(idx, g))
    &&& adjacent(clamp_axis(seed.y as int, g), voxel_y(idx, g))
    &&& adjacent(clamp_axis(seed.z as int, g), voxel_z(idx, g))
}

/// Those of the first `n` seeds that are entered into the voxel at `idx`,
/// by their indices, in rising order.
pub open spec fn reaching(seeds: Seq<VoxelCoord>, g: int, idx: int, n: nat) -> Seq<int>
    decreases n,
{
    if n == 0 {
        Seq::empty()
    } else {
        let earlier = reaching(seeds, g, idx, (n - 1) as nat);
        if reaches(seeds[n - 1], g, idx) {
            earlier.push(n - 1)
        } else {
            earlier
        }
    }
}

/// The first eight of `members`, or all of them if they are fewer.
pub open spec fn first_eight(members: Seq<int>) -> Seq<int> {
    if members.len() <= 8 {
        members
    } else {
        members.subrange(0, 8)
    }
}

/// When in the scan of a seed's surroundings the voxel at `idx` has its
/// turn: planes of rising z, in each plane rows of rising y, in each row
/// rising x.
pub open spec fn scan_rank(seed: VoxelCoord, g: int, idx: int) -> int {
    9 * (voxel_z(idx, g) - clamp_axis(seed.z as int, g) + 1) + 3 * (voxel_y(idx, g) - clamp_axis(
        seed.y as int,
        g,
    ) + 1) + (voxel_x(idx, g) - clamp_axis(seed.x as int, g) + 1)
}

/// How many of the seeds have been entered into the voxel at `idx`, or
/// passed it by, when seed `n` is `k` voxels into its scan.
pub open spec fn settled(seeds: Seq<VoxelCoord>, g: int, idx: int, n: nat, k: int) -> nat {
    if reaches(seeds[n as int], g, idx) && scan_rank(seeds[n as int], g, idx) < k {
        n + 1
    } else {
        n
    }
}

impl GridCell {
    /// At most eight slots are in use, and the others are marked empty.
    pub open spec fn wf(self) -> bool {
        &&& self.count <= VOXEL_CAPACITY
        &&& forall|k: int| self.count <= k < 8 ==> self.cell_indices@[k] == EMPTY_SLOT
    }

    /// The seeds kept, in the order they were entered.
    pub open spec fn seeds(self) -> Seq<int> {
        Seq::new(self.count as nat, |k: int| self.cell_indices@[k] as int)
    }

    /// The voxel keeps the first eight of `members` and nothing else.
    pub open spec fn holds(self, members: Seq<int>) -> bool {
        self.wf() && self.seeds() == first_eight(members)
    }

    /// A voxel that keeps no seed.
    pub fn empty() -> (cell: GridCell)
        ensures
            cell.wf(),
            cell.count == 0,
            cell.seeds() == Seq::<int>::empty(),
            cell.holds(Seq::<int>::empty()),
    {
        let cell = GridCell {
            cell_indices: [
                EMPTY_SLOT,
                EMPTY_SLOT,
                EMPTY_SLOT,
                EMPTY_SLOT,
                EMPTY_SLOT,
                EMPTY_SLOT,
                EMPTY_SLOT,
                EMPTY_SLOT,
            ],
            count: 0,
        };
        assert(cell.seeds() =~= Seq::<int>::empty());
        cell
    }

    /// Enters `seed` if a slot is free and says whether it did. A full voxel
    /// stays as it is.
    pub fn insert(&mut self, seed: i32) -> (kept: bool)
        requires
            old(self).wf(),
        ensures
            final(self).wf(),
            kept <==> old(self).count < VOXEL_CAPACITY,
            kept ==> final(self).seeds() == old(self).seeds().push(seed as int),
            !kept ==> *final(self) == *old(self),
            final(self).seeds() == first_eight(old(self).seeds().push(seed as int)),
    {
        if self.count < VOXEL_CAPACITY {
            let slot: usize = self.count as usize;
            self.cell_indices[slot] = seed;
            self.count = self.count + 1;
            assert(self.seeds() =~= old(self).seeds().push(seed as int));
            true
        } else {
            assert(old(self).seeds().push(seed as int).subrange(0, 8) =~= old(self).seeds());
            false
        }
    }
}

/// Keeping the first eight at every step keeps the first eight overall.
pub proof fn lemma_first_eight_push(members: Seq<int>, next: int)
    ensures
        first_eight(first_eight(members).push(next)) == first_eight(members.push(next)),
{
    if members.len() < 8 {
    } else if members.len() == 8 {
        assert(members.push(next).subrange(0, 8) =~= members);
    } else {
        assert(members.subrange(0, 8).push(next).subrange(0, 8) =~= members.subrange(0, 8));
        assert(members.push(next).subrange(0, 8) =~= members.subrange(0, 8));
    }
}

/// The members of [`reaching`] are exactly the seeds before `n` that are
/// entered into the voxel, each once, in rising order.
pub proof fn lemma_reaching_members(seeds: Seq<VoxelCoord>, g: int, idx: int, n: nat)
    requires
        n <= seeds.len(),
    ensures
        reaching(seeds, g, idx, n).len() <= n,
        forall|k: int|
            0 <= k < reaching(seeds, g, idx, n).len() ==> {
                let i = #[trigger] reaching(seeds, g, idx, n)[k];
                0 <= i < n && reaches(seeds[i], g, idx)
            },
        forall|k: int, l: int|
            0 <= k < l < reaching(seeds, g, idx, n).len() ==> reaching(seeds, g, idx, n)[k]
                < reaching(seeds, g, idx, n)[l],
        forall|i: int|
            0 <= i < n && reaches(#[trigger] seeds[i], g, idx) ==> reaching(
                seeds,
                g,
                idx,
                n,
            ).contains(i),
    decreases n,
{
    if n > 0 {
        let earlier = reaching(seeds, g, idx, (n - 1) as nat);
        let all = reaching(seeds, g, idx, n);
        lemma_reaching_members(seeds, g, idx, (n - 1) as nat);
        assert forall|i: int| 0 <= i < n && reaches(#[trigger] seeds[i], g, idx) implies all.contains(
            i,
        ) by {
            if i < n - 1 {
                assert(earlier.contains(i));
                let k = choose|k: int| 0 <= k < earlier.len() && earlier[k] == i;
                assert(all[k] == i);
            } else {
                assert(all[all.len() - 1] == i);
            }
        }
    }
}

/// Any rising run of seeds before `n` that are all entered into the voxel
/// is no longer than [`reaching`].
pub proof fn lemma_reaching_counts(
    seeds: Seq<VoxelCoord>,
    g: int,
    idx: int,
    n: nat,
    cluster: Seq<int>,
)
    requires
        n <= seeds.len(),
        forall|k: int|
            0 <= k < cluster.len() ==> 0 <= #[trigger] cluster[k] < n && reaches(
                seeds[cluster[k]],
                g,
                idx,
            ),
        forall|k: int, l: int| 0 <= k < l < cluster.len() ==> cluster[k] < cluster[l],
    ensures
        cluster.len() <= reaching(seeds, g, idx, n).len(),
    decreases n,
{
    if cluster.len() > 0 {
        let last = cluster[cluster.len() - 1];
        assert(0 <= last < n && reaches(seeds[last], g, idx));
        if last == n - 1 {
            let rest = cluster.drop_last();
            assert forall|k: int| 0 <= k < rest.len() implies 0 <= #[trigger] rest[k] < n - 1
                && reaches(seeds[rest[k]], g, idx) by {
                assert(rest[k] == cluster[k]);
                assert(cluster[k] < cluster[cluster.len() - 1]);
            }
            lemma_reaching_counts(seeds, g, idx, (n - 1) as nat, rest);
        } else {
            assert forall|k: int| 0 <= k < cluster.len() implies #[trigger] cluster[k] < n - 1 by {
                if k < cluster.len() - 1 {
                    assert(cluster[k] < cluster[cluster.len() - 1]);
                }
            }
            lemma_reaching_counts(seeds, g, idx, (n - 1) as nat, cluster);
        }
    }
}

/// A voxel never keeps more than eight seeds, and keeps eight as soon as
/// more than eight are entered into it: `cluster` is any rising run of
/// seeds that all reach the voxel.
pub proof fn lemma_voxel_saturates(
    grid: SpatialGrid,
    seeds: Seq<VoxelCoord>,
    idx: int,
    cluster: Seq<int>,
)
    requires
        grid.built_from(seeds),
        0 <= idx < grid.cells@.len(),
        forall|k: int|
            0 <= k < cluster.len() ==> 0 <= #[trigger] cluster[k] < seeds.len() && reaches(
                seeds[cluster[k]],
                grid.grid_size as int,
                idx,
            ),
        forall|k: int, l: int| 0 <= k < l < cluster.len() ==> cluster[k] < cluster[l],
    ensures
        grid.cells@[idx].count <= VOXEL_CAPACITY,
        cluster.len() > 8 ==> grid.cells@[idx].count == VOXEL_CAPACITY,
        cluster.len() <= 8 ==> grid.cells@[idx].count >= cluster.len(),
        forall|k: int|
            0 <= k < grid.cells@[idx].count ==> {
                let i = #[trigger] grid.cells@[idx].cell_indices@[k];
                0 <= i < seeds.len() && reaches(seeds[i as int], grid.grid_size as int, idx)
            },
{
    let g = grid.grid_size as int;
    let all = reaching(seeds, g, idx, seeds.len());
    let cell = grid.cells@[idx];
    lemma_reaching_counts(seeds, g, idx, seeds.len(), cluster);
    lemma_reaching_members(seeds, g, idx, seeds.len());
    assert(cell.seeds() == first_eight(all));
    assert(cell.seeds().len() == cell.count);
    assert forall|k: int| 0 <= k < cell.count implies {
        let i = #[trigger] cell.cell_indices@[k];
        0 <= i < seeds.len() && reaches(seeds[i as int], g, idx)
    } by {
        assert(cell.seeds()[k] == cell.cell_indices@[k] as int);
        assert(first_eight(all)[k] == all[k]);
    }
}

/// Coordinates inside the grid name a voxel of it, and the voxel's position
/// gives the coordinates back.
pub proof fn lemma_voxel_index(x: int, y: int, z: int, g: int)
    requires
        0 <= x < g,
        0 <= y < g,
        0 <= z < g,
    ensures
        0 <= voxel_index(x, y, z, g) < g * g * g,
        0 <= z * g + y < g * g,
        voxel_x(voxel_index(x, y, z, g), g) == x,
        voxel_y(voxel_index(x, y, z, g), g) == y,
        voxel_z(voxel_index(x, y, z, g), g) == z,
{
    reveal(voxel_x);
    reveal(voxel_y);
    reveal(voxel_z);
    let row = z * g + y;
    assert(0 <= row < g * g) by (nonlinear_arith)
        requires
            row == z * g + y,
            0 <= y < g,
            0 <= z < g,
    ;
    assert(0 <= row * g + x < g * g * g) by (nonlinear_arith)
        requires
            0 <= row < g * g,
            0 <= x < g,
    ;
    vstd::arithmetic::div_mod::lemma_fundamental_div_mod_converse(row * g + x, g, row, x);
    vstd::arithmetic::div_mod::lemma_fundamental_div_mod_converse(row, g, z, y);
}

/// The position of the voxel that a seed lies in, once confined to the grid.
pub open spec fn home_index(seed: VoxelCoord, g: int) -> int {
    voxel_index(
        clamp_axis(seed.x as int, g),
        clamp_axis(seed.y as int, g),
        clamp_axis(seed.z as int, g),
        g,
    )
}

/// A seed is entered into the voxel it lies in.
pub proof fn lemma_home_is_reached(seed: VoxelCoord, g: int)
    requires
        g > 0,
    ensures
        0 <= home_index(seed, g) < g * g * g,
        reaches(seed, g, home_index(seed, g)),
{
    lemma_voxel_index(
        clamp_axis(seed.x as int, g),
        clamp_axis(seed.y as int, g),
        clamp_axis(seed.z as int, g),
        g,
    );
}

/// Every position in the grid has coordinates inside it, and they name it.
pub proof fn lemma_voxel_coordinates(idx: int, g: int)
    requires
        0 <= idx < g * g * g,
    ensures
        0 <= voxel_x(idx, g) < g,
        0 <= voxel_y(idx, g) < g,
        0 <= voxel_z(idx, g) < g,
        voxel_index(voxel_x(idx, g), voxel_y(idx, g), voxel_z(idx, g), g) == idx,
{
    reveal(voxel_x);
    reveal(voxel_y);
    reveal(voxel_z);
    assert(g > 0) by (nonlinear_arith)
        requires
            0 < g * g * g,
    ;
    let row = idx / g;
    vstd::arithmetic::div_mod::lemma_fundamental_div_mod(idx, g);
    vstd::arithmetic::div_mod::lemma_fundamental_div_mod(row, g);
    vstd::arithmetic::div_mod::lemma_mod_bound(idx, g);
    vstd::arithmetic::div_mod::lemma_mod_bound(row, g);
    assert(0 <= row < g * g) by (nonlinear_arith)
        requires
            idx == g * row + idx % g,
            0 <= idx % g < g,
            0 <= idx < g * g * g,
            g > 0,
    ;
    let z = row / g;
    assert(0 <= z < g) by (nonlinear_arith)
        requires
            row == g * z + row % g,
            0 <= row % g < g,
            0 <= row < g * g,
            g > 0,
    ;
    assert((z * g + row % g) * g + idx % g == idx) by (nonlinear_arith)
        requires
            row == g * z + row % g,
            idx == g * row + idx % g,
    ;
}

/// The voxel that is looked at `k` voxels into the scan of a seed's
/// surroundings, by its coordinates; they may lie outside the grid.
pub open spec fn scan_target(seed: VoxelCoord, g: int, k: int) -> (int, int, int) {
    (
        clamp_axis(seed.x as int, g) + k % 3 - 1,
        clamp_axis(seed.y as int, g) + (k / 3) % 3 - 1,
        clamp_axis(seed.z as int, g) + k / 9 - 1,
    )
}

/// The voxel that has its turn `k` voxels into a scan is the one at the
/// scan's target, and no other.
pub proof fn lemma_turn(seed: VoxelCoord, g: int, k: int, idx: int)
    requires
        0 <= k < 27,
    ensures
        (reaches(seed, g, idx) && scan_rank(seed, g, idx) == k) <==> scan_target(seed, g, k) == (
            voxel_x(idx, g),
            voxel_y(idx, g),
            voxel_z(idx, g),
        ),
{
}

/// One voxel of a scan, seen from the voxel at `idx`: if the scan's target
/// lies in the grid, the seed is offered to the voxel there and the others
/// are left alone; if it does not, all are left alone.
proof fn lemma_scan_step_at(
    seeds: Seq<VoxelCoord>,
    g: int,
    n: nat,
    k: int,
    idx: int,
    before: GridCell,
    after: GridCell,
)
    requires
        g > 0,
        n < seeds.len(),
        0 <= k < 27,
        0 <= idx < g * g * g,
        before.holds(reaching(seeds, g, idx, settled(seeds, g, idx, n, k))),
        ({
            let (x, y, z) = scan_target(seeds[n as int], g, k);
            if 0 <= x < g && 0 <= y < g && 0 <= z < g && idx == voxel_index(x, y, z, g) {
                after.wf() && after.seeds() == first_eight(before.seeds().push(n as int))
            } else {
                after == before
            }
        }),
    ensures
        after.holds(reaching(seeds, g, idx, settled(seeds, g, idx, n, k + 1))),
{
    let seed = seeds[n as int];
    let (x, y, z) = scan_target(seed, g, k);
    lemma_voxel_coordinates(idx, g);
    lemma_turn(seed, g, k, idx);
    if reaches(seed, g, idx) && scan_rank(seed, g, idx) == k {
        let earlier = reaching(seeds, g, idx, n);
        assert(reaching(seeds, g, idx, n + 1) == earlier.push(n as int));
        lemma_first_eight_push(earlier, n as int);
    } else {
        if 0 <= x < g && 0 <= y < g && 0 <= z < g {
            lemma_voxel_index(x, y, z, g);
        }
    }
}

/// When the scan of seed `n` is over, the seed is settled for every voxel.
pub proof fn lemma_scan_done(seeds: Seq<VoxelCoord>, g: int, n: nat, idx: int)
    requires
        n < seeds.len(),
    ensures
        reaching(seeds, g, idx, settled(seeds, g, idx, n, 27)) == reaching(seeds, g, idx, n + 1),
        settled(seeds, g, idx, n, 0) == n,
{
}

impl SpatialGrid {
    /// The grid has its full number of voxels and each is well formed.
    pub open spec fn wf(self) -> bool {
        &&& self.cells@.len() == self.grid_size * self.grid_size * self.grid_size
        &&& forall|idx: int| 0 <= idx < self.cells@.len() ==> (#[trigger] self.cells@[idx]).wf()
    }

    /// The grid is the one built over `seeds`: every voxel keeps the first
    /// eight of the seeds that are entered into it.
    pub open spec fn built_from(self, seeds: Seq<VoxelCoord>) -> bool {
        &&& self.wf()
        &&& forall|idx: int|
            0 <= idx < self.cells@.len() ==> (#[trigger] self.cells@[idx]).seeds() == first_eight(
                reaching(seeds, self.grid_size as int, idx, seeds.len()),
            )
    }

    /// Builds the grid of `grid_size` voxels along each axis over `seeds`.
    ///
    /// The seeds are identified by their positions in `seeds`, so there may
    /// be no more of them than a slot can name. A grid without voxels can
    /// be built over no seeds only.
    pub fn build(seeds: &[VoxelCoord], grid_size: u32) -> (grid: SpatialGrid)
        requires
            grid_size * grid_size * grid_size <= usize::MAX,
            seeds@.len() <= i32::MAX,
            seeds@.len() > 0 ==> grid_size > 0,
        ensures
            grid.grid_size == grid_size,
            grid.built_from(seeds@),
    {
        let g: usize = grid_size as usize;
        proof {
            assert(g * g <= g * g * g && g * g * g == grid_size * grid_size * grid_size)
                by (nonlinear_arith)
                requires
                    g == grid_size,
                    g >= 0,
            ;
        }
        let total: usize = g * g * g;
        let mut cells: Vec<GridCell> = Vec::new();
        let mut made: usize = 0;
        while made < total
            invariant
                made <= total,
                cells@.len() == made,
                forall|idx: int|
                    0 <= idx < made ==> (#[trigger] cells@[idx]).holds(Seq::<int>::empty()),
            decreases total - made,
        {
            cells.push(GridCell::empty());
            made = made + 1;
        }
        let mut n: usize = 0;
        while n < seeds.len()
            invariant
                n <= seeds@.len() <= i32::MAX,
                seeds@.len() > 0 ==> g > 0,
                g == grid_size,
                total == g * g * g,
                cells@.len() == total,
                forall|idx: int|
                    0 <= idx < total ==> (#[trigger] cells@[idx]).holds(
                        reaching(seeds@, g as int, idx, n as nat),
                    ),
            decreases seeds@.len() - n,
        {
            let seed = seeds[n];
            let home_x: usize = confine(seed.x, grid_size);
            let home_y: usize = confine(seed.y, grid_size);
            let home_z: usize = confine(seed.z, grid_size);
            let mut k: usize = 0;
            while k < 27
                invariant
                    k <= 27,
                    n < seeds@.len() <= i32::MAX,
                    seed == seeds@[n as int],
                    g > 0,
                    g == grid_size,
                    total == g * g * g,
                    cells@.len() == total,
                    home_x == clamp_axis(seed.x as int, g as int),
                    home_y == clamp_axis(seed.y as int, g as int),
                    home_z == clamp_axis(seed.z as int, g as int),
                    forall|idx: int|
                        0 <= idx < total ==> (#[trigger] cells@[idx]).holds(
                            reaching(seeds@, g as int, idx, settled(seeds@, g as int, idx, n as nat, k as int)),
                        ),
                decreases 27 - k,
            {
                let ghost before = cells@;
                let x: usize = home_x + k % 3;
                let y: usize = home_y + (k / 3) % 3;
                let z: usize = home_z + k / 9;
                let ghost target: int = -1;
                if 1 <= x && x <= g && 1 <= y && y <= g && 1 <= z && z <= g {
                    proof {
                        lemma_voxel_index(x - 1, y - 1, z - 1, g as int);
                        assert(0 <= (z - 1) * g <= (z - 1) * g + (y - 1) && g * g <= g * g * g)
                            by (nonlinear_arith)
                            requires
                                1 <= z <= g,
                                1 <= y <= g,
                        ;
                        assert(((z - 1) * g + (y - 1)) * g <= voxel_index(
                            x - 1,
                            y - 1,
                            z - 1,
                            g as int,
                        ));
                    }
                    let at: usize = ((z - 1) * g + (y - 1)) * g + (x - 1);
                    let mut cell = cells[at];
                    cell.insert(n as i32);
                    cells.set(at, cell);
                    proof {
                        target = at as int;
                    }
                }
                proof {
                    assert forall|idx: int| 0 <= idx < total implies (#[trigger] cells@[idx]).holds(
                        reaching(
                            seeds@,
                            g as int,
                            idx,
                            settled(seeds@, g as int, idx, n as nat, k + 1),
                        ),
                    ) by {
                        assert(cells@[idx] == if idx == target {
                            cells@[target]
                        } else {
                            before[idx]
                        });
                        lemma_scan_step_at(
                            seeds@,
                            g as int,
                            n as nat,
                            k as int,
                            idx,
                            before[idx],
                            cells@[idx],
                        );
                    }
                }
                k = k + 1;
            }
            proof {
                assert forall|idx: int| 0 <= idx < total implies (#[trigger] cells@[idx]).holds(
                    reaching(seeds@, g as int, idx, (n + 1) as nat),
                ) by {
                    lemma_scan_done(seeds@, g as int, n as nat, idx);
                }
            }
            n = n + 1;
        }
        SpatialGrid { cells, grid_size }
    }
}

/// `c` where it names a voxel along an axis of `g` voxels, else the nearest
/// coordinate that does.
fn confine(c: i32, g: u32) -> (inside: usize)
    requires
        g > 0,
    ensures
        inside == clamp_axis(c as int, g as int),
        inside < g,
{
    if c < 0 {
        0
    } else if c as u32 >= g {
        (g - 1) as usize
    } else {
        c as usize
    }
}

} // verus!
