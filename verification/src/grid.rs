//! Spatial hashing and the counting-sort neighbor index.
//!
//! Each frame the particles are hashed to grid cells, counted per cell,
//! prefix-summed into `[start, end)` offsets, and scattered into a sorted
//! index permutation, so that all particles of one cell stand contiguously
//! in the permutation and a neighbor query touches one cell range at a time.

use vstd::prelude::*;

verus! {

use crate::fixed::fx_ok;
use crate::resources::{Particle, GridParams};

/// Cell coordinate along one axis: the floor of (pos - origin) / cell_size,
/// clamped into [0, count), so an out-of-bounds position maps to a boundary
/// cell instead of indexing out of range.
pub open spec fn spec_axis_cell(pos: int, origin: int, cell_size: int, count: int) -> int
    recommends
        cell_size > 0,
        count > 0,
{
    if pos < origin {
        0
    } else if (pos - origin) / cell_size >= count {
        count - 1
    } else {
        (pos - origin) / cell_size
    }
}

/// Grid cell id of a particle: column plus row times grid width.
pub open spec fn spec_cell_id(p: Particle, g: GridParams) -> int {
    spec_axis_cell(p.pos_x as int, g.grid_origin_x as int, g.cell_size as int, g.grid_width as int)
        + spec_axis_cell(
        p.pos_y as int,
        g.grid_origin_y as int,
        g.cell_size as int,
        g.grid_height as int,
    ) * g.grid_width
}

/// The cell id of a well-formed particle lies in the grid.
pub proof fn lemma_cell_id_in_range(p: Particle, g: GridParams)
    requires
        g.wf(),
    ensures
        0 <= spec_cell_id(p, g) < g.cell_count(),
{
    let cx = spec_axis_cell(
        p.pos_x as int,
        g.grid_origin_x as int,
        g.cell_size as int,
        g.grid_width as int,
    );
    let cy = spec_axis_cell(
        p.pos_y as int,
        g.grid_origin_y as int,
        g.cell_size as int,
        g.grid_height as int,
    );
    assert(0 <= cx < g.grid_width) by {
        if p.pos_x as int >= g.grid_origin_x as int {
            vstd::arithmetic::div_mod::lemma_div_pos_is_pos(
                p.pos_x as int - g.grid_origin_x as int,
                g.cell_size as int,
            );
        }
    }
    assert(0 <= cy < g.grid_height) by {
        if p.pos_y as int >= g.grid_origin_y as int {
            vstd::arithmetic::div_mod::lemma_div_pos_is_pos(
                p.pos_y as int - g.grid_origin_y as int,
                g.cell_size as int,
            );
        }
    }
    assert(cx + cy * g.grid_width < g.cell_count()) by (nonlinear_arith)
        requires
            0 <= cx < g.grid_width,
            0 <= cy < g.grid_height,
            g.cell_count() == g.grid_width * g.grid_height,
    ;
    assert(0 <= cx + cy * g.grid_width) by (nonlinear_arith)
        requires
            0 <= cx,
            0 <= cy,
            g.grid_width >= 0,
    ;
}

/// Exec counterpart of [`spec_axis_cell`].
fn axis_cell(pos: i64, origin: i64, cell_size: i64, count: usize) -> (c: usize)
    requires
        fx_ok(pos as int),
        fx_ok(origin as int),
        cell_size > 0,
        0 < count <= 0xffff,
    ensures
        c as int == spec_axis_cell(pos as int, origin as int, cell_size as int, count as int),
        c < count,
{
    if pos < origin {
        0
    } else {
        let d: u64 = (pos - origin) as u64;
        let q: u64 = d / (cell_size as u64);
        if q >= count as u64 {
            count - 1
        } else {
            q as usize
        }
    }
}

/// Assign every particle its grid cell id from its position. Runs
/// independently per particle; nothing else of the particle changes.
pub fn compute_cell_ids(particles: &mut Vec<Particle>, g: &GridParams)
    requires
        g.wf(),
        forall|i: int| 0 <= i < old(particles)@.len() ==> (#[trigger] old(particles)@[i]).wf(),
    ensures
        final(particles)@.len() == old(particles)@.len(),
        forall|i: int|
            0 <= i < old(particles)@.len() ==> #[trigger] final(particles)@[i] == (Particle {
                cell_id: spec_cell_id(old(particles)@[i], *g) as usize,
                ..old(particles)@[i]
            }),
        forall|i: int|
            0 <= i < final(particles)@.len() ==> (#[trigger] final(particles)@[i]).wf()
                && final(particles)@[i].cell_id < g.cell_count(),
{
    let n = particles.len();
    let ghost orig = particles@;
    let mut i: usize = 0;
    while i < n
        invariant
            particles@.len() == n,
            orig.len() == n,
            g.wf(),
            forall|j: int| 0 <= j < n ==> (#[trigger] orig[j]).wf(),
            forall|j: int| i <= j < n ==> #[trigger] particles@[j] == orig[j],
            forall|j: int|
                0 <= j < i ==> #[trigger] particles@[j] == (Particle {
                    cell_id: spec_cell_id(orig[j], *g) as usize,
                    ..orig[j]
                }),
        decreases n - i,
    {
        let p = particles[i];
        proof {
            lemma_cell_id_in_range(p, *g);
        }
        let cx = axis_cell(p.pos_x, g.grid_origin_x, g.cell_size, g.grid_width);
        let cy = axis_cell(p.pos_y, g.grid_origin_y, g.cell_size, g.grid_height);
        proof {
            assert(cx + cy * g.grid_width < 0x1_0000_0000) by (nonlinear_arith)
                requires
                    cx < g.grid_width,
                    cy < g.grid_height,
                    g.grid_width <= 0xffff,
                    g.grid_height <= 0xffff,
            ;
        }
        let cell = cx + cy * g.grid_width;
        particles.set(i, Particle { cell_id: cell, ..p });
        i = i + 1;
    }
    proof {
        assert forall|j: int| 0 <= j < particles@.len() implies (#[trigger] particles@[j]).wf()
            && particles@[j].cell_id < g.cell_count() by {
            lemma_cell_id_in_range(orig[j], *g);
        }
    }
}

/// Number of particles of the sequence whose cell id is c.
pub open spec fn count_in_cell(s: Seq<Particle>, c: int) -> int
    decreases s.len(),
{
    if s.len() == 0 {
        0
    } else {
        count_in_cell(s.drop_last(), c) + if s.last().cell_id == c {
            1int
        } else {
            0int
        }
    }
}

/// A cell's count never exceeds the sequence length.
pub proof fn lemma_count_in_cell_le_len(s: Seq<Particle>, c: int)
    ensures
        0 <= count_in_cell(s, c) <= s.len(),
    decreases s.len(),
{
    if s.len() > 0 {
        lemma_count_in_cell_le_len(s.drop_last(), c);
    }
}

/// Taking one more particle raises exactly the count of that particle's cell.
proof fn lemma_count_take_step(s: Seq<Particle>, i: int, c: int)
    requires
        0 <= i < s.len(),
    ensures
        count_in_cell(s.take(i + 1), c) == count_in_cell(s.take(i), c) + if s[i].cell_id == c {
            1int
        } else {
            0int
        },
{
    assert(s.take(i + 1).drop_last() =~= s.take(i));
    assert(s.take(i + 1).last() == s[i]);
}

/// Count the particles of every cell.
pub fn count_cells(particles: &Vec<Particle>, n_cells: usize) -> (counts: Vec<usize>)
    requires
        forall|i: int|
            0 <= i < particles@.len() ==> (#[trigger] particles@[i]).cell_id < n_cells,
    ensures
        counts@.len() == n_cells,
        forall|c: int| 0 <= c < n_cells ==> #[trigger] counts@[c] == count_in_cell(particles@, c),
{
    let n = particles.len();
    let mut counts: Vec<usize> = Vec::new();
    let mut z: usize = 0;
    while z < n_cells
        invariant
            counts@.len() == z <= n_cells,
            forall|c: int| 0 <= c < z ==> #[trigger] counts@[c] == 0,
        decreases n_cells - z,
    {
        counts.push(0);
        z = z + 1;
    }
    proof {
        assert forall|c: int| 0 <= c < n_cells implies #[trigger] counts@[c] == count_in_cell(
            particles@.take(0),
            c,
        ) by {
            assert(particles@.take(0).len() == 0);
        }
    }
    let mut i: usize = 0;
    while i < n
        invariant
            particles@.len() == n,
            counts@.len() == n_cells,
            i <= n,
            forall|j: int| 0 <= j < n ==> (#[trigger] particles@[j]).cell_id < n_cells,
            forall|c: int|
                0 <= c < n_cells ==> #[trigger] counts@[c] == count_in_cell(
                    particles@.take(i as int),
                    c,
                ),
        decreases n - i,
    {
        let cell = particles[i].cell_id;
        proof {
            lemma_count_in_cell_le_len(particles@.take(i as int), cell as int);
            assert(particles@.take(i as int).len() == i);
        }
        let v = counts[cell];
        counts.set(cell, v + 1);
        proof {
            assert forall|c: int| 0 <= c < n_cells implies #[trigger] counts@[c] == count_in_cell(
                particles@.take(i + 1),
                c,
            ) by {
                lemma_count_take_step(particles@, i as int, c);
            }
        }
        i = i + 1;
    }
    proof {
        assert(particles@.take(n as int) =~= particles@);
    }
    counts
}

/// Sum of the first i cell counts.
pub open spec fn spec_psum(counts: Seq<usize>, i: int) -> int
    decreases i,
{
    if i <= 0 {
        0
    } else {
        spec_psum(counts, i - 1) + counts[i - 1]
    }
}

/// Partial sums grow with i.
pub proof fn lemma_psum_monotone(counts: Seq<usize>, i: int, j: int)
    requires
        0 <= i <= j <= counts.len(),
    ensures
        spec_psum(counts, i) <= spec_psum(counts, j),
    decreases j - i,
{
    if i < j {
        lemma_psum_monotone(counts, i, j - 1);
    }
}

/// Exclusive prefix sum over the per-cell counts: `offsets[c]` is the sum of
/// all counts before c, and the sentinel `offsets[len]` is the total.
pub fn prefix_sum(counts: &Vec<usize>) -> (offsets: Vec<usize>)
    requires
        spec_psum(counts@, counts@.len() as int) <= usize::MAX,
    ensures
        offsets@.len() == counts@.len() + 1,
        forall|i: int| 0 <= i <= counts@.len() ==> #[trigger] offsets@[i] == spec_psum(counts@, i),
{
    let n_cells = counts.len();
    let mut offsets: Vec<usize> = Vec::new();
    offsets.push(0);
    let mut c: usize = 0;
    let mut acc: usize = 0;
    while c < n_cells
        invariant
            counts@.len() == n_cells,
            c <= n_cells,
            offsets@.len() == c + 1,
            acc == spec_psum(counts@, c as int),
            spec_psum(counts@, n_cells as int) <= usize::MAX,
            forall|i: int| 0 <= i <= c ==> #[trigger] offsets@[i] == spec_psum(counts@, i),
        decreases n_cells - c,
    {
        proof {
            lemma_psum_monotone(counts@, c + 1, n_cells as int);
        }
        acc = acc + counts[c];
        offsets.push(acc);
        c = c + 1;
    }
    offsets
}

/// The exclusive prefix sum is a function of the counts alone: two offset
/// arrays that both satisfy its contract over the same counts are equal.
/// Re-running the prefix sum after the scatter pass therefore restores
/// exactly the offsets that the first run produced.
pub proof fn lemma_prefix_sum_deterministic(counts: Seq<usize>, o1: Seq<usize>, o2: Seq<usize>)
    requires
        o1.len() == counts.len() + 1,
        o2.len() == counts.len() + 1,
        forall|i: int| 0 <= i <= counts.len() ==> #[trigger] o1[i] == spec_psum(counts, i),
        forall|i: int| 0 <= i <= counts.len() ==> #[trigger] o2[i] == spec_psum(counts, i),
    ensures
        o1 == o2,
{
    assert(o1 =~= o2);
}

/// Sum over all cells below m of the per-cell counts.
pub open spec fn sum_counts_below(s: Seq<Particle>, m: int) -> int
    decreases m,
{
    if m <= 0 {
        0
    } else {
        sum_counts_below(s, m - 1) + count_in_cell(s, m - 1)
    }
}

/// An empty sequence has zero particles in every prefix of cells.
proof fn lemma_sum_counts_empty(s: Seq<Particle>, m: int)
    requires
        s.len() == 0,
    ensures
        sum_counts_below(s, m) == 0,
    decreases m,
{
    if m > 0 {
        lemma_sum_counts_empty(s, m - 1);
    }
}

/// Dropping the last particle lowers the total by one when its cell is below m.
proof fn lemma_sum_counts_drop_last(s: Seq<Particle>, m: int)
    requires
        s.len() > 0,
    ensures
        sum_counts_below(s, m) == sum_counts_below(s.drop_last(), m) + if 0 <= s.last().cell_id
            < m {
            1int
        } else {
            0int
        },
    decreases m,
{
    if m > 0 {
        lemma_sum_counts_drop_last(s, m - 1);
    }
}

/// The per-cell counts of a sequence whose cell ids all lie below m sum to
/// the sequence's length: the cells partition the particles.
pub proof fn lemma_counts_partition(s: Seq<Particle>, m: int)
    requires
        forall|i: int| 0 <= i < s.len() ==> 0 <= (#[trigger] s[i]).cell_id < m,
    ensures
        sum_counts_below(s, m) == s.len(),
    decreases s.len(),
{
    if s.len() == 0 {
        lemma_sum_counts_empty(s, m);
    } else {
        assert(forall|i: int|
            0 <= i < s.drop_last().len() ==> 0 <= (#[trigger] s.drop_last()[i]).cell_id < m);
        lemma_counts_partition(s.drop_last(), m);
        lemma_sum_counts_drop_last(s, m);
        assert(s.last() == s[s.len() - 1]);
        assert(0 <= s.last().cell_id < m);
    }
}

/// Totals over a prefix of cells grow with the prefix.
pub proof fn lemma_sum_counts_monotone(s: Seq<Particle>, a: int, b: int)
    requires
        0 <= a <= b,
    ensures
        sum_counts_below(s, a) <= sum_counts_below(s, b),
    decreases b - a,
{
    if a < b {
        lemma_sum_counts_monotone(s, a, b - 1);
        lemma_count_in_cell_le_len(s, b - 1);
    }
}

/// A prefix of the particles holds at most as many members of a cell as a
/// longer prefix.
proof fn lemma_count_take_monotone(s: Seq<Particle>, a: int, b: int, c: int)
    requires
        0 <= a <= b <= s.len(),
    ensures
        count_in_cell(s.take(a), c) <= count_in_cell(s.take(b), c),
    decreases b - a,
{
    if a < b {
        lemma_count_take_monotone(s, a, b - 1, c);
        lemma_count_take_step(s, b - 1, c);
    }
}

/// The partial sum over counts that equal a sequence's per-cell counts is the
/// sum of that sequence's counts below i.
pub proof fn lemma_psum_is_sum_counts(counts: Seq<usize>, s: Seq<Particle>, i: int)
    requires
        0 <= i <= counts.len(),
        forall|c: int| 0 <= c < counts.len() ==> #[trigger] counts[c] == count_in_cell(s, c),
    ensures
        spec_psum(counts, i) == sum_counts_below(s, i),
    decreases i,
{
    if i > 0 {
        lemma_psum_is_sum_counts(counts, s, i - 1);
    }
}

/// The write cursor of particle i's cell, after the first i particles have
/// been scattered, names a slot outside every cell's already-written range.
proof fn lemma_cursor_slot_fresh(s: Seq<Particle>, i: int, c: int, k: int)
    requires
        0 <= i < s.len(),
        0 <= c,
        sum_counts_below(s, c) <= k < sum_counts_below(s, c) + count_in_cell(s.take(i), c),
    ensures
        k != sum_counts_below(s, s[i].cell_id as int) + count_in_cell(
            s.take(i),
            s[i].cell_id as int,
        ),
{
    let cell = s[i].cell_id as int;
    let slot = sum_counts_below(s, cell) + count_in_cell(s.take(i), cell);
    assert(s.take(s.len() as int) =~= s);
    if c < cell {
        lemma_count_take_monotone(s, i, s.len() as int, c);
        lemma_sum_counts_monotone(s, c + 1, cell);
        lemma_count_in_cell_le_len(s.take(i), cell);
        assert(k < sum_counts_below(s, c) + count_in_cell(s, c));
        assert(sum_counts_below(s, c + 1) == sum_counts_below(s, c) + count_in_cell(s, c));
        assert(k < sum_counts_below(s, cell) <= slot);
    } else if c > cell {
        lemma_count_take_step(s, i, cell);
        lemma_count_take_monotone(s, i + 1, s.len() as int, cell);
        lemma_sum_counts_monotone(s, cell + 1, c);
        assert(count_in_cell(s.take(i), cell) + 1 <= count_in_cell(s, cell));
        assert(slot < sum_counts_below(s, cell) + count_in_cell(s, cell));
        assert(sum_counts_below(s, cell + 1) == sum_counts_below(s, cell) + count_in_cell(
            s,
            cell,
        ));
        assert(slot < sum_counts_below(s, c) <= k);
    }
}

/// Scatter pass: place every particle index into the sorted permutation at
/// its cell's running write cursor. The cursors start as the exclusive
/// prefix sums of the per-cell counts and are consumed up to each cell's end
/// offset, so the prefix sum must be re-run identically afterwards to
/// restore the `[start, end)` ranges for neighbor queries.
///
/// The contract characterizes the permutation completely: every slot of a
/// cell's range names a particle of that cell, slots of one cell hold
/// strictly increasing (hence distinct) particle indices, and every particle
/// index appears in its own cell's range.
pub fn scatter(particles: &Vec<Particle>, cursors: &mut Vec<usize>) -> (sorted: Vec<usize>)
    requires
        old(cursors)@.len() >= 1,
        forall|i: int|
            0 <= i < particles@.len() ==> (#[trigger] particles@[i]).cell_id < old(
                cursors,
            )@.len() - 1,
        forall|c: int|
            0 <= c < old(cursors)@.len() ==> #[trigger] old(cursors)@[c] as int
                == sum_counts_below(particles@, c),
    ensures
        sorted@.len() == particles@.len(),
        final(cursors)@.len() == old(cursors)@.len(),
        forall|c: int|
            0 <= c < old(cursors)@.len() - 1 ==> #[trigger] final(cursors)@[c] as int
                == sum_counts_below(particles@, c + 1),
        final(cursors)@[old(cursors)@.len() - 1] == old(cursors)@[old(cursors)@.len() - 1],
        forall|c: int, k: int|
            #![trigger sum_counts_below(particles@, c), sorted@[k]]
            0 <= c < old(cursors)@.len() - 1 && sum_counts_below(particles@, c) <= k
                < sum_counts_below(particles@, c + 1) ==> sorted@[k] < particles@.len()
                && particles@[sorted@[k] as int].cell_id == c,
        forall|c: int, k1: int, k2: int|
            #![trigger sum_counts_below(particles@, c), sorted@[k1], sorted@[k2]]
            0 <= c < old(cursors)@.len() - 1 && sum_counts_below(particles@, c) <= k1 < k2
                < sum_counts_below(particles@, c + 1) ==> sorted@[k1] < sorted@[k2],
        forall|j: int|
            0 <= j < particles@.len() ==> exists|k: int|
                #![trigger sorted@[k]]
                sum_counts_below(particles@, (#[trigger] particles@[j]).cell_id as int) <= k
                    < sum_counts_below(particles@, particles@[j].cell_id + 1) && sorted@[k] == j,
{
    let n = particles.len();
    let m = cursors.len() - 1;
    let ghost s = particles@;
    proof {
        lemma_counts_partition(s, m as int);
    }
    let mut sorted: Vec<usize> = Vec::new();
    let mut z: usize = 0;
    while z < n
        invariant
            sorted@.len() == z <= n,
        decreases n - z,
    {
        sorted.push(0);
        z = z + 1;
    }
    let mut i: usize = 0;
    while i < n
        invariant
            particles@ == s,
            s.len() == n,
            cursors@.len() == m + 1,
            sorted@.len() == n,
            i <= n,
            forall|j: int| 0 <= j < n ==> (#[trigger] s[j]).cell_id < m,
            sum_counts_below(s, m as int) == n,
            forall|c: int|
                0 <= c < m ==> #[trigger] cursors@[c] as int == sum_counts_below(s, c)
                    + count_in_cell(s.take(i as int), c),
            cursors@[m as int] as int == sum_counts_below(s, m as int),
            forall|c: int, k: int|
                #![trigger sum_counts_below(s, c), sorted@[k]]
                0 <= c < m && sum_counts_below(s, c) <= k < cursors@[c] ==> sorted@[k] < i
                    && s[sorted@[k] as int].cell_id == c,
            forall|c: int, k1: int, k2: int|
                #![trigger sum_counts_below(s, c), sorted@[k1], sorted@[k2]]
                0 <= c < m && sum_counts_below(s, c) <= k1 < k2 < cursors@[c] ==> sorted@[k1]
                    < sorted@[k2],
            forall|j: int|
                0 <= j < i ==> exists|k: int|
                    #![trigger sorted@[k]]
                    sum_counts_below(s, (#[trigger] s[j]).cell_id as int) <= k < cursors@[s[j].cell_id as int] && sorted@[k] == j,
        decreases n - i,
    {
        let ghost cur0 = cursors@;
        let ghost sort0 = sorted@;
        let cell = particles[i].cell_id;
        let slot = cursors[cell];
        proof {
            // The slot stays below this cell's end offset, which stays below n.
            lemma_count_take_step(s, i as int, cell as int);
            lemma_count_take_monotone(s, i as int + 1, n as int, cell as int);
            assert(s.take(n as int) =~= s);
            lemma_sum_counts_monotone(s, cell as int + 1, m as int);
            assert(sum_counts_below(s, cell as int + 1) == sum_counts_below(s, cell as int)
                + count_in_cell(s, cell as int));
            assert(slot < n);
        }
        sorted.set(slot, i);
        cursors.set(cell, slot + 1);
        proof {
            assert forall|c: int|
                0 <= c < m implies #[trigger] cursors@[c] as int == sum_counts_below(s, c)
                + count_in_cell(s.take(i as int + 1), c) by {
                lemma_count_take_step(s, i as int, c);
            }
            // Slots written before this step are untouched: the new slot lies
            // outside every previously written range.
            assert forall|c: int, k: int|
                #![trigger sum_counts_below(s, c), sorted@[k]]
                0 <= c < m && sum_counts_below(s, c) <= k < cur0[c] implies sorted@[k] == sort0[k] by {
                lemma_cursor_slot_fresh(s, i as int, c, k);
                lemma_count_take_monotone(s, i as int, n as int, c);
                assert(s.take(n as int) =~= s);
                lemma_sum_counts_monotone(s, c + 1, m as int);
                lemma_sum_counts_monotone(s, 0, c);
                assert(sum_counts_below(s, c + 1) == sum_counts_below(s, c) + count_in_cell(s, c));
                assert(0 <= k < n);
            }
            assert forall|c: int, k: int|
                #![trigger sum_counts_below(s, c), sorted@[k]]
                0 <= c < m && sum_counts_below(s, c) <= k < cursors@[c] implies sorted@[k] < i + 1
                && s[sorted@[k] as int].cell_id == c by {
                if c == cell as int && k == slot as int {
                } else {
                    assert(k < cur0[c]);
                    lemma_cursor_slot_fresh(s, i as int, c, k);
                }
            }
            assert forall|c: int, k1: int, k2: int|
                #![trigger sum_counts_below(s, c), sorted@[k1], sorted@[k2]]
                0 <= c < m && sum_counts_below(s, c) <= k1 < k2 < cursors@[c] implies sorted@[k1]
                < sorted@[k2] by {
                lemma_cursor_slot_fresh(s, i as int, c, k1);
                assert(k1 < cur0[c]);
                if c == cell as int && k2 == slot as int {
                    assert(sorted@[k1] == sort0[k1]);
                    assert(sort0[k1] < i);
                } else {
                    assert(k2 < cur0[c]);
                    lemma_cursor_slot_fresh(s, i as int, c, k2);
                }
            }
            assert forall|j: int| 0 <= j < i + 1 implies exists|k: int|
                #![trigger sorted@[k]]
                sum_counts_below(s, (#[trigger] s[j]).cell_id as int) <= k < cursors@[s[j].cell_id as int] && sorted@[k] == j by {
                if j == i {
                    assert(sorted@[slot as int] == j);
                    lemma_count_in_cell_le_len(s.take(i as int), cell as int);
                    assert(sum_counts_below(s, s[j].cell_id as int) <= (slot as int) && (slot as int) < cursors@[s[j].cell_id as int]);
                } else {
                    let cj = s[j].cell_id as int;
                    assert(exists|k: int|
                        #![trigger sort0[k]]
                        sum_counts_below(s, cj) <= k < cur0[cj] && sort0[k] == j);
                    let k0 = choose|k: int|
                        #![trigger sort0[k]]
                        sum_counts_below(s, cj) <= k < cur0[cj] && sort0[k] == j;
                    lemma_cursor_slot_fresh(s, i as int, cj, k0);
                    assert(sorted@[k0] == j);
                    assert(cur0[cj] <= cursors@[cj]);
                }
            }
        }
        i = i + 1;
    }
    proof {
        assert(s.take(n as int) =~= s);
        assert forall|c: int|
            0 <= c < m implies #[trigger] cursors@[c] as int == sum_counts_below(s, c + 1) by {
            assert(cursors@[c] as int == sum_counts_below(s, c) + count_in_cell(s, c));
        }
    }
    sorted
}

/// Every slot below the total lies in exactly one cell's `[start, end)` range.
proof fn lemma_slot_has_cell(s: Seq<Particle>, m: int, k: int)
    requires
        1 <= m,
        0 <= k < sum_counts_below(s, m),
    ensures
        exists|c: int|
            0 <= c < m && (#[trigger] sum_counts_below(s, c)) <= k < sum_counts_below(s, c + 1),
    decreases m,
{
    if k >= sum_counts_below(s, m - 1) {
        assert(0 <= m - 1 < m && sum_counts_below(s, m - 1) <= k < sum_counts_below(s, m));
    } else {
        if m == 1 {
            lemma_sum_counts_monotone(s, 0, 0);
        } else {
            lemma_slot_has_cell(s, m - 1, k);
        }
    }
}

/// Counting-sort correctness, first half: the permutation that the scatter
/// pass produces is a permutation of the particle indices — every slot holds
/// a valid index, no index repeats, and every index appears.
pub proof fn lemma_sorted_is_permutation(s: Seq<Particle>, sorted: Seq<usize>, m: int)
    requires
        1 <= m,
        sorted.len() == s.len(),
        forall|i: int| 0 <= i < s.len() ==> (#[trigger] s[i]).cell_id < m,
        forall|c: int, k: int|
            #![trigger sum_counts_below(s, c), sorted[k]]
            0 <= c < m && sum_counts_below(s, c) <= k < sum_counts_below(s, c + 1) ==> sorted[k]
                < s.len() && s[sorted[k] as int].cell_id == c,
        forall|c: int, k1: int, k2: int|
            #![trigger sum_counts_below(s, c), sorted[k1], sorted[k2]]
            0 <= c < m && sum_counts_below(s, c) <= k1 < k2 < sum_counts_below(s, c + 1)
                ==> sorted[k1] < sorted[k2],
        forall|j: int|
            0 <= j < s.len() ==> exists|k: int|
                #![trigger sorted[k]]
                sum_counts_below(s, (#[trigger] s[j]).cell_id as int) <= k < sum_counts_below(
                    s,
                    s[j].cell_id + 1,
                ) && sorted[k] == j,
    ensures
        forall|k: int| 0 <= k < s.len() ==> #[trigger] sorted[k] < s.len(),
        forall|k1: int, k2: int|
            0 <= k1 < k2 < s.len() ==> #[trigger] sorted[k1] != #[trigger] sorted[k2],
        forall|j: int| 0 <= j < s.len() ==> #[trigger] sorted.contains(j as usize),
{
    lemma_counts_partition(s, m);
    assert forall|k: int| 0 <= k < s.len() implies #[trigger] sorted[k] < s.len() by {
        lemma_slot_has_cell(s, m, k);
    }
    assert forall|k1: int, k2: int|
        0 <= k1 < k2 < s.len() implies #[trigger] sorted[k1] != #[trigger] sorted[k2] by {
        lemma_slot_has_cell(s, m, k1);
        lemma_slot_has_cell(s, m, k2);
        let c1 = choose|c: int|
            0 <= c < m && (#[trigger] sum_counts_below(s, c)) <= k1 < sum_counts_below(s, c + 1);
        let c2 = choose|c: int|
            0 <= c < m && (#[trigger] sum_counts_below(s, c)) <= k2 < sum_counts_below(s, c + 1);
        if c1 == c2 {
            assert(sorted[k1] < sorted[k2]);
        } else {
            assert(s[sorted[k1] as int].cell_id == c1);
            assert(s[sorted[k2] as int].cell_id == c2);
        }
    }
    assert forall|j: int| 0 <= j < s.len() implies #[trigger] sorted.contains(j as usize) by {
        let cj = s[j].cell_id as int;
        let k0 = choose|k: int|
            #![trigger sorted[k]]
            sum_counts_below(s, cj) <= k < sum_counts_below(s, cj + 1) && sorted[k] == j;
        lemma_sum_counts_monotone(s, 0, cj);
        lemma_sum_counts_monotone(s, cj + 1, m);
        assert(0 <= k0 < s.len() && sorted[k0] == j as usize);
    }
}

/// Counting-sort correctness, second half: grouped by the recovered
/// `[start, end)` ranges, the permutation reproduces exactly the particles
/// of each cell — an index j stands in cell c's range if and only if
/// particle j lies in cell c. With the distinctness of
/// [`lemma_sorted_is_permutation`], each cell's range is exactly the
/// multiset of that cell's particle indices.
pub proof fn lemma_counting_sort_groups(s: Seq<Particle>, sorted: Seq<usize>, m: int)
    requires
        1 <= m,
        sorted.len() == s.len(),
        forall|i: int| 0 <= i < s.len() ==> (#[trigger] s[i]).cell_id < m,
        forall|c: int, k: int|
            #![trigger sum_counts_below(s, c), sorted[k]]
            0 <= c < m && sum_counts_below(s, c) <= k < sum_counts_below(s, c + 1) ==> sorted[k]
                < s.len() && s[sorted[k] as int].cell_id == c,
        forall|j: int|
            0 <= j < s.len() ==> exists|k: int|
                #![trigger sorted[k]]
                sum_counts_below(s, (#[trigger] s[j]).cell_id as int) <= k < sum_counts_below(
                    s,
                    s[j].cell_id + 1,
                ) && sorted[k] == j,
    ensures
        forall|c: int, j: int|
            #![trigger sum_counts_below(s, c), s[j]]
            0 <= c < m && 0 <= j < s.len() ==> ((s[j].cell_id == c) <==> exists|k: int|
                #![trigger sorted[k]]
                sum_counts_below(s, c) <= k < sum_counts_below(s, c + 1) && sorted[k] == j),
{
    assert forall|c: int, j: int|
        #![trigger sum_counts_below(s, c), s[j]]
        0 <= c < m && 0 <= j < s.len() implies ((s[j].cell_id == c) <==> exists|k: int|
        #![trigger sorted[k]]
        sum_counts_below(s, c) <= k < sum_counts_below(s, c + 1) && sorted[k] == j) by {
        if s[j].cell_id == c {
            let k0 = choose|k: int|
                #![trigger sorted[k]]
                sum_counts_below(s, s[j].cell_id as int) <= k < sum_counts_below(
                    s,
                    s[j].cell_id + 1,
                ) && sorted[k] == j;
            assert(sum_counts_below(s, c) <= k0 < sum_counts_below(s, c + 1) && sorted[k0] == j);
        }
        if exists|k: int|
            #![trigger sorted[k]]
            sum_counts_below(s, c) <= k < sum_counts_below(s, c + 1) && sorted[k] == j {
            let k0 = choose|k: int|
                #![trigger sorted[k]]
                sum_counts_below(s, c) <= k < sum_counts_below(s, c + 1) && sorted[k] == j;
            assert(s[sorted[k0] as int].cell_id == c);
        }
    }
}

} // verus!
