//! The density and pressure pass.
//!
//! For each particle, the kernel-weighted masses of the particles in the
//! 3 x 3 block of grid cells centered on its own cell are summed into a
//! density estimate (the smoothing kernel has compact support, so the block
//! is a conservative superset of the true neighborhood), and the pressure is
//! derived from the density by a clamped linear equation of state.

use vstd::prelude::*;

verus! {

use crate::fixed::{fx_add, fx_sub, fx_mul, fx_div, fx_len, clamp_i, add_fx, sub_fx, mul_fx,
    div_fx, len_fx, clamp_fx, SCALE};
use crate::resources::{Particle, GridParams, SimParams, LAYER_AIR};

/// Quadratic smoothing kernel with compact support radius h: weight
/// (1 - r/h)^2 for r < h, zero beyond.
pub open spec fn spec_kernel(r: int, h: int) -> int {
    if r < h {
        fx_mul(fx_sub(SCALE as int, fx_div(r, h)), fx_sub(SCALE as int, fx_div(r, h)))
    } else {
        0
    }
}

/// Distance between two particles of the buffer.
pub open spec fn spec_pair_dist(parts: Seq<Particle>, i: int, j: int) -> int {
    fx_len(
        fx_sub(parts[j].pos_x as int, parts[i].pos_x as int),
        fx_sub(parts[j].pos_y as int, parts[i].pos_y as int),
    )
}

/// Exec counterpart of [`spec_kernel`].
pub fn kernel_w(r: i64, h: i64) -> (w: i64)
    ensures
        w as int == spec_kernel(r as int, h as int),
{
    if r < h {
        let t = sub_fx(SCALE, div_fx(r, h));
        mul_fx(t, t)
    } else {
        0
    }
}

/// Density accumulated over the sorted slots [k0, k1): each slot's particle
/// contributes its mass weighted by the kernel of its distance to particle i.
pub open spec fn density_over_range(
    parts: Seq<Particle>,
    sorted: Seq<usize>,
    i: int,
    k0: int,
    k1: int,
    h: int,
    acc: int,
) -> int
    decreases k1 - k0,
{
    if k0 >= k1 {
        acc
    } else {
        let j = sorted[k0] as int;
        let term = if 0 <= k0 < sorted.len() && 0 <= j < parts.len() {
            fx_mul(parts[j].mass as int, spec_kernel(spec_pair_dist(parts, i, j), h))
        } else {
            0
        };
        density_over_range(parts, sorted, i, k0 + 1, k1, h, fx_add(acc, term))
    }
}

/// Density accumulated over the 3 x 3 block of cells centered on (cx, cy),
/// visited row by row from the step-th cell on; cells outside the grid are
/// skipped, and each existing cell contributes its sorted range.
pub open spec fn density_over_cells(
    parts: Seq<Particle>,
    sorted: Seq<usize>,
    offsets: Seq<usize>,
    g: GridParams,
    i: int,
    cx: int,
    cy: int,
    step: int,
    h: int,
    acc: int,
) -> int
    decreases 9 - step,
{
    if step < 0 || step >= 9 {
        acc
    } else {
        let nx = cx + step % 3 - 1;
        let ny = cy + step / 3 - 1;
        let acc2 = if 0 <= nx < g.grid_width && 0 <= ny < g.grid_height {
            let c = nx + ny * g.grid_width;
            density_over_range(parts, sorted, i, offsets[c] as int, offsets[c + 1] as int, h, acc)
        } else {
            acc
        };
        density_over_cells(parts, sorted, offsets, g, i, cx, cy, step + 1, h, acc2)
    }
}

/// The density of particle i: its cell's 3 x 3 neighborhood folded in
/// traversal order, starting from zero.
pub open spec fn spec_density(
    parts: Seq<Particle>,
    sorted: Seq<usize>,
    offsets: Seq<usize>,
    g: GridParams,
    i: int,
    h: int,
) -> int {
    let cell = parts[i].cell_id as int;
    density_over_cells(
        parts,
        sorted,
        offsets,
        g,
        i,
        cell % (g.grid_width as int),
        cell / (g.grid_width as int),
        0,
        h,
        0,
    )
}

/// The target density of a particle's material: air has its own, every
/// other material uses the water target (solid pressures are computed
/// uniformly and suppressed elsewhere).
pub open spec fn spec_target_density(p: Particle, params: SimParams) -> int {
    if p.layer_mask == LAYER_AIR {
        params.target_density_air as int
    } else {
        params.target_density_water as int
    }
}

/// Equation of state: pressure = stiffness * (density / target - 1), clamped
/// into [0, pressure_cap].
pub open spec fn spec_pressure(density: int, target: int, stiffness: int, cap: int) -> int {
    clamp_i(fx_mul(stiffness, fx_sub(fx_div(density, target), SCALE as int)), 0, cap)
}

/// Density contributions of one cell's sorted range, folded onto acc.
fn density_range(
    particles: &Vec<Particle>,
    sorted: &Vec<usize>,
    i: usize,
    px: i64,
    py: i64,
    k0: usize,
    k1: usize,
    h: i64,
    acc: i64,
) -> (r: i64)
    requires
        sorted@.len() <= particles@.len(),
        k0 <= k1 <= sorted@.len(),
        forall|k: int| 0 <= k < sorted@.len() ==> (#[trigger] sorted@[k]) < particles@.len(),
        i < particles@.len(),
        px == particles@[i as int].pos_x,
        py == particles@[i as int].pos_y,
    ensures
        r as int == density_over_range(
            particles@,
            sorted@,
            i as int,
            k0 as int,
            k1 as int,
            h as int,
            acc as int,
        ),
{
    let mut k = k0;
    let mut a = acc;
    while k < k1
        invariant
            k0 <= k <= k1 <= sorted@.len(),
            sorted@.len() <= particles@.len(),
            forall|kk: int| 0 <= kk < sorted@.len() ==> (#[trigger] sorted@[kk]) < particles@.len(),
            i < particles@.len(),
            px == particles@[i as int].pos_x,
            py == particles@[i as int].pos_y,
            density_over_range(
                particles@,
                sorted@,
                i as int,
                k as int,
                k1 as int,
                h as int,
                a as int,
            ) == density_over_range(
                particles@,
                sorted@,
                i as int,
                k0 as int,
                k1 as int,
                h as int,
                acc as int,
            ),
        decreases k1 - k,
    {
        let j = sorted[k];
        let pj = particles[j];
        let d = len_fx(sub_fx(pj.pos_x, px), sub_fx(pj.pos_y, py));
        let w = kernel_w(d, h);
        a = add_fx(a, mul_fx(pj.mass, w));
        k = k + 1;
    }
    a
}

/// The density and pressure pass: recompute every particle's density from
/// its 3 x 3 cell neighborhood and derive its pressure by the equation of
/// state. Positions, velocities, masses, layers and cell ids are untouched.
pub fn compute_density_pressure(
    particles: &mut Vec<Particle>,
    sorted: &Vec<usize>,
    offsets: &Vec<usize>,
    g: &GridParams,
    params: &SimParams,
    stiffness: i64,
    pressure_cap: i64,
)
    requires
        g.wf(),
        params.wf(),
        0 < pressure_cap,
        sorted@.len() == old(particles)@.len(),
        offsets@.len() == g.cell_count() + 1,
        forall|k: int| 0 <= k < sorted@.len() ==> (#[trigger] sorted@[k]) < old(particles)@.len(),
        forall|i: int| 0 <= i < old(particles)@.len() ==> (#[trigger] old(particles)@[i]).wf(),
        forall|i: int|
            0 <= i < old(particles)@.len() ==> (#[trigger] old(particles)@[i]).cell_id
                < g.cell_count(),
        forall|c: int| 0 <= c < offsets@.len() - 1 ==> #[trigger] offsets@[c] <= offsets@[c + 1],
        offsets@[offsets@.len() - 1] <= sorted@.len(),
    ensures
        final(particles)@.len() == old(particles)@.len(),
        forall|i: int|
            0 <= i < old(particles)@.len() ==> #[trigger] final(particles)@[i] == (Particle {
                density: spec_density(
                    old(particles)@,
                    sorted@,
                    offsets@,
                    *g,
                    i,
                    params.smoothing_radius as int,
                ) as i64,
                pressure: spec_pressure(
                    spec_density(
                        old(particles)@,
                        sorted@,
                        offsets@,
                        *g,
                        i,
                        params.smoothing_radius as int,
                    ),
                    spec_target_density(old(particles)@[i], *params),
                    stiffness as int,
                    pressure_cap as int,
                ) as i64,
                ..old(particles)@[i]
            }),
{
    let n = particles.len();
    let ghost orig = particles@;
    let h = params.smoothing_radius;
    let mut i: usize = 0;
    while i < n
        invariant
            particles@.len() == n,
            orig.len() == n,
            g.wf(),
            params.wf(),
            h == params.smoothing_radius,
            0 < pressure_cap,
            sorted@.len() == n,
            offsets@.len() == g.cell_count() + 1,
            forall|k: int| 0 <= k < sorted@.len() ==> (#[trigger] sorted@[k]) < n,
            forall|j: int| 0 <= j < n ==> (#[trigger] orig[j]).wf(),
            forall|j: int| 0 <= j < n ==> (#[trigger] orig[j]).cell_id < g.cell_count(),
            forall|c: int|
                0 <= c < offsets@.len() - 1 ==> #[trigger] offsets@[c] <= offsets@[c + 1],
            offsets@[offsets@.len() - 1] <= sorted@.len(),
            i <= n,
            forall|j: int| i <= j < n ==> #[trigger] particles@[j] == orig[j],
            forall|j: int|
                0 <= j < i ==> #[trigger] particles@[j] == (Particle {
                    density: spec_density(orig, sorted@, offsets@, *g, j, h as int) as i64,
                    pressure: spec_pressure(
                        spec_density(orig, sorted@, offsets@, *g, j, h as int),
                        spec_target_density(orig[j], *params),
                        stiffness as int,
                        pressure_cap as int,
                    ) as i64,
                    ..orig[j]
                }),
        decreases n - i,
    {
        let p = particles[i];
        let cell = p.cell_id;
        let cx = cell % g.grid_width;
        let cy = cell / g.grid_width;
        proof {
            assert(cy < g.grid_height) by (nonlinear_arith)
                requires
                    cell < g.grid_width * g.grid_height,
                    cy == cell as int / g.grid_width as int,
                    g.grid_width > 0,
                    g.grid_height > 0,
            ;
        }
        let mut acc: i64 = 0;
        let mut step: usize = 0;
        while step < 9
            invariant
                particles@.len() == n,
                sorted@.len() == n,
                offsets@.len() == g.cell_count() + 1,
                g.wf(),
                forall|k: int| 0 <= k < sorted@.len() ==> (#[trigger] sorted@[k]) < n,
                forall|c: int|
                    0 <= c < offsets@.len() - 1 ==> #[trigger] offsets@[c] <= offsets@[c + 1],
                offsets@[offsets@.len() - 1] <= sorted@.len(),
                i < n,
                cx < g.grid_width,
                cy < g.grid_height,
                p == particles@[i as int],
                step <= 9,
                density_over_cells(
                    particles@,
                    sorted@,
                    offsets@,
                    *g,
                    i as int,
                    cx as int,
                    cy as int,
                    step as int,
                    h as int,
                    acc as int,
                ) == density_over_cells(
                    particles@,
                    sorted@,
                    offsets@,
                    *g,
                    i as int,
                    cx as int,
                    cy as int,
                    0,
                    h as int,
                    0,
                ),
            decreases 9 - step,
        {
            let in_x = cx + step % 3 >= 1 && cx + step % 3 <= g.grid_width;
            let in_y = cy + step / 3 >= 1 && cy + step / 3 <= g.grid_height;
            if in_x && in_y {
                let nx = cx + step % 3 - 1;
                let ny = cy + step / 3 - 1;
                proof {
                    assert(nx + ny * g.grid_width < g.cell_count()) by (nonlinear_arith)
                        requires
                            nx < g.grid_width,
                            ny < g.grid_height,
                            g.cell_count() == g.grid_width * g.grid_height,
                            g.grid_width <= 0xffff,
                            g.grid_height <= 0xffff,
                    ;
                    assert(g.cell_count() <= 0xffff * 0xffff) by (nonlinear_arith)
                        requires
                            g.grid_width <= 0xffff,
                            g.grid_height <= 0xffff,
                            g.cell_count() == g.grid_width * g.grid_height,
                    ;
                }
                let c = nx + ny * g.grid_width;
                let k0 = offsets[c];
                let k1 = offsets[c + 1];
                proof {
                    lemma_offsets_bounded(offsets@, c as int, sorted@.len() as int);
                }
                acc = density_range(particles, sorted, i, p.pos_x, p.pos_y, k0, k1, h, acc);
            }
            step = step + 1;
        }
        let target = if p.layer_mask == LAYER_AIR {
            params.target_density_air
        } else {
            params.target_density_water
        };
        let raw = mul_fx(stiffness, sub_fx(div_fx(acc, target), SCALE));
        let pressure = clamp_fx(raw, 0, pressure_cap);
        proof {
            lemma_density_frame(orig, particles@, sorted@, offsets@, *g, i as int, h as int);
            assert(acc as int == spec_density(orig, sorted@, offsets@, *g, i as int, h as int));
        }
        particles.set(i, Particle { density: acc, pressure, ..p });
        i = i + 1;
    }
}

/// Adjacent offsets are ordered, so every cell's range fits the sorted array.
pub proof fn lemma_offsets_bounded(offsets: Seq<usize>, c: int, n: int)
    requires
        0 <= c < offsets.len() - 1,
        forall|cc: int| 0 <= cc < offsets.len() - 1 ==> #[trigger] offsets[cc] <= offsets[cc + 1],
        offsets[offsets.len() - 1] <= n,
    ensures
        offsets[c] <= offsets[c + 1],
        offsets[c + 1] <= n,
    decreases offsets.len() - c,
{
    if c + 1 < offsets.len() - 1 {
        lemma_offsets_bounded(offsets, c + 1, n);
    }
}

/// The density of particle i depends only on positions, masses and cell
/// structure, none of which the pass changes; updating densities and
/// pressures of other particles leaves it unchanged.
proof fn lemma_density_frame(
    orig: Seq<Particle>,
    cur: Seq<Particle>,
    sorted: Seq<usize>,
    offsets: Seq<usize>,
    g: GridParams,
    i: int,
    h: int,
)
    requires
        orig.len() == cur.len(),
        0 <= i < orig.len(),
        forall|j: int|
            0 <= j < orig.len() ==> (#[trigger] cur[j]).pos_x == orig[j].pos_x && cur[j].pos_y
                == orig[j].pos_y && cur[j].mass == orig[j].mass && cur[j].cell_id
                == orig[j].cell_id,
    ensures
        spec_density(cur, sorted, offsets, g, i, h) == spec_density(orig, sorted, offsets, g, i, h),
{
    lemma_density_cells_frame(orig, cur, sorted, offsets, g, i, cur[i].cell_id as int % (
    g.grid_width as int), cur[i].cell_id as int / (g.grid_width as int), 0, h, 0);
}

/// Frame lemma for the cell-block fold.
proof fn lemma_density_cells_frame(
    orig: Seq<Particle>,
    cur: Seq<Particle>,
    sorted: Seq<usize>,
    offsets: Seq<usize>,
    g: GridParams,
    i: int,
    cx: int,
    cy: int,
    step: int,
    h: int,
    acc: int,
)
    requires
        orig.len() == cur.len(),
        0 <= i < orig.len(),
        forall|j: int|
            0 <= j < orig.len() ==> (#[trigger] cur[j]).pos_x == orig[j].pos_x && cur[j].pos_y
                == orig[j].pos_y && cur[j].mass == orig[j].mass && cur[j].cell_id
                == orig[j].cell_id,
    ensures
        density_over_cells(cur, sorted, offsets, g, i, cx, cy, step, h, acc) == density_over_cells(
            orig,
            sorted,
            offsets,
            g,
            i,
            cx,
            cy,
            step,
            h,
            acc,
        ),
    decreases 9 - step,
{
    if 0 <= step < 9 {
        let nx = cx + step % 3 - 1;
        let ny = cy + step / 3 - 1;
        let acc2 = if 0 <= nx < g.grid_width && 0 <= ny < g.grid_height {
            let c = nx + ny * g.grid_width;
            density_over_range(cur, sorted, i, offsets[c] as int, offsets[c + 1] as int, h, acc)
        } else {
            acc
        };
        if 0 <= nx < g.grid_width && 0 <= ny < g.grid_height {
            let c = nx + ny * g.grid_width;
            lemma_density_range_frame(
                orig,
                cur,
                sorted,
                i,
                offsets[c] as int,
                offsets[c + 1] as int,
                h,
                acc,
            );
        }
        lemma_density_cells_frame(orig, cur, sorted, offsets, g, i, cx, cy, step + 1, h, acc2);
    }
}

/// Frame lemma for the in-cell fold.
proof fn lemma_density_range_frame(
    orig: Seq<Particle>,
    cur: Seq<Particle>,
    sorted: Seq<usize>,
    i: int,
    k0: int,
    k1: int,
    h: int,
    acc: int,
)
    requires
        orig.len() == cur.len(),
        0 <= i < orig.len(),
        forall|j: int|
            0 <= j < orig.len() ==> (#[trigger] cur[j]).pos_x == orig[j].pos_x && cur[j].pos_y
                == orig[j].pos_y && cur[j].mass == orig[j].mass && cur[j].cell_id
                == orig[j].cell_id,
    ensures
        density_over_range(cur, sorted, i, k0, k1, h, acc) == density_over_range(
            orig,
            sorted,
            i,
            k0,
            k1,
            h,
            acc,
        ),
    decreases k1 - k0,
{
    if k0 < k1 {
        let j = sorted[k0] as int;
        let term = if 0 <= k0 < sorted.len() && 0 <= j < cur.len() {
            fx_mul(cur[j].mass as int, spec_kernel(spec_pair_dist(cur, i, j), h))
        } else {
            0
        };
        lemma_density_range_frame(orig, cur, sorted, i, k0 + 1, k1, h, fx_add(acc, term));
    }
}

} // verus!
