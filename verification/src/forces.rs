//! The force evaluator.
//!
//! Reusing the counting-sort neighbor traversal, each particle gathers from
//! its 3 x 3 cell block: a pressure-gradient force and a viscosity force
//! from same-material fluid neighbors, a table-driven central repulsion from
//! every neighbor within the configured pair radius, and the XSPH
//! velocity-smoothing correction, whose effect the integrator applies.
//! Gathered totals are added into the particle's slot of the shared force
//! accumulator; the XSPH buffer is rewritten each frame.

use vstd::prelude::*;

verus! {

use crate::fixed::{fx_add, fx_sub, fx_mul, fx_div, add_fx, sub_fx, mul_fx, div_fx, len_fx, SCALE};
use crate::resources::{Particle, GridParams, SimParams, Vec2, LAYER_WATER, LAYER_AIR};
use crate::physics_config::{InteractionTable, InteractionProfile, MaterialType, RAMP_LINEAR,
    RAMP_QUADRATIC, MATERIAL_COUNT, spec_from_layer_mask};
use crate::density::spec_pair_dist;

/// Half, in fixed-point: multiplying by it averages two scalars.
pub const HALF: i64 = 5_000;

/// Linear kernel falloff with compact support: 1 - r/h for r < h, else zero.
pub open spec fn spec_kernel_lin(r: int, h: int) -> int {
    if r < h {
        fx_sub(SCALE as int, fx_div(r, h))
    } else {
        0
    }
}

/// Exec counterpart of [`spec_kernel_lin`].
fn kernel_lin(r: i64, h: i64) -> (w: i64)
    ensures
        w as int == spec_kernel_lin(r as int, h as int),
{
    if r < h {
        sub_fx(SCALE, div_fx(r, h))
    } else {
        0
    }
}

/// Whether two particles are fluid particles of the same material, so the
/// SPH pressure, viscosity and XSPH terms apply between them.
pub open spec fn spec_same_fluid(a: Particle, b: Particle) -> bool {
    a.layer_mask == b.layer_mask && (a.layer_mask == LAYER_WATER || a.layer_mask == LAYER_AIR)
}

/// The interaction profile of the ordered material pair named by two layer
/// masks; a malformed table yields the inert profile.
pub open spec fn spec_profile(table: InteractionTable, mask_a: u32, mask_b: u32) -> InteractionProfile {
    if table.profiles@.len() == MATERIAL_COUNT * MATERIAL_COUNT {
        table.profiles@[InteractionTable::spec_index(
            spec_from_layer_mask(mask_a),
            spec_from_layer_mask(mask_b),
        )]
    } else {
        InteractionProfile { repulsion_strength: 0, repulsion_radius: 0, repulsion_ramp: RAMP_QUADRATIC }
    }
}

/// The force a neighbor j exerts on particle i, x and y components.
///
/// Same-material fluid pairs add a pressure term (mean pressure times
/// neighbor mass over neighbor density, with the linear kernel, along the
/// j-to-i axis) and a viscosity term (relative velocity scaled by viscosity,
/// neighbor mass over density and the kernel). Every pair within its
/// profile's radius adds the central repulsion strength * ramp(1 - r/r0).
/// A degenerate pair (i = j, an index out of range, zero distance for the
/// directed terms, zero density for the SPH terms) contributes zero through
/// the total fixed-point operations.
pub open spec fn spec_pair_force(
    parts: Seq<Particle>,
    i: int,
    j: int,
    h: int,
    visc: int,
    table: InteractionTable,
) -> (int, int) {
    if i == j || !(0 <= i < parts.len()) || !(0 <= j < parts.len()) {
        (0, 0)
    } else {
        let pi = parts[i];
        let pj = parts[j];
        let r = spec_pair_dist(parts, i, j);
        let ux = fx_div(fx_sub(pi.pos_x as int, pj.pos_x as int), r);
        let uy = fx_div(fx_sub(pi.pos_y as int, pj.pos_y as int), r);
        let w1 = spec_kernel_lin(r, h);
        let press_mag = if spec_same_fluid(pi, pj) {
            fx_mul(
                fx_mul(
                    fx_mul(fx_add(pi.pressure as int, pj.pressure as int), HALF as int),
                    fx_div(pj.mass as int, pj.density as int),
                ),
                w1,
            )
        } else {
            0
        };
        let visc_c = if spec_same_fluid(pi, pj) {
            fx_mul(visc, fx_mul(fx_div(pj.mass as int, pj.density as int), w1))
        } else {
            0
        };
        let prof = spec_profile(table, pi.layer_mask, pj.layer_mask);
        let rep_mag = if r < prof.repulsion_radius && prof.repulsion_strength > 0 {
            fx_mul(
                prof.repulsion_strength as int,
                if prof.repulsion_ramp == RAMP_LINEAR {
                    fx_sub(SCALE as int, fx_div(r, prof.repulsion_radius as int))
                } else {
                    fx_mul(
                        fx_sub(SCALE as int, fx_div(r, prof.repulsion_radius as int)),
                        fx_sub(SCALE as int, fx_div(r, prof.repulsion_radius as int)),
                    )
                },
            )
        } else {
            0
        };
        (
            fx_add(
                fx_add(
                    fx_mul(press_mag, ux),
                    fx_mul(visc_c, fx_sub(pj.vel_x as int, pi.vel_x as int)),
                ),
                fx_mul(rep_mag, ux),
            ),
            fx_add(
                fx_add(
                    fx_mul(press_mag, uy),
                    fx_mul(visc_c, fx_sub(pj.vel_y as int, pi.vel_y as int)),
                ),
                fx_mul(rep_mag, uy),
            ),
        )
    }
}

/// The XSPH velocity-smoothing contribution of neighbor j to particle i:
/// the relative velocity weighted by neighbor mass over density and the
/// linear kernel, for same-material fluid pairs; zero otherwise.
pub open spec fn spec_pair_xsph(parts: Seq<Particle>, i: int, j: int, h: int) -> (int, int) {
    if i == j || !(0 <= i < parts.len()) || !(0 <= j < parts.len()) || !spec_same_fluid(
        parts[i],
        parts[j],
    ) {
        (0, 0)
    } else {
        let pi = parts[i];
        let pj = parts[j];
        let r = spec_pair_dist(parts, i, j);
        let c = fx_mul(fx_div(pj.mass as int, pj.density as int), spec_kernel_lin(r, h));
        (
            fx_mul(c, fx_sub(pj.vel_x as int, pi.vel_x as int)),
            fx_mul(c, fx_sub(pj.vel_y as int, pi.vel_y as int)),
        )
    }
}

/// Force and XSPH totals gathered over the sorted slots [k0, k1), folded
/// onto the accumulator (force x, force y, xsph x, xsph y).
pub open spec fn gather_over_range(
    parts: Seq<Particle>,
    sorted: Seq<usize>,
    i: int,
    k0: int,
    k1: int,
    h: int,
    visc: int,
    table: InteractionTable,
    acc: (int, int, int, int),
) -> (int, int, int, int)
    decreases k1 - k0,
{
    if k0 >= k1 {
        acc
    } else {
        let j = sorted[k0] as int;
        let acc2 = if 0 <= k0 < sorted.len() {
            let pf = spec_pair_force(parts, i, j, h, visc, table);
            let px = spec_pair_xsph(parts, i, j, h);
            (
                fx_add(acc.0, pf.0),
                fx_add(acc.1, pf.1),
                fx_add(acc.2, px.0),
                fx_add(acc.3, px.1),
            )
        } else {
            acc
        };
        gather_over_range(parts, sorted, i, k0 + 1, k1, h, visc, table, acc2)
    }
}

/// Force and XSPH totals gathered over the 3 x 3 cell block centered on
/// (cx, cy), from the step-th cell on; cells outside the grid are skipped.
pub open spec fn gather_over_cells(
    parts: Seq<Particle>,
    sorted: Seq<usize>,
    offsets: Seq<usize>,
    g: GridParams,
    i: int,
    cx: int,
    cy: int,
    step: int,
    h: int,
    visc: int,
    table: InteractionTable,
    acc: (int, int, int, int),
) -> (int, int, int, int)
    decreases 9 - step,
{
    if step < 0 || step >= 9 {
        acc
    } else {
        let nx = cx + step % 3 - 1;
        let ny = cy + step / 3 - 1;
        let acc2 = if 0 <= nx < g.grid_width && 0 <= ny < g.grid_height {
            let c = nx + ny * g.grid_width;
            gather_over_range(
                parts,
                sorted,
                i,
                offsets[c] as int,
                offsets[c + 1] as int,
                h,
                visc,
                table,
                acc,
            )
        } else {
            acc
        };
        gather_over_cells(parts, sorted, offsets, g, i, cx, cy, step + 1, h, visc, table, acc2)
    }
}

/// The gathered force and XSPH totals of particle i over its whole
/// neighborhood, starting from zero.
pub open spec fn spec_gather(
    parts: Seq<Particle>,
    sorted: Seq<usize>,
    offsets: Seq<usize>,
    g: GridParams,
    i: int,
    h: int,
    visc: int,
    table: InteractionTable,
) -> (int, int, int, int) {
    let cell = parts[i].cell_id as int;
    gather_over_cells(
        parts,
        sorted,
        offsets,
        g,
        i,
        cell % (g.grid_width as int),
        cell / (g.grid_width as int),
        0,
        h,
        visc,
        table,
        (0, 0, 0, 0),
    )
}

/// Exec evaluation of one neighbor pair: the force on i from j and the XSPH
/// contribution of j to i.
fn pair_terms(
    particles: &Vec<Particle>,
    i: usize,
    j: usize,
    h: i64,
    visc: i64,
    table: &InteractionTable,
) -> (r: (i64, i64, i64, i64))
    requires
        i < particles@.len(),
        j < particles@.len(),
        table.profiles@.len() == MATERIAL_COUNT * MATERIAL_COUNT,
    ensures
        (r.0 as int, r.1 as int) == spec_pair_force(
            particles@,
            i as int,
            j as int,
            h as int,
            visc as int,
            *table,
        ),
        (r.2 as int, r.3 as int) == spec_pair_xsph(particles@, i as int, j as int, h as int),
{
    if i == j {
        return (0, 0, 0, 0);
    }
    let pi = particles[i];
    let pj = particles[j];
    let r = len_fx(sub_fx(pj.pos_x, pi.pos_x), sub_fx(pj.pos_y, pi.pos_y));
    let ux = div_fx(sub_fx(pi.pos_x, pj.pos_x), r);
    let uy = div_fx(sub_fx(pi.pos_y, pj.pos_y), r);
    let w1 = kernel_lin(r, h);
    let same_fluid = pi.layer_mask == pj.layer_mask && (pi.layer_mask == LAYER_WATER
        || pi.layer_mask == LAYER_AIR);
    let press_mag = if same_fluid {
        mul_fx(
            mul_fx(mul_fx(add_fx(pi.pressure, pj.pressure), HALF), div_fx(pj.mass, pj.density)),
            w1,
        )
    } else {
        0
    };
    let visc_c = if same_fluid {
        mul_fx(visc, mul_fx(div_fx(pj.mass, pj.density), w1))
    } else {
        0
    };
    let mat_i = MaterialType::from_layer_mask(pi.layer_mask);
    let mat_j = MaterialType::from_layer_mask(pj.layer_mask);
    let prof = *table.get(mat_i, mat_j);
    let rep_mag = if r < prof.repulsion_radius && prof.repulsion_strength > 0 {
        let t = sub_fx(SCALE, div_fx(r, prof.repulsion_radius));
        let ramp = if prof.repulsion_ramp == RAMP_LINEAR {
            t
        } else {
            mul_fx(t, t)
        };
        mul_fx(prof.repulsion_strength, ramp)
    } else {
        0
    };
    let fx = add_fx(
        add_fx(mul_fx(press_mag, ux), mul_fx(visc_c, sub_fx(pj.vel_x, pi.vel_x))),
        mul_fx(rep_mag, ux),
    );
    let fy = add_fx(
        add_fx(mul_fx(press_mag, uy), mul_fx(visc_c, sub_fx(pj.vel_y, pi.vel_y))),
        mul_fx(rep_mag, uy),
    );
    let (xx, xy) = if same_fluid {
        let c = mul_fx(div_fx(pj.mass, pj.density), w1);
        (mul_fx(c, sub_fx(pj.vel_x, pi.vel_x)), mul_fx(c, sub_fx(pj.vel_y, pi.vel_y)))
    } else {
        (0i64, 0i64)
    };
    (fx, fy, xx, xy)
}

/// Totals of one cell's sorted range, folded onto the accumulator.
fn gather_range(
    particles: &Vec<Particle>,
    sorted: &Vec<usize>,
    i: usize,
    k0: usize,
    k1: usize,
    h: i64,
    visc: i64,
    table: &InteractionTable,
    acc: (i64, i64, i64, i64),
) -> (r: (i64, i64, i64, i64))
    requires
        k0 <= k1 <= sorted@.len(),
        forall|k: int| 0 <= k < sorted@.len() ==> (#[trigger] sorted@[k]) < particles@.len(),
        i < particles@.len(),
        table.profiles@.len() == MATERIAL_COUNT * MATERIAL_COUNT,
    ensures
        (r.0 as int, r.1 as int, r.2 as int, r.3 as int) == gather_over_range(
            particles@,
            sorted@,
            i as int,
            k0 as int,
            k1 as int,
            h as int,
            visc as int,
            *table,
            (acc.0 as int, acc.1 as int, acc.2 as int, acc.3 as int),
        ),
{
    let mut k = k0;
    let mut a = acc;
    while k < k1
        invariant
            k0 <= k <= k1 <= sorted@.len(),
            forall|kk: int| 0 <= kk < sorted@.len() ==> (#[trigger] sorted@[kk]) < particles@.len(),
            i < particles@.len(),
            table.profiles@.len() == MATERIAL_COUNT * MATERIAL_COUNT,
            gather_over_range(
                particles@,
                sorted@,
                i as int,
                k as int,
                k1 as int,
                h as int,
                visc as int,
                *table,
                (a.0 as int, a.1 as int, a.2 as int, a.3 as int),
            ) == gather_over_range(
                particles@,
                sorted@,
                i as int,
                k0 as int,
                k1 as int,
                h as int,
                visc as int,
                *table,
                (acc.0 as int, acc.1 as int, acc.2 as int, acc.3 as int),
            ),
        decreases k1 - k,
    {
        let j = sorted[k];
        let t = pair_terms(particles, i, j, h, visc, table);
        a = (add_fx(a.0, t.0), add_fx(a.1, t.1), add_fx(a.2, t.2), add_fx(a.3, t.3));
        k = k + 1;
    }
    a
}

/// The force pass: gather every particle's SPH, repulsion and XSPH totals
/// from its 3 x 3 cell neighborhood; add the force total into the shared
/// accumulator slot and rewrite the XSPH buffer. Particles are read only.
#[verifier::rlimit(80)]
pub fn compute_forces(
    particles: &Vec<Particle>,
    sorted: &Vec<usize>,
    offsets: &Vec<usize>,
    g: &GridParams,
    params: &SimParams,
    table: &InteractionTable,
    forces: &mut Vec<Vec2>,
    xsph: &mut Vec<Vec2>,
)
    requires
        g.wf(),
        params.wf(),
        table.wf(),
        sorted@.len() == particles@.len(),
        offsets@.len() == g.cell_count() + 1,
        old(forces)@.len() == particles@.len(),
        old(xsph)@.len() == particles@.len(),
        forall|k: int| 0 <= k < sorted@.len() ==> (#[trigger] sorted@[k]) < particles@.len(),
        forall|i: int|
            0 <= i < particles@.len() ==> (#[trigger] particles@[i]).cell_id < g.cell_count(),
        forall|c: int| 0 <= c < offsets@.len() - 1 ==> #[trigger] offsets@[c] <= offsets@[c + 1],
        offsets@[offsets@.len() - 1] <= sorted@.len(),
    ensures
        final(forces)@.len() == particles@.len(),
        final(xsph)@.len() == particles@.len(),
        forall|i: int|
            #![trigger final(forces)@[i]]
            0 <= i < particles@.len() ==> {
                let t = spec_gather(
                    particles@,
                    sorted@,
                    offsets@,
                    *g,
                    i,
                    params.smoothing_radius as int,
                    table.sph_viscosity as int,
                    *table,
                );
                final(forces)@[i] == (Vec2 {
                    x: fx_add(old(forces)@[i].x as int, t.0) as i64,
                    y: fx_add(old(forces)@[i].y as int, t.1) as i64,
                }) && final(xsph)@[i] == (Vec2 { x: t.2 as i64, y: t.3 as i64 })
            },
{
    let n = particles.len();
    let ghost forces0 = forces@;
    let h = params.smoothing_radius;
    let visc = table.sph_viscosity;
    let mut i: usize = 0;
    while i < n
        invariant
            particles@.len() == n,
            sorted@.len() == n,
            offsets@.len() == g.cell_count() + 1,
            forces@.len() == n,
            forces0.len() == n,
            xsph@.len() == n,
            g.wf(),
            params.wf(),
            table.wf(),
            h == params.smoothing_radius,
            visc == table.sph_viscosity,
            forall|k: int| 0 <= k < sorted@.len() ==> (#[trigger] sorted@[k]) < n,
            forall|j: int| 0 <= j < n ==> (#[trigger] particles@[j]).cell_id < g.cell_count(),
            forall|c: int|
                0 <= c < offsets@.len() - 1 ==> #[trigger] offsets@[c] <= offsets@[c + 1],
            offsets@[offsets@.len() - 1] <= sorted@.len(),
            i <= n,
            forall|j: int| i <= j < n ==> #[trigger] forces@[j] == forces0[j],
            forall|j: int|
                #![trigger forces@[j]]
                0 <= j < i ==> {
                    let t = spec_gather(
                        particles@,
                        sorted@,
                        offsets@,
                        *g,
                        j,
                        h as int,
                        visc as int,
                        *table,
                    );
                    forces@[j] == (Vec2 {
                        x: fx_add(forces0[j].x as int, t.0) as i64,
                        y: fx_add(forces0[j].y as int, t.1) as i64,
                    }) && xsph@[j] == (Vec2 { x: t.2 as i64, y: t.3 as i64 })
                },
        decreases n - i,
    {
        let p = particles[i];
        let cell = p.cell_id;
        let cx = cell % g.grid_width;
        let cy = cell / g.grid_width;
        proof {
            assert(cy < g.grid_height) by (nonlinear_arith)
                requires
                    cell < g.grid_width * g.grid_height,
                    cy == cell as int / g.grid_width as int,
                    g.grid_width > 0,
                    g.grid_height > 0,
            ;
        }
        let mut acc: (i64, i64, i64, i64) = (0, 0, 0, 0);
        let mut step: usize = 0;
        while step < 9
            invariant
                particles@.len() == n,
                sorted@.len() == n,
                offsets@.len() == g.cell_count() + 1,
                g.wf(),
                table.wf(),
                forall|k: int| 0 <= k < sorted@.len() ==> (#[trigger] sorted@[k]) < n,
                forall|c: int|
                    0 <= c < offsets@.len() - 1 ==> #[trigger] offsets@[c] <= offsets@[c + 1],
                offsets@[offsets@.len() - 1] <= sorted@.len(),
                i < n,
                cx < g.grid_width,
                cy < g.grid_height,
                step <= 9,
                gather_over_cells(
                    particles@,
                    sorted@,
                    offsets@,
                    *g,
                    i as int,
                    cx as int,
                    cy as int,
                    step as int,
                    h as int,
                    visc as int,
                    *table,
                    (acc.0 as int, acc.1 as int, acc.2 as int, acc.3 as int),
                ) == gather_over_cells(
                    particles@,
                    sorted@,
                    offsets@,
                    *g,
                    i as int,
                    cx as int,
                    cy as int,
                    0,
                    h as int,
                    visc as int,
                    *table,
                    (0, 0, 0, 0),
                ),
            decreases 9 - step,
        {
            let in_x = cx + step % 3 >= 1 && cx + step % 3 <= g.grid_width;
            let in_y = cy + step / 3 >= 1 && cy + step / 3 <= g.grid_height;
            if in_x && in_y {
                let nx = cx + step % 3 - 1;
                let ny = cy + step / 3 - 1;
                proof {
                    assert(nx + ny * g.grid_width < g.cell_count()) by (nonlinear_arith)
                        requires
                            nx < g.grid_width,
                            ny < g.grid_height,
                            g.cell_count() == g.grid_width * g.grid_height,
                            g.grid_width <= 0xffff,
                            g.grid_height <= 0xffff,
                    ;
                    assert(g.cell_count() <= 0xffff * 0xffff) by (nonlinear_arith)
                        requires
                            g.grid_width <= 0xffff,
                            g.grid_height <= 0xffff,
                            g.cell_count() == g.grid_width * g.grid_height,
                    ;
                }
                let c = nx + ny * g.grid_width;
                let k0 = offsets[c];
                let k1 = offsets[c + 1];
                proof {
                    crate::density::lemma_offsets_bounded(offsets@, c as int, sorted@.len() as int);
                }
                acc = gather_range(particles, sorted, i, k0, k1, h, visc, table, acc);
            }
            step = step + 1;
        }
        let fi = forces[i];
        forces.set(i, Vec2 { x: add_fx(fi.x, acc.0), y: add_fx(fi.y, acc.1) });
        xsph.set(i, Vec2 { x: acc.2, y: acc.3 });
        i = i + 1;
    }
}

} // verus!
