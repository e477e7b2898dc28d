//! Initial-condition generators.
//!
//! Each scenario populates the particle array once at startup: structured
//! grids for hull, mast, spar and sail, and randomly placed fluid particles
//! for water and wind. Randomness enters only through the thread-local
//! generator, behind trusted wrappers whose contracts bound every outcome.

use vstd::prelude::*;

verus! {

use crate::fixed::{fx_ok, SCALE};
use crate::resources::{Particle, new_mast_particle, new_sail_particle, LAYER_WATER, LAYER_AIR,
    LAYER_HULL, LAYER_SAIL, LAYER_MAST};
use vstd::arithmetic::mul::{lemma_mul_inequality, lemma_mul_nonnegative};

/// Bounding box of the structured part of a scenario (min x, max x, min y,
/// max y), used as a spawn exclusion zone for the fluid fill.
pub type HullBounds = Option<(i64, i64, i64, i64)>;

#[verifier::external_type_specification]
#[verifier::external_body]
/// The thread-local random generator of the rand crate, declared so its
/// handle can pass through verified code.
pub struct ExThreadRng(rand::rngs::ThreadRng);

/// Relies on rand::rng: a handle to the thread-local random generator.
/// Nothing is promised of it; every draw's contract bounds its own result.
#[verifier::external_body]
fn fresh_rng() -> rand::rngs::ThreadRng {
    rand::rng()
}

/// Relies on rand::RngExt::random_range over the half-open range lo..hi:
/// the drawn value lies in [lo, hi), and the range is nonempty, so the call
/// cannot panic.
#[verifier::external_body]
fn draw_range(rng: &mut rand::rngs::ThreadRng, lo: i64, hi: i64) -> (r: i64)
    requires
        lo < hi,
    ensures
        lo <= r < hi,
{
    rand::RngExt::random_range(rng, lo..hi)
}

/// Left edge of the water spawn region.
pub const WATER_SPAWN_X_MIN: i64 = -6_000_000;

/// Right edge of the water spawn region.
pub const WATER_SPAWN_X_MAX: i64 = 6_000_000;

/// Bottom edge of the water spawn region.
pub const WATER_SPAWN_Y_MIN: i64 = -3_400_000;

/// Top edge of the water spawn region.
pub const WATER_SPAWN_Y_MAX: i64 = 3_400_000;

/// Smallest initial water flow velocity, x component.
pub const WATER_FLOW_VX_MIN: i64 = 200_000;

/// Largest initial water flow velocity, x component.
pub const WATER_FLOW_VX_MAX: i64 = 500_000;

/// Smallest initial water flow velocity, y component.
pub const WATER_FLOW_VY_MIN: i64 = -100_000;

/// Largest initial water flow velocity, y component.
pub const WATER_FLOW_VY_MAX: i64 = 100_000;

/// Hull grid width (dry dock), in particles.
pub const DOCK_HULL_WIDTH: usize = 40;

/// Hull grid height (dry dock), in particles.
pub const DOCK_HULL_HEIGHT: usize = 10;

/// Hull particle spacing (dry dock).
pub const DOCK_HULL_SPACING: i64 = 50_000;

/// Bottom edge of the dry-dock hull grid.
pub const DOCK_HULL_START_Y: i64 = 1_000_000;

/// Mass of a dry-dock hull particle.
pub const DOCK_HULL_MASS: i64 = 80_000_000;

/// Append a rows x cols grid of particles: the particle at (row y, column
/// x) copies the template and stands at (start_x + x * spacing,
/// start_y + y * spacing), row-major after the existing contents.
pub fn push_grid(
    particles: &mut Vec<Particle>,
    start_x: i64,
    start_y: i64,
    cols: usize,
    rows: usize,
    spacing: i64,
    template: Particle,
)
    requires
        template.wf(),
        0 <= spacing,
        0 < cols <= 0xffff,
        0 < rows <= 0xffff,
        fx_ok(start_x as int),
        fx_ok(start_y as int),
        fx_ok(start_x + cols * spacing),
        fx_ok(start_y + rows * spacing),
        old(particles)@.len() + cols * rows <= usize::MAX,
    ensures
        final(particles)@.len() == old(particles)@.len() + rows * cols,
        forall|i: int|
            0 <= i < old(particles)@.len() ==> #[trigger] final(particles)@[i] == old(particles)@[i],
        forall|y: int, x: int|
            #![trigger final(particles)@[old(particles)@.len() + y * (cols as int) + x]]
            0 <= y < rows && 0 <= x < cols ==> final(particles)@[old(particles)@.len() + y * (
            cols as int) + x] == (Particle {
                pos_x: (start_x + x * spacing) as i64,
                pos_y: (start_y + y * spacing) as i64,
                ..template
            }),
        forall|i: int|
            old(particles)@.len() <= i < final(particles)@.len() ==> (#[trigger] final(particles)@[i]).wf(),
{
    let base = particles.len();
    let ghost orig = particles@;
    let mut y: usize = 0;
    while y < rows
        invariant
            template.wf(),
            0 <= spacing,
            0 < cols <= 0xffff,
            0 < rows <= 0xffff,
            fx_ok(start_x as int),
            fx_ok(start_y as int),
            fx_ok(start_x + cols * spacing),
            fx_ok(start_y + rows * spacing),
            orig.len() == base,
            base + cols * rows <= usize::MAX,
            y <= rows,
            particles@.len() == base + y * cols,
            forall|i: int| 0 <= i < base ==> #[trigger] particles@[i] == orig[i],
            forall|yy: int, xx: int|
                #![trigger particles@[base + yy * (cols as int) + xx]]
                0 <= yy < y && 0 <= xx < cols ==> particles@[base + yy * (cols as int) + xx] == (
                Particle {
                    pos_x: (start_x + xx * spacing) as i64,
                    pos_y: (start_y + yy * spacing) as i64,
                    ..template
                }),
        decreases rows - y,
    {
        proof {
            lemma_mul_inequality(y as int + 1, rows as int, cols as int);
            lemma_mul_nonnegative(y as int, cols as int);
            lemma_mul_inequality(y as int, rows as int, spacing as int);
            lemma_mul_nonnegative(y as int, spacing as int);
        }
        let py: i64 = start_y + (y as i64) * spacing;
        let mut x: usize = 0;
        while x < cols
            invariant
                template.wf(),
                0 <= spacing,
                0 < cols <= 0xffff,
                0 < rows <= 0xffff,
                fx_ok(start_x as int),
                fx_ok(start_y as int),
                fx_ok(start_x + cols * spacing),
                fx_ok(start_y + rows * spacing),
                orig.len() == base,
                base + cols * rows <= usize::MAX,
                y < rows,
                (y as int + 1) * cols <= rows * cols,
                py as int == start_y + y * spacing,
                fx_ok(py as int),
                x <= cols,
                particles@.len() == base + y * cols + x,
                forall|i: int| 0 <= i < base ==> #[trigger] particles@[i] == orig[i],
                forall|yy: int, xx: int|
                    #![trigger particles@[base + yy * (cols as int) + xx]]
                    (0 <= yy < y && 0 <= xx < cols) || (yy == y && 0 <= xx < x) ==> particles@[base
                        + yy * (cols as int) + xx] == (Particle {
                        pos_x: (start_x + xx * spacing) as i64,
                        pos_y: (start_y + yy * spacing) as i64,
                        ..template
                    }),
            decreases cols - x,
        {
            proof {
                lemma_mul_inequality(x as int, cols as int, spacing as int);
                lemma_mul_nonnegative(x as int, spacing as int);
                lemma_mul_nonnegative(y as int, cols as int);
            }
            let px: i64 = start_x + (x as i64) * spacing;
            particles.push(Particle { pos_x: px, pos_y: py, ..template });
            proof {
                assert forall|yy: int, xx: int|
                    (0 <= yy < y && 0 <= xx < cols) || (yy == y && 0 <= xx < x + 1)
                        implies #[trigger] particles@[base + yy * (cols as int) + xx] == (Particle {
                    pos_x: (start_x + xx * spacing) as i64,
                    pos_y: (start_y + yy * spacing) as i64,
                    ..template
                }) by {
                    lemma_mul_nonnegative(yy, cols as int);
                    if yy < y {
                        lemma_mul_inequality(yy + 1, y as int, cols as int);
                        assert((yy + 1) * (cols as int) == yy * (cols as int) + cols)
                            by (nonlinear_arith);
                        assert(base + yy * (cols as int) + xx < base + y * (cols as int) + x + 1);
                    }
                }
            }
            x = x + 1;
        }
        y = y + 1;
        proof {
            assert(y * cols == (y - 1) * cols + cols) by (nonlinear_arith);
        }
    }
    proof {
        assert forall|i: int|
            orig.len() <= i < particles@.len() implies (#[trigger] particles@[i]).wf() by {
            let yy = (i - orig.len()) / (cols as int);
            let xx = (i - orig.len()) % (cols as int);
            assert(i == orig.len() + yy * (cols as int) + xx) by (nonlinear_arith)
                requires
                    cols > 0,
                    yy == (i - orig.len()) / (cols as int),
                    xx == (i - orig.len()) % (cols as int),
            ;
            assert(0 <= yy < rows) by (nonlinear_arith)
                requires
                    cols > 0,
                    0 <= i - orig.len() < rows * (cols as int),
                    yy == (i - orig.len()) / (cols as int),
            ;
            assert(0 <= xx < cols);
            assert(0 <= xx * spacing <= (cols as int) * spacing) by {
                lemma_mul_inequality(xx, cols as int, spacing as int);
                lemma_mul_nonnegative(xx, spacing as int);
            }
            assert(0 <= yy * spacing <= (rows as int) * spacing) by {
                lemma_mul_inequality(yy, rows as int, spacing as int);
                lemma_mul_nonnegative(yy, spacing as int);
            }
        }
    }
}

/// What holds of every randomly placed water particle: well-formed, water
/// material and mass, position in the spawn region, velocity in the flow
/// range, and never strictly inside the exclusion box.
pub open spec fn spec_water_fill_ok(p: Particle, exclusion: HullBounds) -> bool {
    &&& p.wf()
    &&& p.layer_mask == LAYER_WATER
    &&& p.mass == 10 * SCALE
    &&& p.density == 0
    &&& p.pressure == 0
    &&& WATER_SPAWN_X_MIN <= p.pos_x < WATER_SPAWN_X_MAX
    &&& WATER_SPAWN_Y_MIN <= p.pos_y < WATER_SPAWN_Y_MAX
    &&& WATER_FLOW_VX_MIN <= p.vel_x < WATER_FLOW_VX_MAX
    &&& WATER_FLOW_VY_MIN <= p.vel_y < WATER_FLOW_VY_MAX
    &&& match exclusion {
        Some((bx0, bx1, by0, by1)) => !(bx0 < p.pos_x < bx1 && by0 < p.pos_y < by1),
        None => true,
    }
}

/// Fill the array with randomly placed water particles until it holds
/// target many. A position is drawn uniformly from the spawn region minus
/// the exclusion box: the row is drawn first, and where it crosses the box,
/// the column is drawn from the two remaining segments.
pub fn fill_water(
    particles: &mut Vec<Particle>,
    target: usize,
    exclusion: HullBounds,
    rng: &mut rand::rngs::ThreadRng,
)
    requires
        match exclusion {
            Some((bx0, bx1, by0, by1)) => WATER_SPAWN_X_MIN < bx0 && bx0 < bx1 && bx1
                < WATER_SPAWN_X_MAX,
            None => true,
        },
    ensures
        final(particles)@.len() == if old(particles)@.len() >= target {
            old(particles)@.len() as int
        } else {
            target as int
        },
        forall|i: int|
            0 <= i < old(particles)@.len() ==> #[trigger] final(particles)@[i] == old(particles)@[i],
        forall|i: int|
            old(particles)@.len() <= i < final(particles)@.len() ==> spec_water_fill_ok(
                #[trigger] final(particles)@[i],
                exclusion,
            ),
{
    let base = particles.len();
    let ghost orig = particles@;
    while particles.len() < target
        invariant
            orig.len() == base,
            particles@.len() >= base,
            particles@.len() <= if base >= target {
                base as int
            } else {
                target as int
            },
            match exclusion {
                Some((bx0, bx1, by0, by1)) => WATER_SPAWN_X_MIN < bx0 && bx0 < bx1 && bx1
                    < WATER_SPAWN_X_MAX,
                None => true,
            },
            forall|i: int| 0 <= i < base ==> #[trigger] particles@[i] == orig[i],
            forall|i: int|
                base <= i < particles@.len() ==> spec_water_fill_ok(
                    #[trigger] particles@[i],
                    exclusion,
                ),
        decreases target - particles@.len(),
    {
        let y = draw_range(rng, WATER_SPAWN_Y_MIN, WATER_SPAWN_Y_MAX);
        let x = match exclusion {
            Some((bx0, bx1, by0, by1)) => {
                if by0 < y && y < by1 {
                    let left_w = bx0 - WATER_SPAWN_X_MIN;
                    let right_w = WATER_SPAWN_X_MAX - bx1;
                    let t = draw_range(rng, 0, left_w + right_w);
                    if t < left_w {
                        WATER_SPAWN_X_MIN + t
                    } else {
                        bx1 + (t - left_w)
                    }
                } else {
                    draw_range(rng, WATER_SPAWN_X_MIN, WATER_SPAWN_X_MAX)
                }
            },
            None => draw_range(rng, WATER_SPAWN_X_MIN, WATER_SPAWN_X_MAX),
        };
        let vx = draw_range(rng, WATER_FLOW_VX_MIN, WATER_FLOW_VX_MAX);
        let vy = draw_range(rng, WATER_FLOW_VY_MIN, WATER_FLOW_VY_MAX);
        particles.push(Particle::new_water(x, y, vx, vy));
    }
}

/// What holds of every randomly placed air particle: well-formed, air
/// material with unit mass, position in the given box, and the given
/// uniform wind velocity.
pub open spec fn spec_air_fill_ok(
    p: Particle,
    x_lo: int,
    x_hi: int,
    y_lo: int,
    y_hi: int,
    vel_x: int,
) -> bool {
    &&& p.wf()
    &&& p.layer_mask == LAYER_AIR
    &&& p.mass == SCALE
    &&& p.density == 0
    &&& p.pressure == 0
    &&& x_lo <= p.pos_x < x_hi
    &&& y_lo <= p.pos_y < y_hi
    &&& p.vel_x == vel_x
    &&& p.vel_y == 0
}

/// Fill the array with randomly placed air particles, all blowing with the
/// same wind velocity, until it holds target many.
pub fn fill_air(
    particles: &mut Vec<Particle>,
    target: usize,
    x_lo: i64,
    x_hi: i64,
    y_lo: i64,
    y_hi: i64,
    vel_x: i64,
    rng: &mut rand::rngs::ThreadRng,
)
    requires
        x_lo < x_hi,
        y_lo < y_hi,
        fx_ok(x_lo as int),
        fx_ok(x_hi as int),
        fx_ok(y_lo as int),
        fx_ok(y_hi as int),
        fx_ok(vel_x as int),
    ensures
        final(particles)@.len() == if old(particles)@.len() >= target {
            old(particles)@.len() as int
        } else {
            target as int
        },
        forall|i: int|
            0 <= i < old(particles)@.len() ==> #[trigger] final(particles)@[i] == old(particles)@[i],
        forall|i: int|
            old(particles)@.len() <= i < final(particles)@.len() ==> spec_air_fill_ok(
                #[trigger] final(particles)@[i],
                x_lo as int,
                x_hi as int,
                y_lo as int,
                y_hi as int,
                vel_x as int,
            ),
{
    let base = particles.len();
    let ghost orig = particles@;
    while particles.len() < target
        invariant
            orig.len() == base,
            particles@.len() >= base,
            particles@.len() <= if base >= target {
                base as int
            } else {
                target as int
            },
            x_lo < x_hi,
            y_lo < y_hi,
            fx_ok(x_lo as int),
            fx_ok(x_hi as int),
            fx_ok(y_lo as int),
            fx_ok(y_hi as int),
            fx_ok(vel_x as int),
            forall|i: int| 0 <= i < base ==> #[trigger] particles@[i] == orig[i],
            forall|i: int|
                base <= i < particles@.len() ==> spec_air_fill_ok(
                    #[trigger] particles@[i],
                    x_lo as int,
                    x_hi as int,
                    y_lo as int,
                    y_hi as int,
                    vel_x as int,
                ),
        decreases target - particles@.len(),
    {
        let x = draw_range(rng, x_lo, x_hi);
        let y = draw_range(rng, y_lo, y_hi);
        particles.push(Particle::new_air(x, y, vel_x, 0));
    }
}

/// Pure water: no structures, the whole array randomly placed flowing
/// water. Good for tuning the SPH parameters alone.
pub fn scenario_water_only(particle_count: usize) -> (r: (Vec<Particle>, HullBounds))
    ensures
        r.0@.len() == particle_count,
        forall|i: int|
            0 <= i < r.0@.len() ==> spec_water_fill_ok(#[trigger] r.0@[i], None::<(i64, i64, i64, i64)>),
        forall|i: int| 0 <= i < r.0@.len() ==> (#[trigger] r.0@[i]).wf(),
        r.1 is None,
{
    let mut rng = fresh_rng();
    let mut particles: Vec<Particle> = Vec::new();
    fill_water(&mut particles, particle_count, None, &mut rng);
    (particles, None)
}

/// Dry dock: a rigid hull grid floating in randomly placed water. Tests
/// buoyancy and rigid-body behavior; water spawns outside the hull's box.
pub fn scenario_dry_dock(particle_count: usize) -> (r: (Vec<Particle>, HullBounds))
    ensures
        r.0@.len() == (if particle_count >= 400 {
            particle_count as int
        } else {
            400
        }),
        forall|y: int, x: int|
            #![trigger r.0@[y * 40 + x]]
            0 <= y < 10 && 0 <= x < 40 ==> r.0@[y * 40 + x] == (Particle {
                pos_x: (-1_000_000 + x * 50_000) as i64,
                pos_y: (1_000_000 + y * 50_000) as i64,
                vel_x: 0,
                vel_y: 0,
                mass: 80_000_000,
                density: 0,
                pressure: 0,
                z_height: 0,
                layer_mask: LAYER_HULL,
                cell_id: 0,
            }),
        forall|i: int|
            400 <= i < r.0@.len() ==> spec_water_fill_ok(
                #[trigger] r.0@[i],
                Some((-1_100_000i64, 1_100_000i64, 900_000i64, 1_600_000i64)),
            ),
        forall|i: int| 0 <= i < r.0@.len() ==> (#[trigger] r.0@[i]).wf(),
        r.1 == Some((-1_100_000i64, 1_100_000i64, 900_000i64, 1_600_000i64)),
{
    let mut rng = fresh_rng();
    let mut particles: Vec<Particle> = Vec::new();
    let hull = Particle {
        pos_x: 0,
        pos_y: 0,
        vel_x: 0,
        vel_y: 0,
        mass: DOCK_HULL_MASS,
        density: 0,
        pressure: 0,
        z_height: 0,
        layer_mask: LAYER_HULL,
        cell_id: 0,
    };
    push_grid(
        &mut particles,
        -1_000_000,
        DOCK_HULL_START_Y,
        DOCK_HULL_WIDTH,
        DOCK_HULL_HEIGHT,
        DOCK_HULL_SPACING,
        hull,
    );
    proof {
        assert forall|y: int, x: int|
            0 <= y < 10 && 0 <= x < 40 implies #[trigger] particles@[y * 40 + x] == (Particle {
            pos_x: (-1_000_000 + x * 50_000) as i64,
            pos_y: (1_000_000 + y * 50_000) as i64,
            ..hull
        }) by {
            assert(particles@[0 + y * 40 + x] == (Particle {
                pos_x: (-1_000_000 + x * 50_000) as i64,
                pos_y: (1_000_000 + y * 50_000) as i64,
                ..hull
            }));
        }
    }
    let bounds = (-1_100_000i64, 1_100_000i64, 900_000i64, 1_600_000i64);
    fill_water(&mut particles, particle_count, Some(bounds), &mut rng);
    (particles, Some(bounds))
}

/// Pressure washer: a dense static wall of hull particles blasted by wind
/// from the left.
pub fn scenario_pressure_washer(particle_count: usize) -> (r: (Vec<Particle>, HullBounds))
    ensures
        r.0@.len() == (if particle_count >= 60 {
            particle_count as int
        } else {
            60
        }),
        forall|y: int|
            #![trigger r.0@[y]]
            0 <= y < 60 ==> r.0@[y] == (Particle {
                pos_x: 1_000_000,
                pos_y: (-1_500_000 + y * 50_000) as i64,
                vel_x: 0,
                vel_y: 0,
                mass: 1_000_000_000,
                density: 0,
                pressure: 0,
                z_height: 0,
                layer_mask: LAYER_HULL,
                cell_id: 0,
            }),
        forall|i: int|
            60 <= i < r.0@.len() ==> spec_air_fill_ok(
                #[trigger] r.0@[i],
                -6_000_000,
                -2_000_000,
                -2_000_000,
                2_000_000,
                1_500_000,
            ),
        forall|i: int| 0 <= i < r.0@.len() ==> (#[trigger] r.0@[i]).wf(),
        r.1 is None,
{
    let mut rng = fresh_rng();
    let mut particles: Vec<Particle> = Vec::new();
    let wall = Particle {
        pos_x: 0,
        pos_y: 0,
        vel_x: 0,
        vel_y: 0,
        mass: 1_000_000_000,
        density: 0,
        pressure: 0,
        z_height: 0,
        layer_mask: LAYER_HULL,
        cell_id: 0,
    };
    push_grid(&mut particles, 1_000_000, -1_500_000, 1, 60, 50_000, wall);
    proof {
        assert forall|y: int| 0 <= y < 60 implies #[trigger] particles@[y] == (Particle {
            pos_x: 1_000_000,
            pos_y: (-1_500_000 + y * 50_000) as i64,
            ..wall
        }) by {
            assert(particles@[0 + y * 1 + 0] == (Particle {
                pos_x: (1_000_000 + 0 * 50_000) as i64,
                pos_y: (-1_500_000 + y * 50_000) as i64,
                ..wall
            }));
        }
    }
    fill_air(
        &mut particles,
        particle_count,
        -6_000_000,
        -2_000_000,
        -2_000_000,
        2_000_000,
        1_500_000,
        &mut rng,
    );
    (particles, None)
}

/// Hurricane (top-down view): an anchored hull with mast, spar and sail at
/// their own layer heights, in a high-speed wind from the left. Verifies
/// sail billow and mast fracture behavior.
pub fn scenario_hurricane(particle_count: usize) -> (r: (Vec<Particle>, HullBounds))
    ensures
        r.0@.len() == (if particle_count >= 149 {
            particle_count as int
        } else {
            149
        }),
        forall|y: int, x: int|
            #![trigger r.0@[y * 20 + x]]
            0 <= y < 5 && 0 <= x < 20 ==> r.0@[y * 20 + x] == (Particle {
                pos_x: (-800_000 + x * 80_000) as i64,
                pos_y: (-200_000 + y * 80_000) as i64,
                vel_x: 0,
                vel_y: 0,
                mass: 1_000_000_000,
                density: 0,
                pressure: 0,
                z_height: 0,
                layer_mask: LAYER_HULL,
                cell_id: 0,
            }),
        forall|y: int, x: int|
            #![trigger r.0@[100 + y * 3 + x]]
            0 <= y < 3 && 0 <= x < 3 ==> r.0@[100 + y * 3 + x] == (Particle {
                pos_x: (-40_000 + x * 40_000) as i64,
                pos_y: (-40_000 + y * 40_000) as i64,
                vel_x: 0,
                vel_y: 0,
                mass: 1_000_000,
                density: 0,
                pressure: 0,
                z_height: 10_000,
                layer_mask: LAYER_MAST,
                cell_id: 0,
            }),
        forall|y: int, x: int|
            #![trigger r.0@[109 + y * 2 + x]]
            0 <= y < 10 && 0 <= x < 2 ==> r.0@[109 + y * 2 + x] == (Particle {
                pos_x: (80_000 + x * 80_000) as i64,
                pos_y: (-400_000 + y * 80_000) as i64,
                vel_x: 0,
                vel_y: 0,
                mass: 1_000_000,
                density: 0,
                pressure: 0,
                z_height: 10_000,
                layer_mask: LAYER_MAST,
                cell_id: 0,
            }),
        forall|y: int, x: int|
            #![trigger r.0@[129 + y * 2 + x]]
            0 <= y < 10 && 0 <= x < 2 ==> r.0@[129 + y * 2 + x] == (Particle {
                pos_x: (240_000 + x * 80_000) as i64,
                pos_y: (-400_000 + y * 80_000) as i64,
                vel_x: 0,
                vel_y: 0,
                mass: 20_000,
                density: 0,
                pressure: 0,
                z_height: 20_000,
                layer_mask: LAYER_SAIL,
                cell_id: 0,
            }),
        forall|i: int|
            149 <= i < r.0@.len() ==> spec_air_fill_ok(
                #[trigger] r.0@[i],
                -6_000_000,
                -2_000_000,
                -2_000_000,
                2_000_000,
                500_000,
            ),
        forall|i: int| 0 <= i < r.0@.len() ==> (#[trigger] r.0@[i]).wf(),
        r.1 == Some((-880_000i64, 1_040_000i64, -280_000i64, 280_000i64)),
{
    let mut rng = fresh_rng();
    let mut particles: Vec<Particle> = Vec::new();
    let hull = Particle {
        pos_x: 0,
        pos_y: 0,
        vel_x: 0,
        vel_y: 0,
        mass: 1_000_000_000,
        density: 0,
        pressure: 0,
        z_height: 0,
        layer_mask: LAYER_HULL,
        cell_id: 0,
    };
    let mast = Particle { z_height: 10_000, ..new_mast_particle(0, 0) };
    let sail = Particle { z_height: 20_000, ..new_sail_particle(0, 0) };
    // Hull deck: a 20 x 5 grid at water level, effectively anchored.
    push_grid(&mut particles, -800_000, -200_000, 20, 5, 80_000, hull);
    proof {
        assert forall|y: int, x: int|
            0 <= y < 5 && 0 <= x < 20 implies #[trigger] particles@[y * 20 + x] == (Particle {
            pos_x: (-800_000 + x * 80_000) as i64,
            pos_y: (-200_000 + y * 80_000) as i64,
            ..hull
        }) by {
            assert(particles@[0 + y * 20 + x] == (Particle {
                pos_x: (-800_000 + x * 80_000) as i64,
                pos_y: (-200_000 + y * 80_000) as i64,
                ..hull
            }));
        }
    }
    // Mast cross-section: a 3 x 3 cluster at the hull's center, one level up.
    push_grid(&mut particles, -40_000, -40_000, 3, 3, 40_000, mast);
    proof {
        assert forall|y: int, x: int|
            0 <= y < 3 && 0 <= x < 3 implies #[trigger] particles@[100 + y * 3 + x] == (Particle {
            pos_x: (-40_000 + x * 40_000) as i64,
            pos_y: (-40_000 + y * 40_000) as i64,
            ..mast
        }) by {
        }
    }
    // Spar: a 2 x 10 boom extending from the mast along the sail.
    push_grid(&mut particles, 80_000, -400_000, 2, 10, 80_000, mast);
    proof {
        assert forall|y: int, x: int|
            0 <= y < 10 && 0 <= x < 2 implies #[trigger] particles@[109 + y * 2 + x] == (Particle {
            pos_x: (80_000 + x * 80_000) as i64,
            pos_y: (-400_000 + y * 80_000) as i64,
            ..mast
        }) by {
        }
    }
    // Sail: a 2 x 10 sheet right of the spar, at air level.
    push_grid(&mut particles, 240_000, -400_000, 2, 10, 80_000, sail);
    proof {
        assert forall|y: int, x: int|
            0 <= y < 10 && 0 <= x < 2 implies #[trigger] particles@[129 + y * 2 + x] == (Particle {
            pos_x: (240_000 + x * 80_000) as i64,
            pos_y: (-400_000 + y * 80_000) as i64,
            ..sail
        }) by {
        }
    }
    // Hurricane wind from the left.
    fill_air(
        &mut particles,
        particle_count,
        -6_000_000,
        -2_000_000,
        -2_000_000,
        2_000_000,
        500_000,
        &mut rng,
    );
    (particles, Some((-880_000i64, 1_040_000i64, -280_000i64, 280_000i64)))
}

/// The scenario the simulation starts from: the hurricane scene, with its
/// full structure forwarded to the caller.
pub fn spawn_particles(particle_count: usize) -> (r: (Vec<Particle>, HullBounds))
    ensures
        r.0@.len() == (if particle_count >= 149 {
            particle_count as int
        } else {
            149
        }),
        forall|y: int, x: int|
            #![trigger r.0@[y * 20 + x]]
            0 <= y < 5 && 0 <= x < 20 ==> r.0@[y * 20 + x] == (Particle {
                pos_x: (-800_000 + x * 80_000) as i64,
                pos_y: (-200_000 + y * 80_000) as i64,
                vel_x: 0,
                vel_y: 0,
                mass: 1_000_000_000,
                density: 0,
                pressure: 0,
                z_height: 0,
                layer_mask: LAYER_HULL,
                cell_id: 0,
            }),
        forall|y: int, x: int|
            #![trigger r.0@[100 + y * 3 + x]]
            0 <= y < 3 && 0 <= x < 3 ==> r.0@[100 + y * 3 + x] == (Particle {
                pos_x: (-40_000 + x * 40_000) as i64,
                pos_y: (-40_000 + y * 40_000) as i64,
                vel_x: 0,
                vel_y: 0,
                mass: 1_000_000,
                density: 0,
                pressure: 0,
                z_height: 10_000,
                layer_mask: LAYER_MAST,
                cell_id: 0,
            }),
        forall|y: int, x: int|
            #![trigger r.0@[109 + y * 2 + x]]
            0 <= y < 10 && 0 <= x < 2 ==> r.0@[109 + y * 2 + x] == (Particle {
                pos_x: (80_000 + x * 80_000) as i64,
                pos_y: (-400_000 + y * 80_000) as i64,
                vel_x: 0,
                vel_y: 0,
                mass: 1_000_000,
                density: 0,
                pressure: 0,
                z_height: 10_000,
                layer_mask: LAYER_MAST,
                cell_id: 0,
            }),
        forall|y: int, x: int|
            #![trigger r.0@[129 + y * 2 + x]]
            0 <= y < 10 && 0 <= x < 2 ==> r.0@[129 + y * 2 + x] == (Particle {
                pos_x: (240_000 + x * 80_000) as i64,
                pos_y: (-400_000 + y * 80_000) as i64,
                vel_x: 0,
                vel_y: 0,
                mass: 20_000,
                density: 0,
                pressure: 0,
                z_height: 20_000,
                layer_mask: LAYER_SAIL,
                cell_id: 0,
            }),
        forall|i: int|
            149 <= i < r.0@.len() ==> spec_air_fill_ok(
                #[trigger] r.0@[i],
                -6_000_000,
                -2_000_000,
                -2_000_000,
                2_000_000,
                500_000,
            ),
        forall|i: int| 0 <= i < r.0@.len() ==> (#[trigger] r.0@[i]).wf(),
        r.1 == Some((-880_000i64, 1_040_000i64, -280_000i64, 280_000i64)),
{
    scenario_hurricane(particle_count)
}

} // verus!
