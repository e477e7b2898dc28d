//! The integrator.
//!
//! Each particle's accumulated force is combined with gravity into an
//! acceleration (gravity acts as a uniform acceleration, not a per-mass
//! force, matching the reference behavior), the XSPH smoothing correction
//! is blended in, the velocity is damped by the per-frame factor, and the
//! position is advanced. A particle leaving the world bounds is clamped to
//! the bound and its velocity component reflected — the only collision
//! response with the world edge.

use vstd::prelude::*;

verus! {

use crate::fixed::{fx_add, fx_mul, fx_div, fx_neg, fx_ok, add_fx, mul_fx, div_fx, neg_fx};
use crate::resources::{Particle, SimParams, Vec2};

/// The particle after one integration step under force f and XSPH
/// correction xs: velocity plus (f / mass + gravity) * dt, plus eps * xs,
/// damped; position advanced by the new velocity times dt, then clamped to
/// the world bounds with the corresponding velocity component negated.
pub open spec fn spec_integrated(
    p: Particle,
    f: Vec2,
    xs: Vec2,
    params: SimParams,
    damping: int,
    eps: int,
) -> Particle {
    let ax = fx_div(f.x as int, p.mass as int);
    let ay = fx_add(fx_div(f.y as int, p.mass as int), params.gravity as int);
    let vx = fx_mul(
        fx_add(
            fx_add(p.vel_x as int, fx_mul(ax, params.delta_time as int)),
            fx_mul(eps, xs.x as int),
        ),
        damping,
    );
    let vy = fx_mul(
        fx_add(
            fx_add(p.vel_y as int, fx_mul(ay, params.delta_time as int)),
            fx_mul(eps, xs.y as int),
        ),
        damping,
    );
    let px = fx_add(p.pos_x as int, fx_mul(vx, params.delta_time as int));
    let py = fx_add(p.pos_y as int, fx_mul(vy, params.delta_time as int));
    let npx = if px < params.min_x {
        params.min_x as int
    } else if px > params.max_x {
        params.max_x as int
    } else {
        px
    };
    let nvx = if px < params.min_x || px > params.max_x {
        fx_neg(vx)
    } else {
        vx
    };
    let npy = if py < params.min_y {
        params.min_y as int
    } else if py > params.max_y {
        params.max_y as int
    } else {
        py
    };
    let nvy = if py < params.min_y || py > params.max_y {
        fx_neg(vy)
    } else {
        vy
    };
    Particle {
        pos_x: npx as i64,
        pos_y: npy as i64,
        vel_x: nvx as i64,
        vel_y: nvy as i64,
        ..p
    }
}

/// Whether a particle's position lies within the world bounds.
pub open spec fn spec_in_bounds(p: Particle, params: SimParams) -> bool {
    &&& params.min_x <= p.pos_x <= params.max_x
    &&& params.min_y <= p.pos_y <= params.max_y
}

/// An integrated particle lies within the world bounds, whatever force and
/// correction acted on it; its other fields are untouched and it stays
/// well-formed.
pub proof fn lemma_integrated_in_bounds(
    p: Particle,
    f: Vec2,
    xs: Vec2,
    params: SimParams,
    damping: int,
    eps: int,
)
    requires
        params.wf(),
        p.wf(),
    ensures
        spec_in_bounds(spec_integrated(p, f, xs, params, damping, eps), params),
        spec_integrated(p, f, xs, params, damping, eps).wf(),
        spec_integrated(p, f, xs, params, damping, eps).mass == p.mass,
        spec_integrated(p, f, xs, params, damping, eps).layer_mask == p.layer_mask,
        spec_integrated(p, f, xs, params, damping, eps).cell_id == p.cell_id,
{
}

/// The integration pass: advance every particle one step under its
/// accumulated force and XSPH correction, and keep it within the world
/// bounds by clamp-and-reflect.
pub fn integrate(
    particles: &mut Vec<Particle>,
    forces: &Vec<Vec2>,
    xsph: &Vec<Vec2>,
    params: &SimParams,
    damping: i64,
    eps: i64,
)
    requires
        params.wf(),
        forces@.len() == old(particles)@.len(),
        xsph@.len() == old(particles)@.len(),
        forall|i: int| 0 <= i < old(particles)@.len() ==> (#[trigger] old(particles)@[i]).wf(),
    ensures
        final(particles)@.len() == old(particles)@.len(),
        forall|i: int|
            0 <= i < old(particles)@.len() ==> #[trigger] final(particles)@[i] == spec_integrated(
                old(particles)@[i],
                forces@[i],
                xsph@[i],
                *params,
                damping as int,
                eps as int,
            ),
        forall|i: int|
            0 <= i < final(particles)@.len() ==> spec_in_bounds(
                #[trigger] final(particles)@[i],
                *params,
            ) && final(particles)@[i].wf(),
{
    let n = particles.len();
    let ghost orig = particles@;
    let mut i: usize = 0;
    while i < n
        invariant
            particles@.len() == n,
            orig.len() == n,
            params.wf(),
            forces@.len() == n,
            xsph@.len() == n,
            i <= n,
            forall|j: int| 0 <= j < n ==> (#[trigger] orig[j]).wf(),
            forall|j: int| i <= j < n ==> #[trigger] particles@[j] == orig[j],
            forall|j: int|
                0 <= j < i ==> #[trigger] particles@[j] == spec_integrated(
                    orig[j],
                    forces@[j],
                    xsph@[j],
                    *params,
                    damping as int,
                    eps as int,
                ),
        decreases n - i,
    {
        let p = particles[i];
        let f = forces[i];
        let xs = xsph[i];
        let ax = div_fx(f.x, p.mass);
        let ay = add_fx(div_fx(f.y, p.mass), params.gravity);
        let vx = mul_fx(
            add_fx(add_fx(p.vel_x, mul_fx(ax, params.delta_time)), mul_fx(eps, xs.x)),
            damping,
        );
        let vy = mul_fx(
            add_fx(add_fx(p.vel_y, mul_fx(ay, params.delta_time)), mul_fx(eps, xs.y)),
            damping,
        );
        let px = add_fx(p.pos_x, mul_fx(vx, params.delta_time));
        let py = add_fx(p.pos_y, mul_fx(vy, params.delta_time));
        let (npx, nvx) = if px < params.min_x {
            (params.min_x, neg_fx(vx))
        } else if px > params.max_x {
            (params.max_x, neg_fx(vx))
        } else {
            (px, vx)
        };
        let (npy, nvy) = if py < params.min_y {
            (params.min_y, neg_fx(vy))
        } else if py > params.max_y {
            (params.max_y, neg_fx(vy))
        } else {
            (py, vy)
        };
        particles.set(i, Particle { pos_x: npx, pos_y: npy, vel_x: nvx, vel_y: nvy, ..p });
        i = i + 1;
    }
    proof {
        assert forall|i: int| 0 <= i < particles@.len() implies spec_in_bounds(
            #[trigger] particles@[i],
            *params,
        ) && particles@[i].wf() by {
            lemma_integrated_in_bounds(
                orig[i],
                forces@[i],
                xsph@[i],
                *params,
                damping as int,
                eps as int,
            );
        }
    }
}

/// A fresh force accumulator: one zero slot per particle. The accumulator
/// must be zero before any writer of a frame runs.
pub fn zeroed_forces(n: usize) -> (forces: Vec<Vec2>)
    ensures
        forces@.len() == n,
        forall|i: int| 0 <= i < n ==> #[trigger] forces@[i] == (Vec2 { x: 0, y: 0 }),
{
    let mut forces: Vec<Vec2> = Vec::new();
    let mut z: usize = 0;
    while z < n
        invariant
            forces@.len() == z <= n,
            forall|i: int| 0 <= i < z ==> #[trigger] forces@[i] == (Vec2 { x: 0, y: 0 }),
        decreases n - z,
    {
        forces.push(Vec2 { x: 0, y: 0 });
        z = z + 1;
    }
    forces
}

} // verus!
