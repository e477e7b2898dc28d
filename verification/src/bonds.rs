//! The bond solver: breakable spring constraints between particle pairs,
//! used to model the rigid and flexible structures (hull, mast, sail).
//!
//! A bond has exactly two states, active and broken, with a single one-way
//! transition: the frame in which its computed strain exceeds its breaking
//! strain deactivates it, permanently. Inactive bonds are inert and
//! contribute no force, ever.

use vstd::prelude::*;

verus! {

use crate::fixed::{fx_ok, fx_add, fx_sub, fx_mul, fx_div, fx_len, add_fx, sub_fx, mul_fx, div_fx,
    len_fx};
use crate::resources::{Particle, Vec2};

/// A breakable spring constraint between two particles.
#[derive(Clone, Copy, Debug, PartialEq, Eq, Structural)]
pub struct Bond {
    /// Index of the first endpoint particle.
    pub particle_a: usize,
    /// Index of the second endpoint particle.
    pub particle_b: usize,
    /// Rest length of the spring (raw fixed-point).
    pub rest_length: i64,
    /// Spring stiffness (raw fixed-point).
    pub stiffness: i64,
    /// Relative elongation beyond which the bond breaks.
    pub breaking_strain: i64,
    /// Type tag for force tuning; carries no behavior of its own.
    pub bond_type: u32,
    /// Whether the bond still acts; once false, it stays false.
    pub is_active: bool,
}

impl Bond {
    /// Scalar fields in range and nonnegative; an active bond has a positive
    /// rest length, and a padding slot is inactive with zero stiffness.
    pub open spec fn wf(self) -> bool {
        &&& 0 <= self.rest_length
        &&& fx_ok(self.rest_length as int)
        &&& 0 <= self.stiffness
        &&& fx_ok(self.stiffness as int)
        &&& 0 <= self.breaking_strain
        &&& fx_ok(self.breaking_strain as int)
        &&& self.is_active ==> self.rest_length > 0
    }

    /// Whether both endpoints name particles of an n-element buffer.
    pub open spec fn endpoints_in(self, n: int) -> bool {
        self.particle_a < n && self.particle_b < n
    }
}

/// An inactive padding bond slot.
pub fn padding_bond() -> (b: Bond)
    ensures
        b.wf(),
        !b.is_active,
        b.particle_a == 0,
        b.particle_b == 0,
        b.rest_length == 0,
        b.stiffness == 0,
        b.breaking_strain == 0,
        b.bond_type == 0,
{
    Bond {
        particle_a: 0,
        particle_b: 0,
        rest_length: 0,
        stiffness: 0,
        breaking_strain: 0,
        bond_type: 0,
        is_active: false,
    }
}

/// Current separation of a bond's endpoints.
pub open spec fn spec_bond_sep(b: Bond, parts: Seq<Particle>) -> int {
    fx_len(
        fx_sub(parts[b.particle_b as int].pos_x as int, parts[b.particle_a as int].pos_x as int),
        fx_sub(parts[b.particle_b as int].pos_y as int, parts[b.particle_a as int].pos_y as int),
    )
}

/// Strain of a bond: relative deviation of its length from its rest length.
pub open spec fn spec_bond_strain(b: Bond, parts: Seq<Particle>) -> int {
    fx_div(fx_sub(spec_bond_sep(b, parts), b.rest_length as int), b.rest_length as int)
}

/// Whether an active bond's strain magnitude exceeds its breaking strain in
/// the current configuration.
pub open spec fn spec_bond_breaks(b: Bond, parts: Seq<Particle>) -> bool {
    &&& b.is_active
    &&& {
        let strain = spec_bond_strain(b, parts);
        strain > b.breaking_strain as int || -strain > b.breaking_strain as int
    }
}

/// The spring force a surviving bond applies to its first endpoint, x
/// component: magnitude stiffness * (separation - rest length), directed
/// along the a-to-b axis.
pub open spec fn spec_bond_force_x(b: Bond, parts: Seq<Particle>) -> int {
    let d = spec_bond_sep(b, parts);
    let f = fx_mul(b.stiffness as int, fx_sub(d, b.rest_length as int));
    fx_mul(
        f,
        fx_div(
            fx_sub(
                parts[b.particle_b as int].pos_x as int,
                parts[b.particle_a as int].pos_x as int,
            ),
            d,
        ),
    )
}

/// The spring force a surviving bond applies to its first endpoint, y
/// component.
pub open spec fn spec_bond_force_y(b: Bond, parts: Seq<Particle>) -> int {
    let d = spec_bond_sep(b, parts);
    let f = fx_mul(b.stiffness as int, fx_sub(d, b.rest_length as int));
    fx_mul(
        f,
        fx_div(
            fx_sub(
                parts[b.particle_b as int].pos_y as int,
                parts[b.particle_a as int].pos_y as int,
            ),
            d,
        ),
    )
}

/// The force accumulator after one bond is solved against it: a bond that is
/// inactive, breaking this frame, or out of range leaves the accumulator
/// unchanged; a surviving bond adds its spring force to endpoint a's slot
/// and subtracts it from endpoint b's slot, in that order.
pub open spec fn apply_bond(f: Seq<Vec2>, b: Bond, parts: Seq<Particle>) -> Seq<Vec2> {
    if !b.is_active || spec_bond_breaks(b, parts) || !b.endpoints_in(parts.len() as int)
        || parts.len() != f.len() {
        f
    } else {
        let fx = spec_bond_force_x(b, parts);
        let fy = spec_bond_force_y(b, parts);
        let a = b.particle_a as int;
        let bb = b.particle_b as int;
        let f1 = f.update(
            a,
            Vec2 { x: fx_add(f[a].x as int, fx) as i64, y: fx_add(f[a].y as int, fy) as i64 },
        );
        f1.update(
            bb,
            Vec2 {
                x: fx_sub(f1[bb].x as int, fx) as i64,
                y: fx_sub(f1[bb].y as int, fy) as i64,
            },
        )
    }
}

/// An inactive bond contributes no force: solving it leaves the accumulator
/// exactly as it was.
pub proof fn lemma_inactive_bond_no_force(f: Seq<Vec2>, b: Bond, parts: Seq<Particle>)
    requires
        !b.is_active,
    ensures
        apply_bond(f, b, parts) == f,
{
}

/// The force accumulator after the first j bonds of the list are solved, in
/// list order, against the particle configuration.
pub open spec fn bonds_applied(
    bonds: Seq<Bond>,
    parts: Seq<Particle>,
    init: Seq<Vec2>,
    j: int,
) -> Seq<Vec2>
    decreases j,
{
    if j <= 0 {
        init
    } else {
        apply_bond(bonds_applied(bonds, parts, init, j - 1), bonds[j - 1], parts)
    }
}

/// Deactivation is one-way: every bond inactive before is inactive after.
pub open spec fn deactivation_monotone(before: Seq<Bond>, after: Seq<Bond>) -> bool {
    &&& before.len() == after.len()
    &&& forall|j: int|
        0 <= j < before.len() && !(#[trigger] before[j]).is_active ==> !after[j].is_active
}

/// Bond monotonicity across any number of frames: if deactivation is one-way
/// from each frame to the next, it is one-way from the first to the last.
pub proof fn lemma_deactivation_monotone_trans(b0: Seq<Bond>, b1: Seq<Bond>, b2: Seq<Bond>)
    requires
        deactivation_monotone(b0, b1),
        deactivation_monotone(b1, b2),
    ensures
        deactivation_monotone(b0, b2),
{
}

/// Solve every bond of the list, in order: deactivate each active bond whose
/// strain magnitude exceeds its breaking strain, and accumulate the spring
/// force of each surviving bond into its endpoints' accumulator slots.
pub fn solve_bonds(bonds: &mut Vec<Bond>, particles: &Vec<Particle>, forces: &mut Vec<Vec2>)
    requires
        forall|j: int| 0 <= j < old(bonds)@.len() ==> (#[trigger] old(bonds)@[j]).wf(),
        forall|j: int|
            0 <= j < old(bonds)@.len() ==> (#[trigger] old(bonds)@[j]).endpoints_in(
                particles@.len() as int,
            ),
        old(forces)@.len() == particles@.len(),
    ensures
        final(bonds)@.len() == old(bonds)@.len(),
        forall|j: int| 0 <= j < final(bonds)@.len() ==> (#[trigger] final(bonds)@[j]).wf(),
        forall|j: int|
            0 <= j < old(bonds)@.len() ==> #[trigger] final(bonds)@[j] == (
            if spec_bond_breaks(old(bonds)@[j], particles@) {
                Bond { is_active: false, ..old(bonds)@[j] }
            } else {
                old(bonds)@[j]
            }),
        deactivation_monotone(old(bonds)@, final(bonds)@),
        final(forces)@.len() == old(forces)@.len(),
        final(forces)@ == bonds_applied(
            old(bonds)@,
            particles@,
            old(forces)@,
            old(bonds)@.len() as int,
        ),
{
    let n_bonds = bonds.len();
    let n_parts = particles.len();
    let ghost bonds0 = bonds@;
    let ghost forces0 = forces@;
    let ghost parts = particles@;
    let mut j: usize = 0;
    while j < n_bonds
        invariant
            bonds@.len() == n_bonds,
            bonds0.len() == n_bonds,
            particles@ == parts,
            parts.len() == n_parts,
            forces@.len() == n_parts,
            j <= n_bonds,
            forall|i: int| 0 <= i < n_bonds ==> (#[trigger] bonds0[i]).wf(),
            forall|i: int|
                0 <= i < n_bonds ==> (#[trigger] bonds0[i]).endpoints_in(n_parts as int),
            forall|i: int| j <= i < n_bonds ==> #[trigger] bonds@[i] == bonds0[i],
            forall|i: int|
                0 <= i < j ==> #[trigger] bonds@[i] == (if spec_bond_breaks(bonds0[i], parts) {
                    Bond { is_active: false, ..bonds0[i] }
                } else {
                    bonds0[i]
                }),
            forces@ == bonds_applied(bonds0, parts, forces0, j as int),
        decreases n_bonds - j,
    {
        let b = bonds[j];
        if b.is_active {
            let pa = particles[b.particle_a];
            let pb = particles[b.particle_b];
            let dx = sub_fx(pb.pos_x, pa.pos_x);
            let dy = sub_fx(pb.pos_y, pa.pos_y);
            let d = len_fx(dx, dy);
            let stretch = sub_fx(d, b.rest_length);
            let strain = div_fx(stretch, b.rest_length);
            if strain > b.breaking_strain || -strain > b.breaking_strain {
                bonds.set(j, Bond { is_active: false, ..b });
                proof {
                    assert(spec_bond_breaks(bonds0[j as int], parts));
                    assert(forces@ == bonds_applied(bonds0, parts, forces0, j as int + 1));
                }
            } else {
                let f = mul_fx(b.stiffness, stretch);
                let fvx = mul_fx(f, div_fx(dx, d));
                let fvy = mul_fx(f, div_fx(dy, d));
                let fa = forces[b.particle_a];
                forces.set(b.particle_a, Vec2 { x: add_fx(fa.x, fvx), y: add_fx(fa.y, fvy) });
                let fb = forces[b.particle_b];
                forces.set(b.particle_b, Vec2 { x: sub_fx(fb.x, fvx), y: sub_fx(fb.y, fvy) });
                proof {
                    assert(fvx as int == spec_bond_force_x(bonds0[j as int], parts));
                    assert(fvy as int == spec_bond_force_y(bonds0[j as int], parts));
                    assert(forces@ == apply_bond(
                        bonds_applied(bonds0, parts, forces0, j as int),
                        bonds0[j as int],
                        parts,
                    ));
                }
            }
        } else {
            proof {
                lemma_inactive_bond_no_force(forces@, bonds0[j as int], parts);
            }
        }
        j = j + 1;
    }
}

} // verus!
