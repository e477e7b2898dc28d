//! The simulation pipeline: one object owning every buffer, advanced one
//! frame at a time by `step`, which runs the compute passes in their fixed
//! order — spatial hashing, counting sort (clear, count, prefix-sum,
//! scatter, prefix-sum-restore), density and pressure, force accumulator
//! clear, force evaluation, bond solving, and integration. Later passes
//! read the completed outputs of earlier ones; the sequence never reorders.

use vstd::prelude::*;

verus! {

use crate::fixed::{clamp_i, clamp_fx, fx_add};
use crate::resources::{Particle, GridParams, SimParams, Vec2};
use crate::physics_config::InteractionTable;
use crate::bonds::{Bond, solve_bonds, deactivation_monotone, spec_bond_breaks, bonds_applied};
use crate::grid::{compute_cell_ids, count_cells, prefix_sum, scatter, spec_cell_id,
    sum_counts_below, lemma_counts_partition, lemma_psum_is_sum_counts, lemma_psum_monotone,
    lemma_prefix_sum_deterministic, lemma_sorted_is_permutation};
use crate::density::{compute_density_pressure, spec_density, spec_pressure, spec_target_density};
use crate::forces::{compute_forces, spec_gather};
use crate::integrate::{integrate, zeroed_forces, spec_in_bounds, spec_integrated};
use crate::input::MAX_ANGLE;

/// The particle buffer after the hashing pass: every cell id recomputed
/// from the particle's position; nothing else changes.
pub open spec fn spec_hashed(parts: Seq<Particle>, g: GridParams) -> Seq<Particle> {
    Seq::new(
        parts.len(),
        |i: int| Particle { cell_id: spec_cell_id(parts[i], g) as usize, ..parts[i] },
    )
}

/// The counting-sort artifacts over a hashed buffer with m cells: the
/// offsets are the exclusive prefix sums of the per-cell counts (with the
/// total as sentinel), and sorted groups the particle indices by cell —
/// every slot of a cell's range names a particle of that cell, in-cell
/// entries strictly increase, and every index appears in its own cell's
/// range. Together these clauses determine the permutation uniquely.
pub open spec fn spec_sort_ok(
    hashed: Seq<Particle>,
    m: int,
    sorted: Seq<usize>,
    offsets: Seq<usize>,
) -> bool {
    &&& offsets.len() == m + 1
    &&& forall|c: int| 0 <= c <= m ==> #[trigger] offsets[c] as int == sum_counts_below(hashed, c)
    &&& sorted.len() == hashed.len()
    &&& forall|c: int, k: int|
        #![trigger sum_counts_below(hashed, c), sorted[k]]
        0 <= c < m && sum_counts_below(hashed, c) <= k < sum_counts_below(hashed, c + 1)
            ==> sorted[k] < hashed.len() && hashed[sorted[k] as int].cell_id == c
    &&& forall|c: int, k1: int, k2: int|
        #![trigger sum_counts_below(hashed, c), sorted[k1], sorted[k2]]
        0 <= c < m && sum_counts_below(hashed, c) <= k1 < k2 < sum_counts_below(hashed, c + 1)
            ==> sorted[k1] < sorted[k2]
    &&& forall|j: int|
        0 <= j < hashed.len() ==> exists|k: int|
            #![trigger sorted[k]]
            sum_counts_below(hashed, (#[trigger] hashed[j]).cell_id as int) <= k
                < sum_counts_below(hashed, hashed[j].cell_id + 1) && sorted[k] == j
}

/// The particle buffer after the density pass: densities and pressures
/// recomputed from the neighbor index; nothing else changes.
pub open spec fn spec_densified(
    hashed: Seq<Particle>,
    sorted: Seq<usize>,
    offsets: Seq<usize>,
    g: GridParams,
    params: SimParams,
    stiffness: int,
    cap: int,
) -> Seq<Particle> {
    Seq::new(
        hashed.len(),
        |i: int| Particle {
            density: spec_density(
                hashed,
                sorted,
                offsets,
                g,
                i,
                params.smoothing_radius as int,
            ) as i64,
            pressure: spec_pressure(
                spec_density(hashed, sorted, offsets, g, i, params.smoothing_radius as int),
                spec_target_density(hashed[i], params),
                stiffness,
                cap,
            ) as i64,
            ..hashed[i]
        },
    )
}

/// The force accumulator after the gather pass ran over a freshly cleared
/// buffer: each particle's slot holds its gathered force total.
pub open spec fn spec_gathered_forces(
    parts: Seq<Particle>,
    sorted: Seq<usize>,
    offsets: Seq<usize>,
    g: GridParams,
    params: SimParams,
    table: InteractionTable,
) -> Seq<Vec2> {
    Seq::new(
        parts.len(),
        |i: int| Vec2 {
            x: fx_add(
                0,
                spec_gather(
                    parts,
                    sorted,
                    offsets,
                    g,
                    i,
                    params.smoothing_radius as int,
                    table.sph_viscosity as int,
                    table,
                ).0,
            ) as i64,
            y: fx_add(
                0,
                spec_gather(
                    parts,
                    sorted,
                    offsets,
                    g,
                    i,
                    params.smoothing_radius as int,
                    table.sph_viscosity as int,
                    table,
                ).1,
            ) as i64,
        },
    )
}

/// The XSPH buffer after the gather pass: each particle's slot holds its
/// velocity-smoothing correction.
pub open spec fn spec_gathered_xsph(
    parts: Seq<Particle>,
    sorted: Seq<usize>,
    offsets: Seq<usize>,
    g: GridParams,
    params: SimParams,
    table: InteractionTable,
) -> Seq<Vec2> {
    Seq::new(
        parts.len(),
        |i: int| Vec2 {
            x: spec_gather(
                parts,
                sorted,
                offsets,
                g,
                i,
                params.smoothing_radius as int,
                table.sph_viscosity as int,
                table,
            ).2 as i64,
            y: spec_gather(
                parts,
                sorted,
                offsets,
                g,
                i,
                params.smoothing_radius as int,
                table.sph_viscosity as int,
                table,
            ).3 as i64,
        },
    )
}

/// The bond list after the solver ran against a particle configuration:
/// overstrained active bonds deactivated, everything else untouched.
pub open spec fn spec_solved_bonds(bonds: Seq<Bond>, parts: Seq<Particle>) -> Seq<Bond> {
    Seq::new(
        bonds.len(),
        |j: int| if spec_bond_breaks(bonds[j], parts) {
            Bond { is_active: false, ..bonds[j] }
        } else {
            bonds[j]
        },
    )
}

/// The particle buffer after the integration pass.
pub open spec fn spec_all_integrated(
    parts: Seq<Particle>,
    forces: Seq<Vec2>,
    xsph: Seq<Vec2>,
    params: SimParams,
    damping: int,
    eps: int,
) -> Seq<Particle> {
    Seq::new(parts.len(), |i: int| spec_integrated(parts[i], forces[i], xsph[i], params, damping, eps))
}

/// One whole frame, as a relation between the state before and after, with
/// the counting-sort artifacts as witnesses: the particles are hashed; the
/// witnesses are the (unique) counting-sort permutation and offsets of the
/// hashed buffer; densities and pressures are recomputed over that index;
/// the cleared accumulator takes the gathered force totals and the XSPH
/// buffer the smoothing corrections; the bond solver breaks overstrained
/// bonds against the densified configuration and accumulates the surviving
/// spring forces; and every particle is integrated under its final force
/// and correction.
pub open spec fn spec_frame_ok(
    pre: Simulation,
    post: Simulation,
    sorted: Seq<usize>,
    offsets: Seq<usize>,
) -> bool {
    let hashed = spec_hashed(pre.particles@, pre.grid);
    let densified = spec_densified(
        hashed,
        sorted,
        offsets,
        pre.grid,
        pre.params,
        pre.table.sph_pressure_stiffness as int,
        pre.table.pressure_cap as int,
    );
    let gathered = spec_gathered_forces(densified, sorted, offsets, pre.grid, pre.params, pre.table);
    let xs = spec_gathered_xsph(densified, sorted, offsets, pre.grid, pre.params, pre.table);
    let solved = bonds_applied(pre.bonds@, densified, gathered, pre.bonds@.len() as int);
    &&& spec_sort_ok(hashed, pre.grid.cell_count(), sorted, offsets)
    &&& post.bonds@ == spec_solved_bonds(pre.bonds@, densified)
    &&& post.xsph@ == xs
    &&& post.forces@ == solved
    &&& post.particles@ == spec_all_integrated(
        densified,
        solved,
        xs,
        pre.params,
        pre.table.velocity_damping as int,
        pre.table.xsph_epsilon as int,
    )
}

/// The simulation core: all buffers, owned for the run's lifetime, plus the
/// three parameter blocks. Particle and bond capacities are fixed at
/// construction; indices are stable identities for the run.
pub struct Simulation {
    /// The particle buffer.
    pub particles: Vec<Particle>,
    /// The bond list, padded with inactive slots to its fixed capacity.
    pub bonds: Vec<Bond>,
    /// The shared per-particle force accumulator.
    pub forces: Vec<Vec2>,
    /// The per-particle XSPH velocity-smoothing gather.
    pub xsph: Vec<Vec2>,
    /// Spatial grid geometry, fixed for the run.
    pub grid: GridParams,
    /// Global simulation parameters; only the control angle changes.
    pub params: SimParams,
    /// The material interaction table, built once and read-only.
    pub table: InteractionTable,
}

impl Simulation {
    /// Well-formed buffers and parameter blocks: every particle and bond is
    /// well-formed, bond endpoints name particles, and the accumulator
    /// buffers match the particle count.
    pub open spec fn wf(self) -> bool {
        &&& self.grid.wf()
        &&& self.params.wf()
        &&& self.table.wf()
        &&& forall|i: int|
            0 <= i < self.particles@.len() ==> (#[trigger] self.particles@[i]).wf()
        &&& forall|j: int| 0 <= j < self.bonds@.len() ==> (#[trigger] self.bonds@[j]).wf()
        &&& forall|j: int|
            0 <= j < self.bonds@.len() ==> (#[trigger] self.bonds@[j]).endpoints_in(
                self.particles@.len() as int,
            )
        &&& self.forces@.len() == self.particles@.len()
        &&& self.xsph@.len() == self.particles@.len()
    }

    /// Build a simulation from initial particle and bond arrays produced by
    /// a scenario generator, with fresh zero accumulators.
    pub fn new(
        particles: Vec<Particle>,
        bonds: Vec<Bond>,
        grid: GridParams,
        params: SimParams,
        table: InteractionTable,
    ) -> (sim: Simulation)
        requires
            grid.wf(),
            params.wf(),
            table.wf(),
            forall|i: int| 0 <= i < particles@.len() ==> (#[trigger] particles@[i]).wf(),
            forall|j: int| 0 <= j < bonds@.len() ==> (#[trigger] bonds@[j]).wf(),
            forall|j: int|
                0 <= j < bonds@.len() ==> (#[trigger] bonds@[j]).endpoints_in(
                    particles@.len() as int,
                ),
        ensures
            sim.wf(),
            sim.particles == particles,
            sim.bonds == bonds,
            sim.grid == grid,
            sim.params == params,
            sim.table == table,
            forall|i: int|
                0 <= i < sim.forces@.len() ==> #[trigger] sim.forces@[i] == (Vec2 { x: 0, y: 0 }),
            forall|i: int|
                0 <= i < sim.xsph@.len() ==> #[trigger] sim.xsph@[i] == (Vec2 { x: 0, y: 0 }),
    {
        let n = particles.len();
        let forces = zeroed_forces(n);
        let xsph = zeroed_forces(n);
        Simulation { particles, bonds, forces, xsph, grid, params, table }
    }

    /// Write the external control angle for the coming frame, clamped into
    /// the sail's configured range. Nothing else changes.
    pub fn set_control_angle(&mut self, angle: i64)
        requires
            old(self).wf(),
        ensures
            final(self).wf(),
            final(self).params.rudder_angle as int == clamp_i(
                angle as int,
                -MAX_ANGLE as int,
                MAX_ANGLE as int,
            ),
            final(self).params == (SimParams {
                rudder_angle: final(self).params.rudder_angle,
                ..old(self).params
            }),
            final(self).particles == old(self).particles,
            final(self).bonds == old(self).bonds,
            final(self).grid == old(self).grid,
            final(self).table == old(self).table,
    {
        self.params.rudder_angle = clamp_fx(angle, -MAX_ANGLE, MAX_ANGLE);
    }

    /// Advance the simulation one frame.
    ///
    /// The passes run in their strict order: hash particles to cells; count
    /// per cell; prefix-sum the counts into write cursors; scatter the
    /// particle indices into the sorted permutation, consuming the cursors;
    /// re-run the identical prefix sum to restore the `[start, end)` query
    /// offsets; estimate densities and derive pressures; clear the force
    /// accumulator (before any writer of the frame); evaluate SPH,
    /// repulsion and XSPH terms; solve the bonds, breaking overstrained
    /// ones permanently; and integrate with boundary reflection.
    ///
    /// The frame preserves the buffers' well-formedness, never reactivates
    /// a bond, and leaves every particle inside the world bounds.
    #[verifier::rlimit(100)]
    pub fn step(&mut self)
        requires
            old(self).wf(),
        ensures
            final(self).wf(),
            final(self).particles@.len() == old(self).particles@.len(),
            final(self).bonds@.len() == old(self).bonds@.len(),
            deactivation_monotone(old(self).bonds@, final(self).bonds@),
            forall|i: int|
                0 <= i < final(self).particles@.len() ==> spec_in_bounds(
                    #[trigger] final(self).particles@[i],
                    final(self).params,
                ),
            final(self).grid == old(self).grid,
            final(self).params == old(self).params,
            final(self).table == old(self).table,
            exists|sorted: Seq<usize>, offsets: Seq<usize>|
                #[trigger] spec_frame_ok(*old(self), *final(self), sorted, offsets),
    {
        let n = self.particles.len();
        proof {
            assert(self.grid.grid_width * self.grid.grid_height <= 0xffff * 0xffff)
                by (nonlinear_arith)
                requires
                    self.grid.grid_width <= 0xffff,
                    self.grid.grid_height <= 0xffff,
            ;
            assert(self.grid.cell_count() >= 1) by (nonlinear_arith)
                requires
                    self.grid.grid_width >= 1,
                    self.grid.grid_height >= 1,
                    self.grid.cell_count() == self.grid.grid_width * self.grid.grid_height,
            ;
        }
        let n_cells = self.grid.grid_width * self.grid.grid_height;

        // Spatial hashing.
        compute_cell_ids(&mut self.particles, &self.grid);
        proof {
            assert(self.particles@ =~= spec_hashed(old(self).particles@, self.grid));
        }
        let ghost hashed = self.particles@;

        // Counting sort: count, prefix-sum, scatter, prefix-sum-restore.
        let counts = count_cells(&self.particles, n_cells);
        proof {
            lemma_counts_partition(self.particles@, n_cells as int);
            lemma_psum_is_sum_counts(counts@, self.particles@, n_cells as int);
        }
        let mut cursors = prefix_sum(&counts);
        let ghost first_offsets = cursors@;
        proof {
            assert forall|c: int| 0 <= c < cursors@.len() implies #[trigger] cursors@[c] as int
                == sum_counts_below(self.particles@, c) by {
                lemma_psum_is_sum_counts(counts@, self.particles@, c);
            }
        }
        let sorted = scatter(&self.particles, &mut cursors);
        let offsets = prefix_sum(&counts);
        proof {
            // The re-run reproduces the offsets the scatter consumed, exactly.
            lemma_prefix_sum_deterministic(counts@, first_offsets, offsets@);
            assert(offsets@ == first_offsets);
            assert forall|c: int| 0 <= c < offsets@.len() implies #[trigger] offsets@[c] as int
                == sum_counts_below(self.particles@, c) by {
                lemma_psum_is_sum_counts(counts@, self.particles@, c);
            }
            assert forall|c: int|
                0 <= c < offsets@.len() - 1 implies #[trigger] offsets@[c] <= offsets@[c + 1] by {
                lemma_psum_monotone(counts@, c, c + 1);
            }
            lemma_sorted_is_permutation(self.particles@, sorted@, n_cells as int);
            assert(offsets@[offsets@.len() - 1] <= sorted@.len());
            assert(spec_sort_ok(hashed, self.grid.cell_count(), sorted@, offsets@));
        }

        // Density estimation and equation of state.
        compute_density_pressure(
            &mut self.particles,
            &sorted,
            &offsets,
            &self.grid,
            &self.params,
            self.table.sph_pressure_stiffness,
            self.table.pressure_cap,
        );
        proof {
            assert(self.particles@ =~= spec_densified(
                hashed,
                sorted@,
                offsets@,
                self.grid,
                self.params,
                self.table.sph_pressure_stiffness as int,
                self.table.pressure_cap as int,
            ));
        }
        let ghost densified = self.particles@;

        // The shared accumulator is cleared before any writer runs.
        self.forces = zeroed_forces(n);

        // SPH, repulsion and XSPH gathering.
        compute_forces(
            &self.particles,
            &sorted,
            &offsets,
            &self.grid,
            &self.params,
            &self.table,
            &mut self.forces,
            &mut self.xsph,
        );
        proof {
            let gf = spec_gathered_forces(densified, sorted@, offsets@, self.grid, self.params, self.table);
            let gx = spec_gathered_xsph(densified, sorted@, offsets@, self.grid, self.params, self.table);
            assert forall|i: int|
                0 <= i < densified.len() implies self.forces@[i] == gf[i] && self.xsph@[i]
                == gx[i] by {
                assert(0 <= i < self.particles@.len());
                assert(self.forces@[i] == gf[i]);
                assert(self.xsph@[i] == gx[i]);
            }
            assert(self.forces@ =~= gf);
            assert(self.xsph@ =~= gx);
        }
        let ghost gathered = self.forces@;

        // Bond solving: breakage is permanent; spring forces accumulate.
        solve_bonds(&mut self.bonds, &self.particles, &mut self.forces);
        proof {
            assert(self.bonds@ =~= spec_solved_bonds(old(self).bonds@, densified));
            assert(self.forces@ == bonds_applied(
                old(self).bonds@,
                densified,
                gathered,
                old(self).bonds@.len() as int,
            ));
        }
        let ghost solved = self.forces@;

        // Integration with boundary reflection.
        integrate(
            &mut self.particles,
            &self.forces,
            &self.xsph,
            &self.params,
            self.table.velocity_damping,
            self.table.xsph_epsilon,
        );
        proof {
            assert(self.particles@ =~= spec_all_integrated(
                densified,
                solved,
                self.xsph@,
                self.params,
                self.table.velocity_damping as int,
                self.table.xsph_epsilon as int,
            ));
            assert(spec_frame_ok(*old(self), *self, sorted@, offsets@));
        }
    }
}

} // verus!
