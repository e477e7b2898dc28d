//! Tests of the compute passes: fixed-point arithmetic, the counting-sort
//! neighbor index, density and pressure, bond solving and integration.

use sailing::bonds::{solve_bonds, Bond};
use sailing::density::compute_density_pressure;
use sailing::fixed::{add_fx, div_fx, len_fx, mul_fx, sqrt_u128, SCALE};
use sailing::grid::{compute_cell_ids, count_cells, prefix_sum, scatter};
use sailing::input::SailControl;
use sailing::integrate::{integrate, zeroed_forces};
use sailing::physics_config::default_interaction_table;
use sailing::resources::{GridParams, Particle, SimParams, Vec2};
use sailing::scenarios::{scenario_dry_dock, scenario_hurricane, scenario_water_only};
use sailing::simulation::Simulation;

#[test]
fn fixed_point_arithmetic_exact() {
    // 2.0 * 3.0 == 6.0
    assert_eq!(mul_fx(2 * SCALE, 3 * SCALE), 6 * SCALE);
    // 1.0 / 8.0 == 0.125
    assert_eq!(div_fx(SCALE, 8 * SCALE), 1250);
    // Division by zero is total and yields zero.
    assert_eq!(div_fx(5 * SCALE, 0), 0);
    // Saturation instead of overflow.
    assert_eq!(add_fx(i64::MAX, i64::MAX), 1_000_000_000_000_000);
    // A 3-4-5 triangle.
    assert_eq!(len_fx(3 * SCALE, 4 * SCALE), 5 * SCALE);
    // Truncation rounds toward zero on both signs.
    assert_eq!(mul_fx(15, 15), 0);
    assert_eq!(mul_fx(-15, 15), 0);
}

#[test]
fn integer_square_root_brackets() {
    assert_eq!(sqrt_u128(0), 0);
    assert_eq!(sqrt_u128(1), 1);
    assert_eq!(sqrt_u128(2), 1);
    assert_eq!(sqrt_u128(144), 12);
    assert_eq!(sqrt_u128(u64::MAX as u128), 4294967295);
}

fn water_at(x: i64, y: i64) -> Particle {
    Particle::new_water(x, y, 0, 0)
}

#[test]
fn cell_ids_clamped_into_grid() {
    let g = GridParams::default();
    let mut particles = vec![
        water_at(-640 * SCALE, -360 * SCALE), // bottom-left corner
        water_at(639 * SCALE, 359 * SCALE),   // top-right cell
        water_at(-9999 * SCALE, 9999 * SCALE), // far out of bounds
        water_at(0, 0),                        // center
    ];
    compute_cell_ids(&mut particles, &g);
    assert_eq!(particles[0].cell_id, 0);
    assert_eq!(particles[1].cell_id, 63 + 35 * 64);
    // Out-of-bounds maps to a boundary cell, never out of range.
    assert_eq!(particles[2].cell_id, 0 + 35 * 64);
    assert_eq!(particles[3].cell_id, 32 + 18 * 64);
}

#[test]
fn counting_sort_reproduces_cells() {
    // Five particles in three cells; the grid is irrelevant here, so the
    // cell ids are assigned directly.
    let cells = [2usize, 0, 2, 1, 0];
    let mut particles: Vec<Particle> = Vec::new();
    for c in cells.iter() {
        let mut p = water_at(0, 0);
        p.cell_id = *c;
        particles.push(p);
    }
    let counts = count_cells(&particles, 3);
    assert_eq!(counts, vec![2, 1, 2]);

    let offsets = prefix_sum(&counts);
    assert_eq!(offsets, vec![0, 2, 3, 5]);

    let mut cursors = prefix_sum(&counts);
    let sorted = scatter(&particles, &mut cursors);
    // The scatter consumed the cursors up to each cell's end offset.
    assert_eq!(cursors, vec![2, 3, 5, 5]);
    // Re-running the prefix sum restores identical offsets.
    let restored = prefix_sum(&counts);
    assert_eq!(restored, offsets);

    // Grouped by the ranges, the permutation reproduces each cell's
    // particles exactly: cell 0 holds {1, 4}, cell 1 {3}, cell 2 {0, 2}.
    assert_eq!(sorted, vec![1, 4, 3, 0, 2]);
}

#[test]
fn density_and_pressure_exact_values() {
    let g = GridParams::default();
    let params = SimParams::default();
    let table = default_interaction_table();
    // Two water particles 5 units apart: within the 10-unit kernel radius.
    let mut particles = vec![water_at(0, 0), water_at(5 * SCALE, 0)];
    compute_cell_ids(&mut particles, &g);
    let counts = count_cells(&particles, 64 * 36);
    let mut cursors = prefix_sum(&counts);
    let sorted = scatter(&particles, &mut cursors);
    let offsets = prefix_sum(&counts);
    compute_density_pressure(
        &mut particles,
        &sorted,
        &offsets,
        &g,
        &params,
        table.sph_pressure_stiffness,
        table.pressure_cap,
    );
    // Self: mass * (1 - 0)^2 = 10.0; other: 10 * (1 - 0.5)^2 = 2.5.
    assert_eq!(particles[0].density, 125_000);
    assert_eq!(particles[1].density, 125_000);
    // Density far below target: the equation of state clamps at zero.
    assert_eq!(particles[0].pressure, 0);
}

fn plain_bond(a: usize, b: usize, rest: i64, stiffness: i64, breaking: i64) -> Bond {
    Bond {
        particle_a: a,
        particle_b: b,
        rest_length: rest,
        stiffness,
        breaking_strain: breaking,
        bond_type: 0,
        is_active: true,
    }
}

#[test]
fn bond_at_rest_length_exerts_no_force() {
    // Two particles of the same fluid type exactly rest_length apart.
    let particles = vec![water_at(0, 0), water_at(10 * SCALE, 0)];
    let mut bonds = vec![plain_bond(0, 1, 10 * SCALE, 30_000 * SCALE, 2 * SCALE)];
    let mut forces = zeroed_forces(2);
    solve_bonds(&mut bonds, &particles, &mut forces);
    assert!(bonds[0].is_active);
    assert_eq!(forces[0], Vec2 { x: 0, y: 0 });
    assert_eq!(forces[1], Vec2 { x: 0, y: 0 });
}

#[test]
fn stretched_bond_pulls_together_with_exact_magnitude() {
    // Displace one particle to 1.1 x rest_length: the spring force
    // magnitude is stiffness * 0.1 * rest_length, pulling them together.
    let particles = vec![water_at(0, 0), water_at(11 * SCALE, 0)];
    let mut bonds = vec![plain_bond(0, 1, 10 * SCALE, 30_000 * SCALE, 2 * SCALE)];
    let mut forces = zeroed_forces(2);
    solve_bonds(&mut bonds, &particles, &mut forces);
    assert!(bonds[0].is_active);
    // stiffness * (d - rest) = 30000 * 1.0 = 30000 (raw 300_000_000),
    // along +x on particle 0 (toward particle 1) and -x on particle 1.
    assert_eq!(forces[0].x, 30_000 * SCALE);
    assert_eq!(forces[0].y, 0);
    assert_eq!(forces[1].x, -30_000 * SCALE);
    assert_eq!(forces[1].y, 0);
}

#[test]
fn overstrained_bond_breaks_permanently_and_stays_inert() {
    // Strain 3.0 exceeds the breaking strain 2.0: the bond breaks and
    // contributes nothing, in this frame and every later one.
    let far = vec![water_at(0, 0), water_at(40 * SCALE, 0)];
    let mut bonds = vec![plain_bond(0, 1, 10 * SCALE, 30_000 * SCALE, 2 * SCALE)];
    let mut forces = zeroed_forces(2);
    solve_bonds(&mut bonds, &far, &mut forces);
    assert!(!bonds[0].is_active);
    assert_eq!(forces[0], Vec2 { x: 0, y: 0 });
    assert_eq!(forces[1], Vec2 { x: 0, y: 0 });

    // Even back at rest length, a broken bond never reactivates.
    let near = vec![water_at(0, 0), water_at(10 * SCALE, 0)];
    let mut forces2 = zeroed_forces(2);
    solve_bonds(&mut bonds, &near, &mut forces2);
    assert!(!bonds[0].is_active);
    assert_eq!(forces2[0], Vec2 { x: 0, y: 0 });
    assert_eq!(forces2[1], Vec2 { x: 0, y: 0 });
}

#[test]
fn integrator_keeps_particles_in_bounds_and_reflects() {
    let params = SimParams::default();
    // A particle racing right at the boundary leaves the bounds in one
    // step; it is clamped to the edge and its velocity component reflected.
    let mut particles = vec![Particle::new_water(639 * SCALE, 0, 1000 * SCALE, 0)];
    let forces = zeroed_forces(1);
    let xsph = zeroed_forces(1);
    integrate(&mut particles, &forces, &xsph, &params, SCALE, 0);
    assert_eq!(particles[0].pos_x, 640 * SCALE);
    assert!(particles[0].vel_x < 0);
    assert!(particles[0].pos_x <= params.max_x && particles[0].pos_x >= params.min_x);
    assert!(particles[0].pos_y <= params.max_y && particles[0].pos_y >= params.min_y);
}

#[test]
fn step_keeps_every_particle_in_bounds() {
    let (particles, _) = scenario_water_only(64);
    let mut sim = Simulation::new(
        particles,
        Vec::new(),
        GridParams::default(),
        SimParams::default(),
        default_interaction_table(),
    );
    for _ in 0..10 {
        sim.step();
    }
    for p in sim.particles.iter() {
        assert!(sim.params.min_x <= p.pos_x && p.pos_x <= sim.params.max_x);
        assert!(sim.params.min_y <= p.pos_y && p.pos_y <= sim.params.max_y);
    }
}

#[test]
fn sail_control_clamps_to_range() {
    let mut control = SailControl::default();
    control.update(false, true);
    assert_eq!(control.angle, 300);
    control.update(true, false);
    assert_eq!(control.angle, 0);
    for _ in 0..100 {
        control.update(true, false);
    }
    assert_eq!(control.angle, -15_000);
    // Both keys held cancel out.
    control.update(true, true);
    assert_eq!(control.angle, -15_000);
}

#[test]
fn control_angle_reaches_parameters_clamped() {
    let (particles, _) = scenario_water_only(8);
    let mut sim = Simulation::new(
        particles,
        Vec::new(),
        GridParams::default(),
        SimParams::default(),
        default_interaction_table(),
    );
    sim.set_control_angle(99 * SCALE);
    assert_eq!(sim.params.rudder_angle, 15_000);
    sim.set_control_angle(-3000);
    assert_eq!(sim.params.rudder_angle, -3000);
}

#[test]
fn water_only_scenario_fills_exact_count() {
    let (particles, bounds) = scenario_water_only(300);
    assert_eq!(particles.len(), 300);
    assert!(bounds.is_none());
    for p in particles.iter() {
        assert_eq!(p.layer_mask, 1);
        assert_eq!(p.mass, 10 * SCALE);
        assert!(-600 * SCALE <= p.pos_x && p.pos_x < 600 * SCALE);
        assert!(-340 * SCALE <= p.pos_y && p.pos_y < 340 * SCALE);
        assert!(20 * SCALE <= p.vel_x && p.vel_x < 50 * SCALE);
        assert!(-10 * SCALE <= p.vel_y && p.vel_y < 10 * SCALE);
    }
}

#[test]
fn dry_dock_scenario_places_hull_and_excludes_water() {
    let (particles, bounds) = scenario_dry_dock(600);
    assert_eq!(particles.len(), 600);
    let (bx0, bx1, by0, by1) = bounds.expect("dry dock reports its hull box");
    // The hull lattice: 40 x 10 particles, 5 apart, starting at (-100, 100).
    assert_eq!(particles[0].pos_x, -100 * SCALE);
    assert_eq!(particles[0].pos_y, 100 * SCALE);
    assert_eq!(particles[41].pos_x, -95 * SCALE);
    assert_eq!(particles[41].pos_y, 105 * SCALE);
    for i in 0..400 {
        assert_eq!(particles[i].layer_mask, 4);
        assert_eq!(particles[i].mass, 8000 * SCALE);
    }
    // Water spawns outside the hull's exclusion box.
    for i in 400..600 {
        let p = &particles[i];
        assert_eq!(p.layer_mask, 1);
        assert!(!(bx0 < p.pos_x && p.pos_x < bx1 && by0 < p.pos_y && p.pos_y < by1));
    }
}

#[test]
fn hurricane_scenario_layers_and_wind() {
    let (particles, bounds) = scenario_hurricane(200);
    assert_eq!(particles.len(), 200);
    assert!(bounds.is_some());
    // Hull deck at water level.
    assert_eq!(particles[0].pos_x, -80 * SCALE);
    assert_eq!(particles[0].pos_y, -20 * SCALE);
    assert_eq!(particles[0].layer_mask, 4);
    assert_eq!(particles[0].z_height, 0);
    // Mast cluster one level up, centered at the origin.
    assert_eq!(particles[104].pos_x, 0);
    assert_eq!(particles[104].pos_y, 0);
    assert_eq!(particles[104].layer_mask, 16);
    assert_eq!(particles[104].z_height, SCALE);
    // Spar at mast level, sail above.
    assert_eq!(particles[109].layer_mask, 16);
    assert_eq!(particles[129].layer_mask, 8);
    assert_eq!(particles[129].z_height, 2 * SCALE);
    assert_eq!(particles[129].pos_x, 24 * SCALE);
    assert_eq!(particles[129].pos_y, -40 * SCALE);
    // Everything after the structures is wind from the left.
    for i in 149..200 {
        let p = &particles[i];
        assert_eq!(p.layer_mask, 2);
        assert_eq!(p.vel_x, 50 * SCALE);
        assert_eq!(p.vel_y, 0);
        assert!(p.pos_x < -200 * SCALE);
    }
}

#[test]
fn hurricane_with_bonds_steps_and_bonds_never_reactivate(){
    let (particles, _) = scenario_hurricane(400);
    let bonds = sailing::setup::build_bonds();
    let mut sim = Simulation::new(
        particles,
        bonds,
        GridParams::default(),
        SimParams::default(),
        default_interaction_table(),
    );
    let mut was_inactive: Vec<bool> = sim.bonds.iter().map(|b| !b.is_active).collect();
    for _ in 0..20 {
        sim.step();
        for (j, b) in sim.bonds.iter().enumerate() {
            if was_inactive[j] {
                assert!(!b.is_active, "bond {} reactivated", j);
            }
            if !b.is_active {
                was_inactive[j] = true;
            }
        }
    }
}

#[test]
fn empty_simulation_steps_without_work() {
    let mut sim = Simulation::new(
        Vec::new(),
        Vec::new(),
        GridParams::default(),
        SimParams::default(),
        default_interaction_table(),
    );
    sim.step();
    assert_eq!(sim.particles.len(), 0);
}

#[test]
fn isolated_particle_density_is_own_mass() {
    let g = GridParams::default();
    let params = SimParams::default();
    let table = default_interaction_table();
    let mut particles = vec![water_at(0, 0)];
    compute_cell_ids(&mut particles, &g);
    let counts = count_cells(&particles, 64 * 36);
    let mut cursors = prefix_sum(&counts);
    let sorted = scatter(&particles, &mut cursors);
    let offsets = prefix_sum(&counts);
    compute_density_pressure(
        &mut particles,
        &sorted,
        &offsets,
        &g,
        &params,
        table.sph_pressure_stiffness,
        table.pressure_cap,
    );
    // The only contribution is the particle's own mass at zero distance.
    assert_eq!(particles[0].density, 10 * SCALE);
}

#[test]
fn control_angle_leaves_other_parameters_untouched() {
    let (particles, _) = scenario_water_only(8);
    let mut sim = Simulation::new(
        particles,
        Vec::new(),
        GridParams::default(),
        SimParams::default(),
        default_interaction_table(),
    );
    let before = sim.params;
    sim.set_control_angle(7_000);
    assert_eq!(sim.params.rudder_angle, 7_000);
    assert_eq!(sim.params.delta_time, before.delta_time);
    assert_eq!(sim.params.gravity, before.gravity);
    assert_eq!(sim.params.smoothing_radius, before.smoothing_radius);
    assert_eq!(sim.params.target_density_water, before.target_density_water);
    assert_eq!(sim.params.target_density_air, before.target_density_air);
    assert_eq!(sim.params.min_x, before.min_x);
    assert_eq!(sim.params.max_x, before.max_x);
    assert_eq!(sim.params.min_y, before.min_y);
    assert_eq!(sim.params.max_y, before.max_y);
}
