//! Physics regression tests: the interaction parameters stay in ranges
//! that produce stable, non-explosive behavior, and a headless run of the
//! full pipeline keeps every velocity bounded.

use sailing::fixed::SCALE;
use sailing::physics_config::{default_interaction_table, InteractionTable, MaterialType};
use sailing::resources::{GridParams, Particle, SimParams};
use sailing::setup::BOND_COUNT;
use sailing::simulation::Simulation;

/// Maximum velocity threshold - anything above this is an "explosion".
const EXPLOSION_VELOCITY_THRESHOLD: i64 = 500 * SCALE;

/// Static sanity checks on the interaction table parameters.
fn assert_interaction_table_stable(table: &InteractionTable) {
    assert!(table.sph_viscosity > 0, "Viscosity must be positive");
    assert!(table.sph_viscosity < 100 * SCALE, "Viscosity too high - will cause instability");

    assert!(table.sph_pressure_stiffness > 0, "Pressure stiffness must be positive");
    assert!(table.sph_pressure_stiffness < 10000 * SCALE, "Pressure stiffness too high");

    assert!(table.velocity_damping * 10 > 9 * SCALE, "Damping too low - energy will accumulate");
    assert!(table.velocity_damping <= SCALE, "Damping must be <= 1.0");

    assert!(table.pressure_cap > 0, "Pressure cap must be positive");
    assert!(
        table.xsph_epsilon >= 0 && table.xsph_epsilon <= SCALE,
        "XSPH epsilon must be 0-1"
    );

    for i in 0..25 {
        let profile = &table.profiles[i];

        assert!(
            profile.repulsion_strength >= 0,
            "Profile {} has negative repulsion strength",
            i
        );

        if profile.repulsion_strength > 0 {
            assert!(profile.repulsion_radius > 0, "Profile {} has strength but no radius", i);
        }

        assert!(
            profile.repulsion_ramp <= 1,
            "Profile {} has invalid ramp type {}",
            i,
            profile.repulsion_ramp
        );
    }
}

#[test]
fn test_default_interaction_table_stability() {
    let table = default_interaction_table();
    assert_interaction_table_stable(&table);
}

#[test]
fn test_no_explosion_water_hull_repulsion() {
    let table = default_interaction_table();

    let water_hull_idx = InteractionTable::index(MaterialType::Water, MaterialType::Hull);
    let profile = &table.profiles[water_hull_idx];

    assert_eq!(profile.repulsion_ramp, 1, "Water-Hull should use quadratic ramp");

    assert!(
        profile.repulsion_strength <= 500_000 * SCALE,
        "Water-Hull repulsion {} is too strong (max 500k)",
        profile.repulsion_strength
    );
}

#[test]
fn test_no_explosion_air_hull_repulsion() {
    let table = default_interaction_table();

    let air_hull_idx = InteractionTable::index(MaterialType::Air, MaterialType::Hull);
    let profile = &table.profiles[air_hull_idx];

    assert!(
        profile.repulsion_strength <= 5_000_000 * SCALE,
        "Air-Hull repulsion {} is too strong (max 5M)",
        profile.repulsion_strength
    );

    assert!(
        profile.repulsion_radius >= 10 * SCALE,
        "Air-Hull radius {} is too small",
        profile.repulsion_radius
    );
}

#[test]
fn test_no_explosion_air_sail_repulsion() {
    let table = default_interaction_table();

    let air_sail_idx = InteractionTable::index(MaterialType::Air, MaterialType::Sail);
    let profile = &table.profiles[air_sail_idx];

    assert!(
        profile.repulsion_strength <= 100_000 * SCALE,
        "Air-Sail repulsion {} is too strong (max 100k)",
        profile.repulsion_strength
    );

    assert_eq!(profile.repulsion_ramp, 1, "Air-Sail should use quadratic ramp");
}

#[test]
fn test_symmetric_interactions() {
    let table = default_interaction_table();

    for a in 0..5 {
        for b in 0..5 {
            let idx_ab = a * 5 + b;
            let idx_ba = b * 5 + a;

            let ab = &table.profiles[idx_ab];
            let ba = &table.profiles[idx_ba];

            assert_eq!(ab.repulsion_strength, ba.repulsion_strength, "{} != {} strength", idx_ab, idx_ba);
            assert_eq!(ab.repulsion_radius, ba.repulsion_radius, "{} != {} radius", idx_ab, idx_ba);
            assert_eq!(ab.repulsion_ramp, ba.repulsion_ramp, "{} != {} ramp", idx_ab, idx_ba);
        }
    }
}

#[test]
fn test_same_type_no_direct_repulsion() {
    let table = default_interaction_table();

    for t in 0..5 {
        let idx = t * 5 + t;
        let profile = &table.profiles[idx];

        assert_eq!(
            profile.repulsion_strength, 0,
            "pair {} should have zero direct repulsion (uses SPH instead)",
            idx
        );
    }
}

#[test]
fn test_global_sph_parameters_bounded() {
    let table = default_interaction_table();

    assert!(
        table.velocity_damping * 100 >= 99 * SCALE,
        "Damping {} too low - risk of energy explosion",
        table.velocity_damping
    );

    assert!(table.pressure_cap <= 10000 * SCALE, "Pressure cap {} too high", table.pressure_cap);
}

/// Energy non-explosion: a scripted dense cluster of water with bounded
/// initial velocity, run headlessly for 500 frames, never exceeds the
/// explosion velocity threshold.
#[test]
fn test_headless_run_velocities_bounded() {
    // A 10 x 10 water block, 5 units apart, drifting right at 20 units.
    let mut particles: Vec<Particle> = Vec::new();
    for y in 0..10 {
        for x in 0..10 {
            particles.push(Particle::new_water(
                x * 5 * SCALE,
                y * 5 * SCALE,
                20 * SCALE,
                0,
            ));
        }
    }
    let bonds = Vec::new();
    let mut sim = Simulation::new(
        particles,
        bonds,
        GridParams::default(),
        SimParams::default(),
        default_interaction_table(),
    );
    for _ in 0..500 {
        sim.step();
    }
    for p in sim.particles.iter() {
        let v2 = (p.vel_x as i128) * (p.vel_x as i128) + (p.vel_y as i128) * (p.vel_y as i128);
        let cap = (EXPLOSION_VELOCITY_THRESHOLD as i128) * (EXPLOSION_VELOCITY_THRESHOLD as i128);
        assert!(v2 <= cap, "velocity exploded: ({}, {})", p.vel_x, p.vel_y);
    }
}

/// The standard bond list fills its fixed capacity with well-formed bonds.
#[test]
fn test_build_bonds_capacity_and_padding() {
    let bonds = sailing::setup::build_bonds();
    assert_eq!(bonds.len(), BOND_COUNT);
    // The first hull bond ties the first two lattice particles.
    assert_eq!(bonds[0].particle_a, 0);
    assert_eq!(bonds[0].particle_b, 1);
    assert_eq!(bonds[0].rest_length, 5 * SCALE);
    assert!(bonds[0].is_active);
    // The tail is inactive padding.
    assert!(!bonds[BOND_COUNT - 1].is_active);
    assert_eq!(bonds[BOND_COUNT - 1].stiffness, 0);
}

/// The generated bond list carries the mast-hull fuse and keeps every
/// active bond structurally sound.
#[test]
fn test_build_bonds_fuse_and_active_shape() {
    let bonds = sailing::setup::build_bonds();
    let fuse = bonds.iter().find(|b| b.particle_a == 50 && b.particle_b == 104);
    let fuse = fuse.expect("the mast-hull fuse bond is present");
    assert!(fuse.is_active);
    assert_eq!(fuse.rest_length, 1_000);
    assert_eq!(fuse.stiffness, 1_000_000_000);
    assert_eq!(fuse.breaking_strain, 100_000);
    assert_eq!(fuse.bond_type, 3);

    let mut seen_padding = false;
    for b in bonds.iter() {
        if b.is_active {
            assert!(!seen_padding, "an active bond follows the padding tail");
            assert_ne!(b.particle_a, b.particle_b);
            assert!(b.particle_a < 400 && b.particle_b < 400);
            assert!(b.stiffness > 0 && b.rest_length > 0 && b.breaking_strain > 0);
        } else {
            seen_padding = true;
            assert_eq!(b.stiffness, 0);
            assert_eq!(b.rest_length, 0);
            assert_eq!(b.breaking_strain, 0);
            assert_eq!(b.particle_a, 0);
            assert_eq!(b.particle_b, 0);
        }
    }
}
