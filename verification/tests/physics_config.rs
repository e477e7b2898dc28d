//! Tests of the material model and the interaction table.

use sailing::fixed::SCALE;
use sailing::physics_config::{
    default_interaction_table, InteractionTable, MaterialType, RAMP_LINEAR, RAMP_QUADRATIC,
};

#[test]
fn material_type_from_layer_mask() {
    assert_eq!(MaterialType::from_layer_mask(1), MaterialType::Water);
    assert_eq!(MaterialType::from_layer_mask(2), MaterialType::Air);
    assert_eq!(MaterialType::from_layer_mask(4), MaterialType::Hull);
    assert_eq!(MaterialType::from_layer_mask(8), MaterialType::Sail);
    assert_eq!(MaterialType::from_layer_mask(16), MaterialType::Mast);
}

#[test]
fn interaction_table_symmetric() {
    let table = default_interaction_table();

    let wh = table.get(MaterialType::Water, MaterialType::Hull);
    let wh_strength = wh.repulsion_strength;
    let hw = table.get(MaterialType::Hull, MaterialType::Water);
    assert_eq!(wh_strength, hw.repulsion_strength);
}

#[test]
fn interaction_table_index_layout() {
    // Row-major layout: (a, b) stands at a * 5 + b.
    assert_eq!(InteractionTable::index(MaterialType::Water, MaterialType::Hull), 2);
    assert_eq!(InteractionTable::index(MaterialType::Hull, MaterialType::Water), 10);
    assert_eq!(InteractionTable::index(MaterialType::Mast, MaterialType::Mast), 24);
}

#[test]
fn default_table_known_profiles() {
    let table = default_interaction_table();

    let wh = table.get(MaterialType::Water, MaterialType::Hull);
    assert_eq!(wh.repulsion_strength, 100_000 * SCALE);
    assert_eq!(wh.repulsion_radius, 12 * SCALE);
    assert_eq!(wh.repulsion_ramp, RAMP_QUADRATIC);

    let ah = table.get(MaterialType::Air, MaterialType::Hull);
    assert_eq!(ah.repulsion_strength, 2_000_000 * SCALE);
    assert_eq!(ah.repulsion_radius, 20 * SCALE);
    assert_eq!(ah.repulsion_ramp, RAMP_LINEAR);

    // Mast pairs are fully isolated: bonds alone hold the mast.
    let wm = table.get(MaterialType::Water, MaterialType::Mast);
    assert_eq!(wm.repulsion_strength, 0);
}

#[test]
fn set_updates_both_orders() {
    let mut table = default_interaction_table();
    let profile = sailing::physics_config::InteractionProfile::new(7 * SCALE, 3 * SCALE, RAMP_LINEAR);
    table.set(MaterialType::Water, MaterialType::Mast, profile);
    assert_eq!(table.get(MaterialType::Water, MaterialType::Mast).repulsion_strength, 7 * SCALE);
    assert_eq!(table.get(MaterialType::Mast, MaterialType::Water).repulsion_strength, 7 * SCALE);
    assert_eq!(table.get(MaterialType::Mast, MaterialType::Water).repulsion_radius, 3 * SCALE);
}
