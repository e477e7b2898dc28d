//! Physics configuration with per-material-pair interaction parameters.
//!
//! All interaction parameters are defined here in one table, built once at
//! startup and read-only thereafter. The table is symmetric, and same-type
//! pairs carry no direct repulsion (same-type interaction is handled by the
//! SPH pressure and viscosity terms instead).

use vstd::prelude::*;

verus! {

use crate::fixed::{fx_ok, SCALE};
use crate::resources::{LAYER_WATER, LAYER_AIR, LAYER_HULL, LAYER_SAIL};

/// Number of material types; the interaction table is this many rows square.
pub const MATERIAL_COUNT: usize = 5;

/// Material type of a particle, resolved from its layer bitmask.
#[derive(Clone, Copy, Debug, PartialEq, Eq, Structural)]
pub enum MaterialType {
    /// Fluid: water.
    Water,
    /// Fluid: air.
    Air,
    /// Solid: hull.
    Hull,
    /// Solid: sail.
    Sail,
    /// Solid: mast.
    Mast,
}

/// Row (or column) index of a material in the interaction table.
pub open spec fn material_index(m: MaterialType) -> int {
    match m {
        MaterialType::Water => 0,
        MaterialType::Air => 1,
        MaterialType::Hull => 2,
        MaterialType::Sail => 3,
        MaterialType::Mast => 4,
    }
}

/// The material named by a layer bitmask: the lowest of the five material
/// bits that is set, and mast when none of the first four is.
pub open spec fn spec_from_layer_mask(mask: u32) -> MaterialType {
    if mask & 1 != 0 {
        MaterialType::Water
    } else if mask & 2 != 0 {
        MaterialType::Air
    } else if mask & 4 != 0 {
        MaterialType::Hull
    } else if mask & 8 != 0 {
        MaterialType::Sail
    } else {
        MaterialType::Mast
    }
}

impl MaterialType {
    /// Resolve a particle's layer bitmask to its material type.
    pub fn from_layer_mask(mask: u32) -> (m: MaterialType)
        ensures
            m == spec_from_layer_mask(mask),
    {
        if mask & LAYER_WATER != 0 {
            MaterialType::Water
        } else if mask & LAYER_AIR != 0 {
            MaterialType::Air
        } else if mask & LAYER_HULL != 0 {
            MaterialType::Hull
        } else if mask & LAYER_SAIL != 0 {
            MaterialType::Sail
        } else {
            MaterialType::Mast
        }
    }

    /// Exec counterpart of [`material_index`].
    pub fn index_of(self) -> (i: usize)
        ensures
            i as int == material_index(self),
            i < MATERIAL_COUNT,
    {
        match self {
            MaterialType::Water => 0,
            MaterialType::Air => 1,
            MaterialType::Hull => 2,
            MaterialType::Sail => 3,
            MaterialType::Mast => 4,
        }
    }
}

/// Repulsion ramp selector: immediate stiff resistance, F = k * (1 - r/r0).
pub const RAMP_LINEAR: u32 = 0;

/// Repulsion ramp selector: smooth resistance, F = k * (1 - r/r0)^2.
pub const RAMP_QUADRATIC: u32 = 1;

/// Interaction profile between two material types: how particles of one
/// material repel particles of the other.
#[derive(Clone, Copy, Debug, PartialEq, Eq, Structural)]
pub struct InteractionProfile {
    /// Repulsion force magnitude (raw fixed-point; higher pushes harder).
    pub repulsion_strength: i64,
    /// Distance threshold: the force applies when the pair is closer than
    /// this radius (raw fixed-point).
    pub repulsion_radius: i64,
    /// Ramp selector: [`RAMP_LINEAR`] or [`RAMP_QUADRATIC`].
    pub repulsion_ramp: u32,
}

impl InteractionProfile {
    /// Nonnegative strength within range, a radius within range that is
    /// positive whenever the strength is, and a valid ramp selector.
    pub open spec fn wf(self) -> bool {
        &&& 0 <= self.repulsion_strength
        &&& fx_ok(self.repulsion_strength as int)
        &&& 0 <= self.repulsion_radius
        &&& fx_ok(self.repulsion_radius as int)
        &&& self.repulsion_strength > 0 ==> self.repulsion_radius > 0
        &&& self.repulsion_ramp == RAMP_LINEAR || self.repulsion_ramp == RAMP_QUADRATIC
    }

    /// A new interaction profile.
    pub fn new(strength: i64, radius: i64, ramp: u32) -> (p: InteractionProfile)
        requires
            0 <= strength,
            fx_ok(strength as int),
            0 <= radius,
            fx_ok(radius as int),
            strength > 0 ==> radius > 0,
            ramp == RAMP_LINEAR || ramp == RAMP_QUADRATIC,
        ensures
            p.wf(),
            p.repulsion_strength == strength,
            p.repulsion_radius == radius,
            p.repulsion_ramp == ramp,
    {
        InteractionProfile { repulsion_strength: strength, repulsion_radius: radius, repulsion_ramp: ramp }
    }

    /// No interaction between two material types.
    pub fn none() -> (p: InteractionProfile)
        ensures
            p.wf(),
            p.repulsion_strength == 0,
            p.repulsion_radius == 0,
            p.repulsion_ramp == RAMP_QUADRATIC,
    {
        InteractionProfile { repulsion_strength: 0, repulsion_radius: 0, repulsion_ramp: RAMP_QUADRATIC }
    }
}

impl Default for InteractionProfile {
    /// Same as [`InteractionProfile::none`].
    fn default() -> (p: InteractionProfile)
        ensures
            p.wf(),
            p.repulsion_strength == 0,
            p.repulsion_radius == 0,
            p.repulsion_ramp == RAMP_QUADRATIC,
    {
        InteractionProfile::none()
    }
}

/// Full interaction table for all material pairs, row-major by material
/// index, together with the global SPH constants.
#[derive(Clone, Debug)]
pub struct InteractionTable {
    /// The 5 x 5 matrix of interaction profiles, row-major.
    pub profiles: Vec<InteractionProfile>,
    /// Viscosity coefficient (fluid thickness).
    pub sph_viscosity: i64,
    /// Pressure stiffness of the equation of state.
    pub sph_pressure_stiffness: i64,
    /// Close-range repulsion strength (configured tensile correction).
    pub sph_close_repulsion: i64,
    /// XSPH velocity-smoothing blend factor.
    pub xsph_epsilon: i64,
    /// Per-frame multiplicative velocity damping (at most one).
    pub velocity_damping: i64,
    /// Pressure cap that the equation of state clamps to.
    pub pressure_cap: i64,
}

impl InteractionTable {
    /// A full square matrix of well-formed profiles, and global constants in
    /// their stable ranges.
    pub open spec fn wf(self) -> bool {
        &&& self.profiles@.len() == MATERIAL_COUNT * MATERIAL_COUNT
        &&& forall|i: int| 0 <= i < self.profiles@.len() ==> #[trigger] self.profiles@[i].wf()
        &&& 0 < self.sph_viscosity
        &&& fx_ok(self.sph_viscosity as int)
        &&& 0 < self.sph_pressure_stiffness
        &&& fx_ok(self.sph_pressure_stiffness as int)
        &&& 0 <= self.sph_close_repulsion
        &&& fx_ok(self.sph_close_repulsion as int)
        &&& 0 <= self.xsph_epsilon <= SCALE
        &&& 0 < self.velocity_damping <= SCALE
        &&& 0 < self.pressure_cap
        &&& fx_ok(self.pressure_cap as int)
    }

    /// The profiles at (a, b) and (b, a) agree for every material pair.
    pub open spec fn symmetric(self) -> bool {
        forall|a: int, b: int|
            0 <= a < MATERIAL_COUNT && 0 <= b < MATERIAL_COUNT ==> #[trigger] self.profiles@[
                a * MATERIAL_COUNT + b
            ] == self.profiles@[b * MATERIAL_COUNT + a]
    }

    /// Every same-type pair carries zero direct repulsion.
    pub open spec fn same_type_no_repulsion(self) -> bool {
        forall|a: int|
            0 <= a < MATERIAL_COUNT ==> #[trigger] self.profiles@[
                a * MATERIAL_COUNT + a
            ].repulsion_strength == 0
    }

    /// The profile slot for an ordered material pair.
    pub open spec fn spec_index(a: MaterialType, b: MaterialType) -> int {
        material_index(a) * MATERIAL_COUNT + material_index(b)
    }

    /// Flat index of the profile for the ordered pair (a, b).
    pub fn index(a: MaterialType, b: MaterialType) -> (i: usize)
        ensures
            i as int == Self::spec_index(a, b),
            i < MATERIAL_COUNT * MATERIAL_COUNT,
    {
        a.index_of() * MATERIAL_COUNT + b.index_of()
    }

    /// Set the interaction profile for a material pair, in both orders, so
    /// that the table stays symmetric.
    pub fn set(&mut self, a: MaterialType, b: MaterialType, profile: InteractionProfile)
        requires
            old(self).profiles@.len() == MATERIAL_COUNT * MATERIAL_COUNT,
        ensures
            final(self).profiles@.len() == old(self).profiles@.len(),
            final(self).profiles@[Self::spec_index(a, b)] == profile,
            final(self).profiles@[Self::spec_index(b, a)] == profile,
            forall|i: int|
                0 <= i < old(self).profiles@.len() && i != Self::spec_index(a, b) && i
                    != Self::spec_index(b, a) ==> final(self).profiles@[i] == old(
                self,
            ).profiles@[i],
            final(self).sph_viscosity == old(self).sph_viscosity,
            final(self).sph_pressure_stiffness == old(self).sph_pressure_stiffness,
            final(self).sph_close_repulsion == old(self).sph_close_repulsion,
            final(self).xsph_epsilon == old(self).xsph_epsilon,
            final(self).velocity_damping == old(self).velocity_damping,
            final(self).pressure_cap == old(self).pressure_cap,
    {
        let idx_ab = Self::index(a, b);
        let idx_ba = Self::index(b, a);
        self.profiles.set(idx_ab, profile);
        self.profiles.set(idx_ba, profile);
    }

    /// The interaction profile for the ordered pair (a, b).
    pub fn get(&self, a: MaterialType, b: MaterialType) -> (p: &InteractionProfile)
        requires
            self.profiles@.len() == MATERIAL_COUNT * MATERIAL_COUNT,
        ensures
            *p == self.profiles@[Self::spec_index(a, b)],
    {
        let i = Self::index(a, b);
        &self.profiles[i]
    }
}

/// The canonical physics configuration of the simulation: symmetric, with no
/// direct same-type repulsion, and with every global constant in the range
/// that keeps the integration stable.
pub fn default_interaction_table() -> (t: InteractionTable)
    ensures
        t.wf(),
        t.symmetric(),
        t.same_type_no_repulsion(),
        t.sph_viscosity == 2 * SCALE,
        t.sph_pressure_stiffness == 100 * SCALE,
        t.sph_close_repulsion == 50 * SCALE,
        t.xsph_epsilon == SCALE / 2,
        t.velocity_damping == 9990,
        t.pressure_cap == 2000 * SCALE,
        0 < t.sph_viscosity < 100 * SCALE,
        0 < t.sph_pressure_stiffness < 10000 * SCALE,
        99 * SCALE <= 100 * t.velocity_damping <= 100 * SCALE,
        0 <= t.xsph_epsilon <= SCALE,
        0 < t.pressure_cap,
        t.profiles@[InteractionTable::spec_index(MaterialType::Water, MaterialType::Hull)].repulsion_strength
            == 100_000 * SCALE,
        t.profiles@[InteractionTable::spec_index(MaterialType::Water, MaterialType::Hull)].repulsion_radius
            == 12 * SCALE,
        t.profiles@[InteractionTable::spec_index(MaterialType::Water, MaterialType::Hull)].repulsion_ramp
            == RAMP_QUADRATIC,
        t.profiles@[InteractionTable::spec_index(MaterialType::Air, MaterialType::Hull)].repulsion_strength
            == 2_000_000 * SCALE,
        t.profiles@[InteractionTable::spec_index(MaterialType::Air, MaterialType::Hull)].repulsion_radius
            == 20 * SCALE,
        t.profiles@[InteractionTable::spec_index(MaterialType::Air, MaterialType::Hull)].repulsion_ramp
            == RAMP_LINEAR,
        t.profiles@[InteractionTable::spec_index(MaterialType::Air, MaterialType::Sail)].repulsion_strength
            == 25_000 * SCALE,
        t.profiles@[InteractionTable::spec_index(MaterialType::Air, MaterialType::Sail)].repulsion_radius
            == 15 * SCALE,
        t.profiles@[InteractionTable::spec_index(MaterialType::Air, MaterialType::Sail)].repulsion_ramp
            == RAMP_QUADRATIC,
        t.profiles@[InteractionTable::spec_index(MaterialType::Water, MaterialType::Sail)].repulsion_strength
            == 50_000 * SCALE,
        t.profiles@[InteractionTable::spec_index(MaterialType::Water, MaterialType::Sail)].repulsion_radius
            == 10 * SCALE,
        t.profiles@[InteractionTable::spec_index(MaterialType::Water, MaterialType::Sail)].repulsion_ramp
            == RAMP_QUADRATIC,
        forall|i: int|
            0 <= i < t.profiles@.len() && i != InteractionTable::spec_index(
                MaterialType::Water,
                MaterialType::Hull,
            ) && i != InteractionTable::spec_index(MaterialType::Hull, MaterialType::Water) && i
                != InteractionTable::spec_index(MaterialType::Air, MaterialType::Hull) && i
                != InteractionTable::spec_index(MaterialType::Hull, MaterialType::Air) && i
                != InteractionTable::spec_index(MaterialType::Air, MaterialType::Sail) && i
                != InteractionTable::spec_index(MaterialType::Sail, MaterialType::Air) && i
                != InteractionTable::spec_index(MaterialType::Water, MaterialType::Sail) && i
                != InteractionTable::spec_index(MaterialType::Sail, MaterialType::Water)
                ==> #[trigger] t.profiles@[i].repulsion_strength == 0,
{
    let mut profiles: Vec<InteractionProfile> = Vec::new();
    let mut i: usize = 0;
    while i < MATERIAL_COUNT * MATERIAL_COUNT
        invariant
            i <= MATERIAL_COUNT * MATERIAL_COUNT,
            profiles@.len() == i,
            forall|j: int|
                0 <= j < i ==> #[trigger] profiles@[j] == (InteractionProfile {
                    repulsion_strength: 0,
                    repulsion_radius: 0,
                    repulsion_ramp: RAMP_QUADRATIC,
                }),
        decreases MATERIAL_COUNT * MATERIAL_COUNT - i,
    {
        profiles.push(InteractionProfile::none());
        i = i + 1;
    }
    let mut table = InteractionTable {
        profiles,
        sph_viscosity: 2 * SCALE,
        sph_pressure_stiffness: 100 * SCALE,
        sph_close_repulsion: 50 * SCALE,
        xsph_epsilon: SCALE / 2,
        velocity_damping: 9990,
        pressure_cap: 2000 * SCALE,
    };
    // Water <-> Hull: soft buffer; water settles against the hull stably.
    table.set(
        MaterialType::Water,
        MaterialType::Hull,
        InteractionProfile::new(100_000 * SCALE, 12 * SCALE, RAMP_QUADRATIC),
    );
    // Air <-> Hull: stiff wall; fast wind must not tunnel through.
    table.set(
        MaterialType::Air,
        MaterialType::Hull,
        InteractionProfile::new(2_000_000 * SCALE, 20 * SCALE, RAMP_LINEAR),
    );
    // Air <-> Sail: aerodynamic; wind deflects off the sail smoothly.
    table.set(
        MaterialType::Air,
        MaterialType::Sail,
        InteractionProfile::new(25_000 * SCALE, 15 * SCALE, RAMP_QUADRATIC),
    );
    // Water <-> Sail: minimal interaction; the sail sits above the water.
    table.set(
        MaterialType::Water,
        MaterialType::Sail,
        InteractionProfile::new(50_000 * SCALE, 10 * SCALE, RAMP_QUADRATIC),
    );
    table
}

} // verus!
