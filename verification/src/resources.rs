//! Data buffers of the simulation: particles, grid geometry and the global
//! simulation parameters.
//!
//! All scalar quantities are fixed-point raw values (see [`crate::fixed`]).

use vstd::prelude::*;

verus! {

use crate::fixed::{fx_ok, SCALE, SAT};

/// Layer mask bit identifying a water particle.
pub const LAYER_WATER: u32 = 1;

/// Layer mask bit identifying an air particle.
pub const LAYER_AIR: u32 = 2;

/// Layer mask bit identifying a hull particle.
pub const LAYER_HULL: u32 = 4;

/// Layer mask bit identifying a sail particle.
pub const LAYER_SAIL: u32 = 8;

/// Layer mask bit identifying a mast particle.
pub const LAYER_MAST: u32 = 16;

/// The fundamental particle of the simulation. All movement results from
/// SPH pressure/viscosity terms, table repulsion, or bond spring forces.
#[derive(Clone, Copy, Debug, PartialEq, Eq, Structural)]
pub struct Particle {
    /// Position, x component (raw fixed-point world coordinate).
    pub pos_x: i64,
    /// Position, y component.
    pub pos_y: i64,
    /// Velocity, x component.
    pub vel_x: i64,
    /// Velocity, y component.
    pub vel_y: i64,
    /// Mass constant (raw fixed-point, positive).
    pub mass: i64,
    /// Density, recomputed by the density pass every frame.
    pub density: i64,
    /// Pressure, recomputed by the density pass every frame.
    pub pressure: i64,
    /// Logical layer height of the 2.5D scene, carried for readers of the
    /// buffer. Cross-material interaction is gated by the interaction
    /// table's pair profiles (an isolated material carries inert profiles),
    /// not by comparing layer heights: air and sail sit at different
    /// heights yet must interact.
    pub z_height: i64,
    /// Bitmask naming the material; exactly one meaningful bit is set.
    pub layer_mask: u32,
    /// Spatial grid cell, recomputed by the hashing pass every frame.
    pub cell_id: usize,
}

impl Particle {
    /// Position, velocity, mass and layer height lie in the representable
    /// range and the mass is positive; the layer mask names exactly one of
    /// the five materials. (Density and pressure are recomputed every frame
    /// and carry no invariant of their own.)
    pub open spec fn wf(self) -> bool {
        &&& fx_ok(self.pos_x as int)
        &&& fx_ok(self.pos_y as int)
        &&& fx_ok(self.vel_x as int)
        &&& fx_ok(self.vel_y as int)
        &&& fx_ok(self.mass as int)
        &&& self.mass > 0
        &&& fx_ok(self.z_height as int)
        &&& one_layer_bit(self.layer_mask)
    }

    /// A new water particle at the given position with the given velocity.
    pub fn new_water(pos_x: i64, pos_y: i64, vel_x: i64, vel_y: i64) -> (p: Particle)
        requires
            fx_ok(pos_x as int),
            fx_ok(pos_y as int),
            fx_ok(vel_x as int),
            fx_ok(vel_y as int),
        ensures
            p.wf(),
            p.pos_x == pos_x,
            p.pos_y == pos_y,
            p.vel_x == vel_x,
            p.vel_y == vel_y,
            p.mass == 10 * SCALE,
            p.density == 0,
            p.pressure == 0,
            p.z_height == 0,
            p.layer_mask == LAYER_WATER,
            p.cell_id == 0,
    {
        Particle {
            pos_x,
            pos_y,
            vel_x,
            vel_y,
            mass: 10 * SCALE,
            density: 0,
            pressure: 0,
            z_height: 0,
            layer_mask: LAYER_WATER,
            cell_id: 0,
        }
    }

    /// A new air particle at the given position with the given velocity.
    pub fn new_air(pos_x: i64, pos_y: i64, vel_x: i64, vel_y: i64) -> (p: Particle)
        requires
            fx_ok(pos_x as int),
            fx_ok(pos_y as int),
            fx_ok(vel_x as int),
            fx_ok(vel_y as int),
        ensures
            p.wf(),
            p.pos_x == pos_x,
            p.pos_y == pos_y,
            p.vel_x == vel_x,
            p.vel_y == vel_y,
            p.mass == SCALE,
            p.density == 0,
            p.pressure == 0,
            p.z_height == 0,
            p.layer_mask == LAYER_AIR,
            p.cell_id == 0,
    {
        Particle {
            pos_x,
            pos_y,
            vel_x,
            vel_y,
            mass: SCALE,
            density: 0,
            pressure: 0,
            z_height: 0,
            layer_mask: LAYER_AIR,
            cell_id: 0,
        }
    }
}

/// A new mast particle: heavy structural wood, moved by bonds alone.
pub fn new_mast_particle(pos_x: i64, pos_y: i64) -> (p: Particle)
    requires
        fx_ok(pos_x as int),
        fx_ok(pos_y as int),
    ensures
        p.wf(),
        p.pos_x == pos_x,
        p.pos_y == pos_y,
        p.vel_x == 0,
        p.vel_y == 0,
        p.mass == 100 * SCALE,
        p.density == 0,
        p.pressure == 0,
        p.layer_mask == LAYER_MAST,
        p.z_height == 0,
        p.cell_id == 0,
{
    Particle {
        pos_x,
        pos_y,
        vel_x: 0,
        vel_y: 0,
        mass: 100 * SCALE,
        density: 0,
        pressure: 0,
        z_height: 0,
        layer_mask: LAYER_MAST,
        cell_id: 0,
    }
}

/// A new sail particle: light cloth, carried by its bonds and the wind.
pub fn new_sail_particle(pos_x: i64, pos_y: i64) -> (p: Particle)
    requires
        fx_ok(pos_x as int),
        fx_ok(pos_y as int),
    ensures
        p.wf(),
        p.pos_x == pos_x,
        p.pos_y == pos_y,
        p.vel_x == 0,
        p.vel_y == 0,
        p.mass == 2 * SCALE,
        p.density == 0,
        p.pressure == 0,
        p.layer_mask == LAYER_SAIL,
        p.z_height == 0,
        p.cell_id == 0,
{
    Particle {
        pos_x,
        pos_y,
        vel_x: 0,
        vel_y: 0,
        mass: 2 * SCALE,
        density: 0,
        pressure: 0,
        z_height: 0,
        layer_mask: LAYER_SAIL,
        cell_id: 0,
    }
}

/// A 2D fixed-point vector, used for the per-particle force accumulator.
#[derive(Clone, Copy, Debug, PartialEq, Eq, Structural)]
pub struct Vec2 {
    /// x component (raw fixed-point).
    pub x: i64,
    /// y component (raw fixed-point).
    pub y: i64,
}

/// Whether exactly one of the five material bits is set, and no other bit.
pub open spec fn one_layer_bit(mask: u32) -> bool {
    mask == LAYER_WATER || mask == LAYER_AIR || mask == LAYER_HULL || mask == LAYER_SAIL
        || mask == LAYER_MAST
}

/// Grid geometry for spatial indexing. Fixed for the whole run.
#[derive(Clone, Copy, Debug, PartialEq, Eq, Structural)]
pub struct GridParams {
    /// Edge length of a square cell (raw fixed-point; at least twice the
    /// smoothing radius).
    pub cell_size: i64,
    /// Number of cells along x.
    pub grid_width: usize,
    /// Number of cells along y.
    pub grid_height: usize,
    /// World x coordinate of the grid's left edge.
    pub grid_origin_x: i64,
    /// World y coordinate of the grid's bottom edge.
    pub grid_origin_y: i64,
}

impl GridParams {
    /// Positive cell size, a nonempty grid, and a cell-count product that
    /// stays comfortably within the index range.
    pub open spec fn wf(self) -> bool {
        &&& self.cell_size > 0
        &&& fx_ok(self.cell_size as int)
        &&& fx_ok(self.grid_origin_x as int)
        &&& fx_ok(self.grid_origin_y as int)
        &&& 0 < self.grid_width <= 0xffff
        &&& 0 < self.grid_height <= 0xffff
    }

    /// Total number of grid cells.
    pub open spec fn cell_count(self) -> int {
        self.grid_width * self.grid_height
    }
}

impl Default for GridParams {
    /// The default 1280 x 720 world split into 20-unit cells (64 x 36 grid).
    fn default() -> (g: GridParams)
        ensures
            g.wf(),
            g.cell_size == 20 * SCALE,
            g.grid_width == 64,
            g.grid_height == 36,
            g.grid_origin_x == -640 * SCALE,
            g.grid_origin_y == -360 * SCALE,
    {
        GridParams {
            cell_size: 20 * SCALE,
            grid_width: 64,
            grid_height: 36,
            grid_origin_x: -640 * SCALE,
            grid_origin_y: -360 * SCALE,
        }
    }
}

/// Global simulation parameters, refreshed from outside once per frame (the
/// control angle) and otherwise constant.
#[derive(Clone, Copy, Debug, PartialEq, Eq, Structural)]
pub struct SimParams {
    /// Integration time step.
    pub delta_time: i64,
    /// Gravity acceleration (negative means downward).
    pub gravity: i64,
    /// SPH smoothing radius h.
    pub smoothing_radius: i64,
    /// Target density for water particles.
    pub target_density_water: i64,
    /// Target density for air particles.
    pub target_density_air: i64,
    /// Wave-height threshold for wind-water coupling: configuration carried
    /// for outside readers of the parameter block; no compute pass branches
    /// on it.
    pub wind_interaction_threshold: i64,
    /// Control angle in radians, written by the input collaborator each
    /// frame and read back by outside consumers of the parameter block; the
    /// compute passes do not branch on it.
    pub rudder_angle: i64,
    /// Sheet extension multiplier for sail bonds: configuration carried for
    /// outside readers; the bond solver applies each bond's own rest length
    /// as stored.
    pub sheet_extension: i64,
    /// World bound, left edge.
    pub min_x: i64,
    /// World bound, right edge.
    pub max_x: i64,
    /// World bound, bottom edge.
    pub min_y: i64,
    /// World bound, top edge.
    pub max_y: i64,
}

impl SimParams {
    /// Positive step and radius, positive target densities, ordered bounds.
    pub open spec fn wf(self) -> bool {
        &&& 0 < self.delta_time <= SCALE as int
        &&& fx_ok(self.gravity as int)
        &&& 0 < self.smoothing_radius
        &&& fx_ok(self.smoothing_radius as int)
        &&& 0 < self.target_density_water
        &&& fx_ok(self.target_density_water as int)
        &&& 0 < self.target_density_air
        &&& fx_ok(self.target_density_air as int)
        &&& fx_ok(self.rudder_angle as int)
        &&& self.min_x < self.max_x
        &&& self.min_y < self.max_y
        &&& fx_ok(self.min_x as int)
        &&& fx_ok(self.max_x as int)
        &&& fx_ok(self.min_y as int)
        &&& fx_ok(self.max_y as int)
    }
}

impl Default for SimParams {
    /// The reference parameter set: a 32 ms step, mild gravity, and the
    /// 1280 x 720 world bounds.
    fn default() -> (s: SimParams)
        ensures
            s.wf(),
            s.delta_time == 320,
            s.gravity == -5 * SCALE,
            s.smoothing_radius == 10 * SCALE,
            s.target_density_water == 1000 * SCALE,
            s.target_density_air == 100 * SCALE,
            s.wind_interaction_threshold == SCALE / 2,
            s.rudder_angle == 0,
            s.sheet_extension == SCALE,
            s.min_x == -640 * SCALE,
            s.max_x == 640 * SCALE,
            s.min_y == -360 * SCALE,
            s.max_y == 360 * SCALE,
    {
        SimParams {
            delta_time: 320,
            gravity: -5 * SCALE,
            smoothing_radius: 10 * SCALE,
            target_density_water: 1000 * SCALE,
            target_density_air: 100 * SCALE,
            wind_interaction_threshold: SCALE / 2,
            rudder_angle: 0,
            sheet_extension: SCALE,
            min_x: -640 * SCALE,
            max_x: 640 * SCALE,
            min_y: -360 * SCALE,
            max_y: 360 * SCALE,
        }
    }
}

} // verus!
