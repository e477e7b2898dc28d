//! Buffer sizing and bond generation.
//!
//! The bond list models the rigid and flexible structures: the dry-dock
//! hull lattice, and the hurricane scene's mast cluster, mast-hull fuse,
//! spar, sail sheet and their connections. Unused capacity is padded with
//! inactive zero-stiffness slots, which the bond solver skips forever.

use vstd::prelude::*;

verus! {

use crate::bonds::{Bond, padding_bond};
use crate::fixed::{len_fx, SAT};

/// Number of particles in the simulation.
pub const PARTICLE_COUNT: usize = 10_000;

/// Fixed bond capacity; unused slots hold inactive padding.
pub const BOND_COUNT: usize = 20_000;

/// Stiffness of the rigid hull lattice.
pub const HULL_STIFFNESS: i64 = 300_000_000;

/// Stiffness of the sail sheet.
pub const SAIL_STIFFNESS: i64 = 150_000_000;

/// Stiffness of the mast and spar.
pub const MAST_STIFFNESS: i64 = 200_000_000;

/// Stiffness of the mast-hull and mast-spar connections.
pub const FUSE_STIFFNESS: i64 = 1_000_000_000;

/// Default breaking strain of structural bonds.
pub const BOND_BREAKING_STRAIN: i64 = 20_000;

/// Breaking strain of the mast-hull fuse: essentially unbreakable.
pub const FUSE_BREAKING_STRAIN: i64 = 100_000;

/// An active structural bond: two distinct particles of the structured
/// scene, a positive rest length, and positive stiffness and breaking
/// strain, all within the scalar range.
pub open spec fn structural_bond_ok(b: Bond) -> bool {
    &&& b.is_active
    &&& b.particle_a != b.particle_b
    &&& b.particle_a < 400
    &&& b.particle_b < 400
    &&& 0 < b.rest_length <= SAT
    &&& 0 < b.stiffness <= SAT
    &&& 0 < b.breaking_strain <= SAT
}

/// An inert padding slot: inactive, zero in every scalar field, tied to no
/// particle pair. The bond solver leaves such a slot untouched and takes
/// no force from it.
pub open spec fn is_padding_bond(b: Bond) -> bool {
    b == (Bond {
        particle_a: 0,
        particle_b: 0,
        rest_length: 0,
        stiffness: 0,
        breaking_strain: 0,
        bond_type: 0,
        is_active: false,
    })
}

/// Every bond of the list is an active structural bond or an inert padding
/// slot.
pub open spec fn bonds_ok(bonds: Seq<Bond>) -> bool {
    forall|j: int|
        0 <= j < bonds.len() ==> structural_bond_ok(#[trigger] bonds[j]) || is_padding_bond(
            bonds[j],
        )
}

/// The first bond of the standard list: the hull lattice bond joining the
/// first two hull particles.
pub open spec fn first_hull_bond() -> Bond {
    Bond {
        particle_a: 0,
        particle_b: 1,
        rest_length: 50_000,
        stiffness: HULL_STIFFNESS,
        breaking_strain: BOND_BREAKING_STRAIN,
        bond_type: 0,
        is_active: true,
    }
}

/// The mast-step fuse: the hull center (index 50) tied to the mast center
/// (index 104) at near-zero rest length, extremely stiff and essentially
/// unbreakable.
pub open spec fn mast_hull_fuse_bond() -> Bond {
    Bond {
        particle_a: 50,
        particle_b: 104,
        rest_length: 1_000,
        stiffness: FUSE_STIFFNESS,
        breaking_strain: FUSE_BREAKING_STRAIN,
        bond_type: 3,
        is_active: true,
    }
}

/// Append one active structural bond, exactly as given.
fn push_bond(
    bonds: &mut Vec<Bond>,
    a: usize,
    b: usize,
    rest_length: i64,
    stiffness: i64,
    breaking_strain: i64,
    bond_type: u32,
)
    requires
        a != b,
        a < 400,
        b < 400,
        0 < rest_length <= SAT,
        0 < stiffness <= SAT,
        0 < breaking_strain <= SAT,
        old(bonds)@.len() < usize::MAX,
    ensures
        final(bonds)@ == old(bonds)@.push(
            Bond {
                particle_a: a,
                particle_b: b,
                rest_length,
                stiffness,
                breaking_strain,
                bond_type,
                is_active: true,
            },
        ),
{
    bonds.push(
        Bond {
            particle_a: a,
            particle_b: b,
            rest_length,
            stiffness,
            breaking_strain,
            bond_type,
            is_active: true,
        },
    );
}

/// Invariant of the generation phase: every bond so far is structural, and
/// the first one, once pushed, is the first hull lattice bond.
spec fn gen_ok(bonds: Seq<Bond>) -> bool {
    &&& forall|j: int| 0 <= j < bonds.len() ==> structural_bond_ok(#[trigger] bonds[j])
    &&& bonds.len() > 0 ==> bonds[0] == first_hull_bond()
}

/// Generate the bond list for the standard scene: the dry-dock hull
/// lattice, then the hurricane scene's mast, fuse, spar and sail bonds,
/// padded with inactive slots to the fixed capacity.
///
/// The contract fixes the list's shape: every slot is an active structural
/// bond or an inert padding slot, the padding forms the tail (nothing
/// active follows an inactive slot), the first slot is the first hull
/// lattice bond, and the mast-hull fuse is present.
pub fn build_bonds() -> (bonds: Vec<Bond>)
    ensures
        bonds@.len() == BOND_COUNT,
        bonds_ok(bonds@),
        forall|j: int| 0 <= j < bonds@.len() ==> (#[trigger] bonds@[j]).wf(),
        forall|j: int| 0 <= j < bonds@.len() ==> (#[trigger] bonds@[j]).endpoints_in(400),
        forall|j1: int, j2: int|
            0 <= j1 < j2 < bonds@.len() && !(#[trigger] bonds@[j1]).is_active ==> is_padding_bond(
                #[trigger] bonds@[j2],
            ),
        bonds@[0] == first_hull_bond(),
        exists|j: int| 0 <= j < bonds@.len() && #[trigger] bonds@[j] == mast_hull_fuse_bond(),
{
    let mut bonds: Vec<Bond> = Vec::new();

    // Dry-dock hull lattice: a 40 x 10 grid with horizontal, vertical and
    // both diagonal bonds for shear rigidity.
    let mut y: usize = 0;
    while y < 10
        invariant
            y <= 10,
            gen_ok(bonds@),
            bonds@.len() <= y * 160,
            y > 0 ==> bonds@.len() >= 1,
        decreases 10 - y,
    {
        let mut x: usize = 0;
        while x < 40
            invariant
                y < 10,
                x <= 40,
                gen_ok(bonds@),
                bonds@.len() <= y * 160 + x * 4,
                y > 0 || x > 0 ==> bonds@.len() >= 1,
            decreases 40 - x,
        {
            let idx = y * 40 + x;
            if x + 1 < 40 {
                push_bond(&mut bonds, idx, idx + 1, 50_000, HULL_STIFFNESS, BOND_BREAKING_STRAIN, 0);
            }
            if y + 1 < 10 {
                push_bond(&mut bonds, idx, idx + 40, 50_000, HULL_STIFFNESS, BOND_BREAKING_STRAIN, 0);
            }
            if x + 1 < 40 && y + 1 < 10 {
                push_bond(&mut bonds, idx, idx + 41, 70_710, HULL_STIFFNESS, BOND_BREAKING_STRAIN, 0);
            }
            if x > 0 && y + 1 < 10 {
                push_bond(&mut bonds, idx, idx + 39, 70_710, HULL_STIFFNESS, BOND_BREAKING_STRAIN, 0);
            }
            x = x + 1;
        }
        y = y + 1;
    }

    // Mast cluster: a 3 x 3 grid (indices 100..109) with horizontal,
    // vertical and one diagonal bond per cell for rigidity.
    let mut my: usize = 0;
    while my < 3
        invariant
            my <= 3,
            gen_ok(bonds@),
            1 <= bonds@.len() <= 1600 + my * 9,
        decreases 3 - my,
    {
        let mut mx: usize = 0;
        while mx < 3
            invariant
                my < 3,
                mx <= 3,
                gen_ok(bonds@),
                1 <= bonds@.len() <= 1600 + my * 9 + mx * 3,
            decreases 3 - mx,
        {
            let idx = 100 + my * 3 + mx;
            if mx + 1 < 3 {
                push_bond(&mut bonds, idx, idx + 1, 40_000, MAST_STIFFNESS, BOND_BREAKING_STRAIN, 0);
            }
            if my + 1 < 3 {
                push_bond(&mut bonds, idx, idx + 3, 40_000, MAST_STIFFNESS, BOND_BREAKING_STRAIN, 0);
            }
            if mx + 1 < 3 && my + 1 < 3 {
                push_bond(&mut bonds, idx, idx + 4, 56_568, MAST_STIFFNESS, BOND_BREAKING_STRAIN, 0);
            }
            mx = mx + 1;
        }
        my = my + 1;
    }

    // Mast-hull fuse: the mast center is tied to the hull center, and the
    // mast's corner columns to the hull particles beside the center.
    let ghost fuse_at = bonds@.len() as int;
    push_bond(&mut bonds, 50, 104, 1_000, FUSE_STIFFNESS, FUSE_BREAKING_STRAIN, 3);
    proof {
        assert(bonds@[fuse_at] == mast_hull_fuse_bond());
    }
    push_bond(&mut bonds, 50, 100, 40_000, FUSE_STIFFNESS, FUSE_BREAKING_STRAIN, 3);
    push_bond(&mut bonds, 51, 100, 40_000, FUSE_STIFFNESS, FUSE_BREAKING_STRAIN, 3);
    push_bond(&mut bonds, 49, 100, 40_000, FUSE_STIFFNESS, FUSE_BREAKING_STRAIN, 3);
    push_bond(&mut bonds, 50, 102, 40_000, FUSE_STIFFNESS, FUSE_BREAKING_STRAIN, 3);
    push_bond(&mut bonds, 51, 102, 40_000, FUSE_STIFFNESS, FUSE_BREAKING_STRAIN, 3);
    push_bond(&mut bonds, 49, 102, 40_000, FUSE_STIFFNESS, FUSE_BREAKING_STRAIN, 3);

    // Sail sheet: a 2 x 10 grid (indices 129..149) with horizontal,
    // vertical and both diagonal bonds, so the sheet itself holds shape
    // under wind instead of relying on its ties to the spar alone.
    let mut sy: usize = 0;
    while sy < 10
        invariant
            sy <= 10,
            gen_ok(bonds@),
            0 <= fuse_at < bonds@.len() <= 1634 + sy * 8,
            bonds@[fuse_at] == mast_hull_fuse_bond(),
        decreases 10 - sy,
    {
        let mut sx: usize = 0;
        while sx < 2
            invariant
                sy < 10,
                sx <= 2,
                gen_ok(bonds@),
                0 <= fuse_at < bonds@.len() <= 1634 + sy * 8 + sx * 4,
                bonds@[fuse_at] == mast_hull_fuse_bond(),
            decreases 2 - sx,
        {
            let idx = 129 + sy * 2 + sx;
            if sx + 1 < 2 {
                push_bond(&mut bonds, idx, idx + 1, 80_000, SAIL_STIFFNESS, BOND_BREAKING_STRAIN, 1);
            }
            if sy + 1 < 10 {
                push_bond(&mut bonds, idx, idx + 2, 80_000, SAIL_STIFFNESS, BOND_BREAKING_STRAIN, 1);
            }
            if sx + 1 < 2 && sy + 1 < 10 {
                push_bond(&mut bonds, idx, idx + 3, 113_136, SAIL_STIFFNESS, BOND_BREAKING_STRAIN, 1);
            }
            if sx > 0 && sy + 1 < 10 {
                push_bond(&mut bonds, idx, idx + 1, 113_136, SAIL_STIFFNESS, BOND_BREAKING_STRAIN, 1);
            }
            sx = sx + 1;
        }
        sy = sy + 1;
    }

    // Spar: a 2 x 10 grid (indices 109..129) with horizontal, vertical and
    // both diagonal bonds, plus skip-row bonds for bending resistance.
    let mut py: usize = 0;
    while py < 10
        invariant
            py <= 10,
            gen_ok(bonds@),
            0 <= fuse_at < bonds@.len() <= 1714 + py * 10,
            bonds@[fuse_at] == mast_hull_fuse_bond(),
        decreases 10 - py,
    {
        let mut px: usize = 0;
        while px < 2
            invariant
                py < 10,
                px <= 2,
                gen_ok(bonds@),
                0 <= fuse_at < bonds@.len() <= 1714 + py * 10 + px * 5,
                bonds@[fuse_at] == mast_hull_fuse_bond(),
            decreases 2 - px,
        {
            let idx = 109 + py * 2 + px;
            if px + 1 < 2 {
                push_bond(&mut bonds, idx, idx + 1, 80_000, MAST_STIFFNESS, BOND_BREAKING_STRAIN, 2);
            }
            if py + 1 < 10 {
                push_bond(&mut bonds, idx, idx + 2, 80_000, MAST_STIFFNESS, BOND_BREAKING_STRAIN, 2);
            }
            if px + 1 < 2 && py + 1 < 10 {
                push_bond(&mut bonds, idx, idx + 3, 113_136, MAST_STIFFNESS, BOND_BREAKING_STRAIN, 2);
            }
            if px > 0 && py + 1 < 10 {
                push_bond(&mut bonds, idx, idx + 1, 113_136, MAST_STIFFNESS, BOND_BREAKING_STRAIN, 2);
            }
            if py + 2 < 10 {
                push_bond(&mut bonds, idx, idx + 4, 160_000, 400_000_000, BOND_BREAKING_STRAIN, 2);
            }
            px = px + 1;
        }
        py = py + 1;
    }

    // Mast center to the spar's left column: extremely strong ties whose
    // rest lengths follow the diagonal reach of each spar row.
    let mut ty: usize = 0;
    while ty < 10
        invariant
            ty <= 10,
            gen_ok(bonds@),
            0 <= fuse_at < bonds@.len() <= 1814 + ty,
            bonds@[fuse_at] == mast_hull_fuse_bond(),
        decreases 10 - ty,
    {
        let spar_left = 109 + ty * 2;
        let y_off: i64 = if ty >= 5 {
            (ty as i64 - 5) * 80_000
        } else {
            (5 - ty as i64) * 80_000
        };
        let reach = len_fx(80_000, y_off);
        let rest = if reach < 80_000 {
            80_000
        } else {
            reach
        };
        push_bond(&mut bonds, 104, spar_left, rest, FUSE_STIFFNESS, BOND_BREAKING_STRAIN, 2);
        ty = ty + 1;
    }

    // Sail left edge to the spar's right column.
    let mut sy2: usize = 0;
    while sy2 < 10
        invariant
            sy2 <= 10,
            gen_ok(bonds@),
            0 <= fuse_at < bonds@.len() <= 1824 + sy2,
            bonds@[fuse_at] == mast_hull_fuse_bond(),
        decreases 10 - sy2,
    {
        let spar_right = 109 + sy2 * 2 + 1;
        let sail_left = 129 + sy2 * 2;
        push_bond(&mut bonds, spar_right, sail_left, 80_000, 300_000_000, BOND_BREAKING_STRAIN, 1);
        sy2 = sy2 + 1;
    }

    // Pad with inactive slots to the fixed capacity: everything past the
    // generated bonds is the inert placeholder.
    let ghost generated = bonds@.len() as int;
    while bonds.len() < BOND_COUNT
        invariant
            0 <= fuse_at < generated,
            generated <= bonds@.len() <= BOND_COUNT,
            forall|j: int|
                0 <= j < generated ==> structural_bond_ok(#[trigger] bonds@[j]),
            forall|j: int| generated <= j < bonds@.len() ==> is_padding_bond(#[trigger] bonds@[j]),
            bonds@[fuse_at] == mast_hull_fuse_bond(),
            bonds@[0] == first_hull_bond(),
        decreases BOND_COUNT - bonds@.len(),
    {
        bonds.push(padding_bond());
    }
    proof {
        assert(0 <= 0 <= fuse_at < bonds@.len() && bonds@[fuse_at] == mast_hull_fuse_bond());
        assert forall|j: int|
            0 <= j < bonds@.len() implies (#[trigger] bonds@[j]).wf() && bonds@[j].endpoints_in(
            400,
        ) by {
            assert(structural_bond_ok(bonds@[j]) || is_padding_bond(bonds@[j]));
        }
        assert forall|j1: int, j2: int|
            0 <= j1 < j2 < bonds@.len() && !(#[trigger] bonds@[j1]).is_active
            implies is_padding_bond(#[trigger] bonds@[j2]) by {
            assert(!structural_bond_ok(bonds@[j1]));
            assert(j1 >= generated);
        }
    }
    bonds
}

} // verus!
