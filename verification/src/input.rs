//! Sail control input state.
//!
//! The control angle is produced by an external input collaborator once per
//! frame; this module holds the angle and the clamped update rule, so the
//! collaborator only reports which rotation keys are held.

use vstd::prelude::*;

verus! {

use crate::fixed::{clamp_i, clamp_fx};

/// Angle change per frame while a rotation key is held (0.03 rad).
pub const ROTATION_SPEED: i64 = 300;

/// Largest sail angle magnitude (1.5 rad, about 85 degrees).
pub const MAX_ANGLE: i64 = 15_000;

/// The current sail angle, in fixed-point radians. Zero means the sail
/// stands perpendicular to the wind; positive turns clockwise.
#[derive(Clone, Copy, Debug, PartialEq, Eq, Structural)]
pub struct SailControl {
    /// Sail angle in fixed-point radians, within [-MAX_ANGLE, MAX_ANGLE].
    pub angle: i64,
}

impl SailControl {
    /// The angle stays within its configured range.
    pub open spec fn wf(self) -> bool {
        -MAX_ANGLE <= self.angle <= MAX_ANGLE
    }

    /// Advance the angle one frame from the held rotation keys: turn by the
    /// rotation speed for each held direction, then clamp into range.
    pub fn update(&mut self, left_held: bool, right_held: bool)
        requires
            old(self).wf(),
        ensures
            final(self).wf(),
            final(self).angle as int == clamp_i(
                old(self).angle + (if right_held {
                    ROTATION_SPEED as int
                } else {
                    0
                }) - (if left_held {
                    ROTATION_SPEED as int
                } else {
                    0
                }),
                -MAX_ANGLE as int,
                MAX_ANGLE as int,
            ),
    {
        let mut a = self.angle;
        if left_held {
            a = a - ROTATION_SPEED;
        }
        if right_held {
            a = a + ROTATION_SPEED;
        }
        self.angle = clamp_fx(a, -MAX_ANGLE, MAX_ANGLE);
    }
}

impl Default for SailControl {
    /// The sail starts centered.
    fn default() -> (s: SailControl)
        ensures
            s.wf(),
            s.angle == 0,
    {
        SailControl { angle: 0 }
    }
}

} // verus!
