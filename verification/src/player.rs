use vstd::prelude::*;

use crate::sat::{clip, sat_add, sat_mul_dt};

verus! {

/// The player sprite's collision extents, position and velocity.
///
/// Coordinates are fixed-point: positions in micro-units (one world unit is
/// 1_000_000), velocities in milli-units per second (one unit per second is
/// 1_000), so that integrating a velocity over a frame delta in milliseconds
/// is an exact multiplication. `tilt` is the cosmetic roll angle in
/// nano-radians, derived from the vertical velocity.
#[derive(Debug, Clone, Copy, PartialEq, Eq, Structural)]
pub struct Player {
    pub w: i64,
    pub h: i64,
    pub x: i64,
    pub y: i64,
    pub vx: i64,
    pub vy: i64,
    pub tilt: i64,
}

/// Bottom of the vertical band the player is clamped to, in micro-units.
pub const Y_MIN: i64 = 0;

/// Top of the vertical band the player is clamped to (500 units).
pub const Y_MAX: i64 = 500_000_000;

/// Gravity, expressed as the loss of vertical velocity (in milli-units per
/// second) per millisecond of frame time: 400 units per second per second.
pub const GRAVITY_PER_MS: i64 = 400;

/// Upward velocity added by one jump edge: 400 units per second.
pub const JUMP_IMPULSE: i64 = 400_000;

impl Player {
    /// The player after gravity has acted for `dt` milliseconds.
    pub open spec fn gravity_spec(self, dt: u32) -> Player {
        Player { vy: clip(self.vy - GRAVITY_PER_MS * dt) as i64, ..self }
    }

    /// The player after one movement integration over `dt` milliseconds:
    /// position advances by velocity, then the vertical position is clamped
    /// to [Y_MIN, Y_MAX]; hitting either end zeroes the vertical velocity.
    /// The tilt is re-derived from the resulting vertical velocity.
    pub open spec fn movement_spec(self, dt: u32) -> Player {
        let x2 = clip(self.x + clip(self.vx * dt)) as i64;
        let yi = clip(self.y + clip(self.vy * dt)) as i64;
        let clamped = yi >= Y_MAX || yi <= Y_MIN;
        let y2 = if yi >= Y_MAX {
            Y_MAX
        } else if yi <= Y_MIN {
            Y_MIN
        } else {
            yi
        };
        let vy2 = if clamped {
            0
        } else {
            self.vy
        };
        Player { x: x2, y: y2, vy: vy2, tilt: clip(vy2 * 1000) as i64, ..self }
    }

    /// The player after the jump input is applied: a rising edge adds a
    /// fixed upward impulse, independent of the current velocity.
    pub open spec fn flap_spec(self, jump_edge: bool) -> Player {
        if jump_edge {
            Player { vy: clip(self.vy + JUMP_IMPULSE) as i64, ..self }
        } else {
            self
        }
    }

    /// One whole frame of kinematics: gravity, then movement.
    pub open spec fn kin_step(self, dt: u32) -> Player {
        self.gravity_spec(dt).movement_spec(dt)
    }

    /// `n` frames of kinematics at a fixed `dt`, with no jump input.
    pub open spec fn kin_iter(self, dt: u32, n: nat) -> Player
        decreases n,
    {
        if n == 0 {
            self
        } else {
            self.kin_iter(dt, (n - 1) as nat).kin_step(dt)
        }
    }

    /// A kinematics frame is calm when neither saturation nor the vertical
    /// clamp fires: all intermediate values stay inside `i64` and the new
    /// vertical position stays strictly inside the band.
    pub open spec fn calm_step(self, dt: u32) -> bool {
        let vy1 = self.vy - GRAVITY_PER_MS * dt;
        let yi = self.y + vy1 * dt;
        &&& i64::MIN <= vy1 <= i64::MAX
        &&& i64::MIN <= vy1 * dt <= i64::MAX
        &&& i64::MIN <= yi <= i64::MAX
        &&& Y_MIN < yi < Y_MAX
    }
}

/// Apply gravity to the player's vertical velocity.
pub fn gravity(p: &mut Player, dt: u32)
    ensures
        *final(p) == old(p).gravity_spec(dt),
{
    let dv: i64 = GRAVITY_PER_MS * dt as i64;
    p.vy = sat_add(p.vy, -dv);
}

/// Integrate the player's position over `dt` milliseconds and clamp the
/// vertical position to the play band.
pub fn movement(p: &mut Player, dt: u32)
    ensures
        *final(p) == old(p).movement_spec(dt),
        Y_MIN <= final(p).y <= Y_MAX,
{
    p.x = sat_add(p.x, sat_mul_dt(p.vx, dt));
    let yi = sat_add(p.y, sat_mul_dt(p.vy, dt));
    if yi >= Y_MAX {
        p.y = Y_MAX;
        p.vy = 0;
    } else if yi <= Y_MIN {
        p.y = Y_MIN;
        p.vy = 0;
    } else {
        p.y = yi;
    }
    p.tilt = sat_mul_dt(p.vy, 1000);
}

/// Add the jump impulse to the player's vertical velocity on a rising edge
/// of the jump input.
pub fn flap(p: &mut Player, jump_edge: bool)
    ensures
        *final(p) == old(p).flap_spec(jump_edge),
{
    if jump_edge {
        p.vy = sat_add(p.vy, JUMP_IMPULSE);
    }
}

/// After a movement frame the vertical position lies in the closed band,
/// and if the clamp fired the vertical velocity is zero.
pub proof fn lemma_movement_in_band(p: Player, dt: u32)
    ensures
        Y_MIN <= p.movement_spec(dt).y <= Y_MAX,
        (p.movement_spec(dt).y == Y_MIN || p.movement_spec(dt).y == Y_MAX) <== (clip(
            p.y + clip(p.vy * dt),
        ) >= Y_MAX || clip(p.y + clip(p.vy * dt)) <= Y_MIN),
        (clip(p.y + clip(p.vy * dt)) >= Y_MAX || clip(p.y + clip(p.vy * dt)) <= Y_MIN) ==> p
            .movement_spec(dt).vy == 0,
{
}

/// A single jump edge adds exactly the fixed impulse to the vertical
/// velocity, whatever that velocity currently is, as long as the sum stays
/// representable.
pub proof fn lemma_flap_adds_impulse(p: Player)
    requires
        p.vy + JUMP_IMPULSE <= i64::MAX,
    ensures
        p.flap_spec(true).vy == p.vy + JUMP_IMPULSE,
        p.flap_spec(true).x == p.x && p.flap_spec(true).y == p.y,
        p.flap_spec(false) == p,
{
}

/// With no jump input and a fixed frame delta, `n` calm frames lower the
/// vertical velocity by exactly gravity times the total elapsed time.
pub proof fn lemma_gravity_accumulates(p: Player, dt: u32, n: nat)
    requires
        forall|i: nat| i < n ==> #[trigger] p.kin_iter(dt, i).calm_step(dt),
    ensures
        p.kin_iter(dt, n).vy == p.vy - GRAVITY_PER_MS * dt * n,
    decreases n,
{
    if n > 0 {
        let m = (n - 1) as nat;
        lemma_gravity_accumulates(p, dt, m);
        let q = p.kin_iter(dt, m);
        assert(q.calm_step(dt));
        assert(q.gravity_spec(dt).vy == q.vy - GRAVITY_PER_MS * dt);
        assert(q.kin_step(dt).vy == q.vy - GRAVITY_PER_MS * dt);
        assert(p.kin_iter(dt, n) == q.kin_step(dt));
        assert(p.kin_iter(dt, n).vy == p.vy - GRAVITY_PER_MS * dt * m - GRAVITY_PER_MS * dt);
        assert(GRAVITY_PER_MS * dt * n == GRAVITY_PER_MS * dt * m + GRAVITY_PER_MS * dt)
            by (nonlinear_arith)
            requires
                n == m + 1,
        ;
        assert(p.kin_iter(dt, n).vy == p.vy - GRAVITY_PER_MS * dt * n);
    } else {
        assert(p.kin_iter(dt, 0) == p);
        assert(GRAVITY_PER_MS * dt * n == 0) by (nonlinear_arith)
            requires
                n == 0,
        ;
    }
}

} // verus!
