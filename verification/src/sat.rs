use vstd::prelude::*;

verus! {

/// Clamp a mathematical integer into the range of `i64`.
///
/// The game's arithmetic is fixed-point over `i64`; updates that could leave
/// the representable range saturate at the ends, and every contract states
/// that saturation through this function.
pub open spec fn clip(x: int) -> int {
    if x > i64::MAX {
        i64::MAX as int
    } else if x < i64::MIN {
        i64::MIN as int
    } else {
        x
    }
}

/// Saturating addition on `i64`.
pub fn sat_add(a: i64, b: i64) -> (r: i64)
    ensures
        r as int == clip(a + b),
{
    let wide: i128 = a as i128 + b as i128;
    if wide > i64::MAX as i128 {
        i64::MAX
    } else if wide < i64::MIN as i128 {
        i64::MIN
    } else {
        wide as i64
    }
}

/// Saturating product of an `i64` and a `u32` factor. Integrating a
/// velocity (milli-units per second) over a frame delta (milliseconds)
/// gives a displacement in micro-units; the same product also scales a
/// velocity into the tilt angle.
pub fn sat_mul_dt(v: i64, dt: u32) -> (r: i64)
    ensures
        r as int == clip(v * dt),
{
    proof {
        let vi = v as int;
        let di = dt as int;
        assert(vi * di <= 0x7fff_ffff_ffff_ffff * 0xffff_ffff
            && vi * di >= -0x8000_0000_0000_0000 * 0xffff_ffff) by (nonlinear_arith)
            requires
                -0x8000_0000_0000_0000 <= vi <= 0x7fff_ffff_ffff_ffff,
                0 <= di <= 0xffff_ffff,
        ;
    }
    let wide: i128 = (v as i128) * (dt as i128);
    if wide > i64::MAX as i128 {
        i64::MAX
    } else if wide < i64::MIN as i128 {
        i64::MIN
    } else {
        wide as i64
    }
}

} // verus!
