//! The coordinate model: logical and physical positions and sizes, and the
//! display scale factor that converts between the two unit systems.
//!
//! A *logical* quantity is scale-independent; a *physical* quantity counts raw
//! device pixels. The conversion is `physical = logical * scale_factor`,
//! rounded to the nearest pixel. The scale factor is kept in thousandths so
//! that the whole model stays in integer arithmetic.

use vstd::arithmetic::div_mod::lemma_div_multiples_vanish_fancy;
use vstd::prelude::*;

verus! {

/// A display scale factor (HiDPI ratio) in thousandths: a ratio of `1.0`
/// is stored as `1000` thousandths, `1.5` as `1500`.
#[derive(Debug, Clone, Copy, PartialEq, Eq, Structural)]
pub struct ScaleFactor {
    pub thousandths: u32,
}

impl ScaleFactor {
    /// A scale factor is well formed when it is strictly positive; being an
    /// integer count of thousandths it can never be negative, infinite or
    /// not-a-number.
    pub open spec fn wf(&self) -> bool {
        self.thousandths >= 1
    }

    /// The neutral scale factor of `1.0`.
    pub fn identity() -> (r: ScaleFactor)
        ensures
            r == (ScaleFactor { thousandths: 1000 }),
            r.wf(),
    {
        ScaleFactor { thousandths: 1000 }
    }
}

/// A position in logical units.
#[derive(Debug, Clone, Copy, PartialEq, Eq, Structural)]
pub struct LogicalPosition {
    pub x: i32,
    pub y: i32,
}

/// A size in logical units.
#[derive(Debug, Clone, Copy, PartialEq, Eq, Structural)]
pub struct LogicalSize {
    pub width: u32,
    pub height: u32,
}

/// A position in physical (device-pixel) units.
#[derive(Debug, Clone, Copy, PartialEq, Eq, Structural)]
pub struct PhysicalPosition {
    pub x: i32,
    pub y: i32,
}

/// A size in physical (device-pixel) units.
#[derive(Debug, Clone, Copy, PartialEq, Eq, Structural)]
pub struct PhysicalSize {
    pub width: u32,
    pub height: u32,
}

/// The physical length of a non-negative logical length `v` under a factor of
/// `t` thousandths, rounded to the nearest pixel.
pub open spec fn spec_to_physical(v: int, t: int) -> int {
    (v * t + 500) / 1000
}

/// The logical length of a non-negative physical length `p` under a factor of
/// `t` thousandths, rounded to the nearest logical unit.
pub open spec fn spec_to_logical(p: int, t: int) -> int {
    (p * 1000 + t / 2) / t
}

/// Scaling of a signed coordinate: the magnitude is scaled and the sign kept.
pub open spec fn spec_to_physical_signed(v: int, t: int) -> int {
    if v >= 0 {
        spec_to_physical(v, t)
    } else {
        -spec_to_physical(-v, t)
    }
}

/// Unscaling of a signed coordinate: the magnitude is unscaled, the sign kept.
pub open spec fn spec_to_logical_signed(p: int, t: int) -> int {
    if p >= 0 {
        spec_to_logical(p, t)
    } else {
        -spec_to_logical(-p, t)
    }
}

/// Scales one non-negative length from logical to physical units.
pub fn scale_len(v: u32, scale: ScaleFactor) -> (r: u32)
    requires
        scale.wf(),
        spec_to_physical(v as int, scale.thousandths as int) <= u32::MAX,
    ensures
        r == spec_to_physical(v as int, scale.thousandths as int),
{
    proof {
        assert((v as int) * (scale.thousandths as int) <= 0xffff_ffff * 0xffff_ffff)
            by (nonlinear_arith)
            requires
                v <= 0xffff_ffffu32,
                scale.thousandths <= 0xffff_ffffu32,
        ;
        assert((v as int) * (scale.thousandths as int) >= 0) by (nonlinear_arith)
            requires
                v >= 0,
                scale.thousandths >= 0,
        ;
    }
    let p: u64 = ((v as u64) * (scale.thousandths as u64) + 500) / 1000;
    p as u32
}

/// Unscales one non-negative length from physical back to logical units.
pub fn unscale_len(p: u32, scale: ScaleFactor) -> (r: u32)
    requires
        scale.wf(),
        spec_to_logical(p as int, scale.thousandths as int) <= u32::MAX,
    ensures
        r == spec_to_logical(p as int, scale.thousandths as int),
{
    let t: u64 = scale.thousandths as u64;
    let l: u64 = ((p as u64) * 1000 + t / 2) / t;
    l as u32
}

impl LogicalSize {
    /// Converts the size to physical units under the given scale factor.
    pub fn to_physical(&self, scale: ScaleFactor) -> (r: PhysicalSize)
        requires
            scale.wf(),
            spec_to_physical(self.width as int, scale.thousandths as int) <= u32::MAX,
            spec_to_physical(self.height as int, scale.thousandths as int) <= u32::MAX,
        ensures
            r.width == spec_to_physical(self.width as int, scale.thousandths as int),
            r.height == spec_to_physical(self.height as int, scale.thousandths as int),
    {
        PhysicalSize { width: scale_len(self.width, scale), height: scale_len(self.height, scale) }
    }
}

impl PhysicalSize {
    /// Converts the size back to logical units under the given scale factor.
    pub fn to_logical(&self, scale: ScaleFactor) -> (r: LogicalSize)
        requires
            scale.wf(),
            spec_to_logical(self.width as int, scale.thousandths as int) <= u32::MAX,
            spec_to_logical(self.height as int, scale.thousandths as int) <= u32::MAX,
        ensures
            r.width == spec_to_logical(self.width as int, scale.thousandths as int),
            r.height == spec_to_logical(self.height as int, scale.thousandths as int),
    {
        LogicalSize {
            width: unscale_len(self.width, scale),
            height: unscale_len(self.height, scale),
        }
    }
}

/// Scales one signed coordinate from logical to physical units.
pub fn scale_coord(v: i32, scale: ScaleFactor) -> (r: i32)
    requires
        scale.wf(),
        i32::MIN <= spec_to_physical_signed(v as int, scale.thousandths as int) <= i32::MAX,
    ensures
        r == spec_to_physical_signed(v as int, scale.thousandths as int),
{
    let t: u64 = scale.thousandths as u64;
    if v >= 0 {
        proof {
            assert((v as int) * (t as int) <= 0xffff_ffff * 0xffff_ffff) by (nonlinear_arith)
                requires
                    0 <= v <= 0xffff_ffffi64,
                    0 <= t <= 0xffff_ffffu64,
            ;
            assert((v as int) * (t as int) >= 0) by (nonlinear_arith)
                requires
                    v >= 0,
                    t >= 0,
            ;
        }
        let p: u64 = ((v as u64) * t + 500) / 1000;
        p as i32
    } else {
        let m: u64 = (-(v as i64)) as u64;
        proof {
            assert((m as int) * (t as int) <= 0xffff_ffff * 0xffff_ffff) by (nonlinear_arith)
                requires
                    0 <= m <= 0xffff_ffffu64,
                    0 <= t <= 0xffff_ffffu64,
            ;
            assert((m as int) * (t as int) >= 0) by (nonlinear_arith)
                requires
                    m >= 0,
                    t >= 0,
            ;
        }
        let p: u64 = (m * t + 500) / 1000;
        (-(p as i64)) as i32
    }
}

/// Unscales one signed coordinate from physical back to logical units.
pub fn unscale_coord(p: i32, scale: ScaleFactor) -> (r: i32)
    requires
        scale.wf(),
        i32::MIN <= spec_to_logical_signed(p as int, scale.thousandths as int) <= i32::MAX,
    ensures
        r == spec_to_logical_signed(p as int, scale.thousandths as int),
{
    let t: u64 = scale.thousandths as u64;
    if p >= 0 {
        let l: u64 = ((p as u64) * 1000 + t / 2) / t;
        l as i32
    } else {
        let m: u64 = (-(p as i64)) as u64;
        let l: u64 = (m * 1000 + t / 2) / t;
        (-(l as i64)) as i32
    }
}

impl LogicalPosition {
    /// Converts the position to physical units under the given scale factor.
    pub fn to_physical(&self, scale: ScaleFactor) -> (r: PhysicalPosition)
        requires
            scale.wf(),
            i32::MIN <= spec_to_physical_signed(self.x as int, scale.thousandths as int)
                <= i32::MAX,
            i32::MIN <= spec_to_physical_signed(self.y as int, scale.thousandths as int)
                <= i32::MAX,
        ensures
            r.x == spec_to_physical_signed(self.x as int, scale.thousandths as int),
            r.y == spec_to_physical_signed(self.y as int, scale.thousandths as int),
    {
        PhysicalPosition { x: scale_coord(self.x, scale), y: scale_coord(self.y, scale) }
    }
}

impl PhysicalPosition {
    /// Converts the position back to logical units under the given scale factor.
    pub fn to_logical(&self, scale: ScaleFactor) -> (r: LogicalPosition)
        requires
            scale.wf(),
            i32::MIN <= spec_to_logical_signed(self.x as int, scale.thousandths as int)
                <= i32::MAX,
            i32::MIN <= spec_to_logical_signed(self.y as int, scale.thousandths as int)
                <= i32::MAX,
        ensures
            r.x == spec_to_logical_signed(self.x as int, scale.thousandths as int),
            r.y == spec_to_logical_signed(self.y as int, scale.thousandths as int),
    {
        LogicalPosition { x: unscale_coord(self.x, scale), y: unscale_coord(self.y, scale) }
    }
}

/// Law: under the neutral scale factor of `1.0`, converting between logical
/// and physical units changes nothing, in either direction and for signed
/// coordinates as well.
pub proof fn lemma_unit_scale_is_identity(v: int)
    ensures
        spec_to_physical(v, 1000) == v,
        spec_to_logical(v, 1000) == v,
        spec_to_physical_signed(v, 1000) == v,
        spec_to_logical_signed(v, 1000) == v,
{
    lemma_div_multiples_vanish_fancy(v, 500, 1000);
    lemma_div_multiples_vanish_fancy(-v, 500, 1000);
    assert(v * 1000 == 1000 * v) by (nonlinear_arith);
    assert((-v) * 1000 == 1000 * (-v)) by (nonlinear_arith);
}

} // verus!
