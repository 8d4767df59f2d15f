//! Logical and physical sizes, and the scale factor between them.
//!
//! Scale factors are exact rationals, so that a size can be carried from
//! logical to physical pixels and back without drift.  Physical values are
//! rounded to the nearest pixel, halves rounding up.
use vstd::prelude::*;

verus! {

/// The largest value of a `u32`, as an `int`.
pub open spec fn u32_max() -> int {
    0xffff_ffff
}

/// `n / d` rounded to the nearest integer, halves rounding up (floor of `n / d + 1/2`).
pub open spec fn round_div(n: int, d: int) -> int
    recommends
        d > 0,
{
    (n + d / 2) / d
}

/// `v` limited to the range of a `u32`.
pub open spec fn clamp_u32(v: int) -> int {
    if v < 0 {
        0
    } else if v > u32_max() {
        u32_max()
    } else {
        v
    }
}

/// `v` limited to the range of an `i32`.
pub open spec fn clamp_i32(v: int) -> int {
    if v < -0x8000_0000 {
        -0x8000_0000
    } else if v > 0x7fff_ffff {
        0x7fff_ffff
    } else {
        v
    }
}

/// The ratio of physical pixels to logical points, `num / den`.  `==`
/// compares the two terms; [`ScaleFactor::equals`] compares the ratios.
#[derive(Clone, Copy, Debug, PartialEq, Eq, Structural)]
pub struct ScaleFactor {
    pub num: u32,
    pub den: u32,
}

impl ScaleFactor {
    /// Both terms are positive.
    pub open spec fn wf(self) -> bool {
        self.num > 0 && self.den > 0
    }

    /// A logical length in physical pixels: rounded, and limited to a `u32`.
    pub open spec fn to_physical(self, logical: int) -> int {
        clamp_u32(round_div(logical * self.num, self.den as int))
    }

    /// A physical length in logical points: rounded, and limited to a `u32`.
    pub open spec fn to_logical(self, physical: int) -> int {
        clamp_u32(round_div(physical * self.den, self.num as int))
    }

    /// A signed physical coordinate in logical points, rounded, and limited to an `i32`.
    pub open spec fn coord_to_logical(self, physical: int) -> int {
        clamp_i32(round_div(physical * self.den, self.num as int))
    }

    /// The same ratio as `other`.
    pub open spec fn same_value(self, other: ScaleFactor) -> bool {
        self.num * other.den == other.num * self.den
    }

    /// The ratio `num / den`, or `None` where a term is zero.
    pub fn new(num: u32, den: u32) -> (r: Option<ScaleFactor>)
        ensures
            r is Some <==> (num > 0 && den > 0),
            r is Some ==> r->0.num == num && r->0.den == den,
    {
        if num > 0 && den > 0 {
            Some(ScaleFactor { num, den })
        } else {
            None
        }
    }

    /// The factor 1.
    pub fn one() -> (r: ScaleFactor)
        ensures
            r.num == 1 && r.den == 1,
    {
        ScaleFactor { num: 1, den: 1 }
    }

    /// The factor of a display of `dpi` dots per inch: `dpi / 96`, or `None` for 0.
    pub fn from_dpi(dpi: u32) -> (r: Option<ScaleFactor>)
        ensures
            r is Some <==> dpi > 0,
            r is Some ==> r->0.num == dpi && r->0.den == 96,
    {
        ScaleFactor::new(dpi, 96)
    }

    /// Whether the two factors are the same ratio.
    pub fn equals(&self, other: &ScaleFactor) -> (r: bool)
        ensures
            r == self.same_value(*other),
    {
        proof {
            lemma_product_bound(self.num as int, other.den as int);
            lemma_product_bound(other.num as int, self.den as int);
        }
        (self.num as u64) * (other.den as u64) == (other.num as u64) * (self.den as u64)
    }

    /// Whether the factor is at least 1 (no smaller than the logical size).
    pub fn at_least_one(&self) -> (r: bool)
        ensures
            r == (self.num >= self.den),
    {
        self.num >= self.den
    }

    /// A logical length in physical pixels, rounded to the nearest pixel.
    pub fn physical_of(&self, logical: u32) -> (r: u32)
        requires
            self.wf(),
        ensures
            r == self.to_physical(logical as int),
    {
        scale_round(logical, self.num, self.den)
    }

    /// A physical length in logical points, rounded to the nearest point.
    pub fn logical_of(&self, physical: u32) -> (r: u32)
        requires
            self.wf(),
        ensures
            r == self.to_logical(physical as int),
    {
        scale_round(physical, self.den, self.num)
    }

    /// A signed physical coordinate in logical points, rounded to the nearest
    /// point and limited to an `i32`.
    pub fn coord_logical_of(&self, physical: i32) -> (r: i32)
        requires
            self.wf(),
        ensures
            r == self.coord_to_logical(physical as int),
    {
        let d: i64 = self.num as i64;
        proof {
            lemma_coord_bounds(physical as int, self.den as int, d as int);
        }
        let n: i64 = (physical as i64) * (self.den as i64);
        let m: i64 = n + d / 2;
        let q: i64 = if m >= 0 {
            m / d
        } else {
            let a: i64 = -m - 1;
            proof {
                lemma_floor_of_negative(m as int, d as int);
            }
            -(a / d) - 1
        };
        if q > 0x7fff_ffff {
            0x7fff_ffff
        } else if q < -0x8000_0000 {
            -0x8000_0000
        } else {
            q as i32
        }
    }
}

/// `v * num / den`, rounded to the nearest integer and limited to a `u32`.
fn scale_round(v: u32, num: u32, den: u32) -> (r: u32)
    requires
        den > 0,
    ensures
        r == clamp_u32(round_div(v as int * num as int, den as int)),
{
    proof {
        lemma_product_bound(v as int, num as int);
    }
    let p: u64 = (v as u64) * (num as u64);
    let q: u64 = (p + (den as u64) / 2) / (den as u64);
    if q > 0xffff_ffff {
        0xffff_ffff
    } else {
        q as u32
    }
}

proof fn lemma_product_bound(a: int, b: int)
    requires
        0 <= a <= u32_max(),
        0 <= b <= u32_max(),
    ensures
        0 <= a * b <= u32_max() * u32_max(),
{
    assert(0 <= a * b <= u32_max() * u32_max()) by (nonlinear_arith)
        requires
            0 <= a <= u32_max(),
            0 <= b <= u32_max(),
    ;
}

proof fn lemma_coord_bounds(x: int, den: int, d: int)
    requires
        -0x8000_0000 <= x < 0x8000_0000,
        0 < den <= u32_max(),
        0 < d <= u32_max(),
    ensures
        -0x8000_0000 * u32_max() <= x * den <= 0x8000_0000 * u32_max(),
{
    assert(-0x8000_0000 * u32_max() <= x * den <= 0x8000_0000 * u32_max()) by (nonlinear_arith)
        requires
            -0x8000_0000 <= x < 0x8000_0000,
            0 < den <= u32_max(),
    ;
}

/// For a negative `m` and a positive `d`, the floor of `m / d` is
/// `-((-m - 1) / d) - 1`.
proof fn lemma_floor_of_negative(m: int, d: int)
    requires
        m < 0,
        d > 0,
    ensures
        -((-m - 1) / d) - 1 == m / d,
{
    let a = -m - 1;
    let q = a / d;
    let r = a % d;
    assert(a == q * d + r && 0 <= r < d) by {
        vstd::arithmetic::div_mod::lemma_fundamental_div_mod(a, d);
    }
    assert(m == (-q - 1) * d + (d - 1 - r)) by (nonlinear_arith)
        requires
            a == q * d + r,
            m == -a - 1,
    ;
    vstd::arithmetic::div_mod::lemma_fundamental_div_mod_converse(m, d, -q - 1, d - 1 - r);
}

/// A size in logical points.
#[derive(Clone, Copy, Debug, PartialEq, Eq, Structural)]
pub struct Size {
    pub width: u32,
    pub height: u32,
}

/// A size in physical pixels.
#[derive(Clone, Copy, Debug, PartialEq, Eq, Structural)]
pub struct PhySize {
    pub width: u32,
    pub height: u32,
}

/// A position in logical points.
#[derive(Clone, Copy, Debug, PartialEq, Eq, Structural)]
pub struct Point {
    pub x: i32,
    pub y: i32,
}

/// A position in physical pixels.
#[derive(Clone, Copy, Debug, PartialEq, Eq, Structural)]
pub struct PhyPoint {
    pub x: i32,
    pub y: i32,
}

impl PhyPoint {
    /// The position in logical points at the given scale.
    pub open spec fn to_logical_spec(self, scale: ScaleFactor) -> Point {
        Point {
            x: scale.coord_to_logical(self.x as int) as i32,
            y: scale.coord_to_logical(self.y as int) as i32,
        }
    }

    /// The position in logical points at the scale of `info`.
    pub fn to_logical(&self, info: &WindowInfo) -> (r: Point)
        requires
            info.wf(),
        ensures
            r == self.to_logical_spec(info.scale()),
    {
        let s = info.scale;
        let x = s.coord_logical_of(self.x);
        let y = s.coord_logical_of(self.y);
        Point { x, y }
    }
}

/// The geometry of a window: its logical size, its physical size, and the
/// scale factor between them.
#[derive(Clone, Copy, Debug, PartialEq, Eq, Structural)]
pub struct WindowInfo {
    logical: Size,
    physical: PhySize,
    scale: ScaleFactor,
}

impl WindowInfo {
    pub closed spec fn logical(self) -> Size {
        self.logical
    }

    pub closed spec fn physical(self) -> PhySize {
        self.physical
    }

    pub closed spec fn scale(self) -> ScaleFactor {
        self.scale
    }

    /// The scale factor is a ratio of positive terms.
    pub open spec fn wf(self) -> bool {
        self.scale().wf()
    }

    /// The geometry of a window of logical size `size` at scale `scale`.
    pub open spec fn of_logical(self, size: Size, scale: ScaleFactor) -> bool {
        &&& self.logical() == size
        &&& self.scale() == scale
        &&& self.physical().width == scale.to_physical(size.width as int)
        &&& self.physical().height == scale.to_physical(size.height as int)
    }

    /// The geometry of a window of physical size `size` at scale `scale`.
    pub open spec fn of_physical(self, size: PhySize, scale: ScaleFactor) -> bool {
        &&& self.physical() == size
        &&& self.scale() == scale
        &&& self.logical().width == scale.to_logical(size.width as int)
        &&& self.logical().height == scale.to_logical(size.height as int)
    }

    /// The geometry of a window of logical size `size`: the physical size is
    /// the logical size times the scale, rounded to the nearest pixel.
    pub fn from_logical_size(size: Size, scale: ScaleFactor) -> (r: WindowInfo)
        requires
            scale.wf(),
        ensures
            r.wf(),
            r.of_logical(size, scale),
    {
        let physical = PhySize {
            width: scale.physical_of(size.width),
            height: scale.physical_of(size.height),
        };
        WindowInfo { logical: size, physical, scale }
    }

    /// The geometry of a window of physical size `size`: the logical size is
    /// the physical size divided by the scale, rounded to the nearest point.
    pub fn from_physical_size(size: PhySize, scale: ScaleFactor) -> (r: WindowInfo)
        requires
            scale.wf(),
        ensures
            r.wf(),
            r.of_physical(size, scale),
    {
        let logical = Size {
            width: scale.logical_of(size.width),
            height: scale.logical_of(size.height),
        };
        WindowInfo { logical, physical: size, scale }
    }

    pub fn logical_size(&self) -> (r: Size)
        ensures
            r == self.logical(),
    {
        self.logical
    }

    pub fn physical_size(&self) -> (r: PhySize)
        ensures
            r == self.physical(),
    {
        self.physical
    }

    pub fn scale_factor(&self) -> (r: ScaleFactor)
        ensures
            r == self.scale(),
    {
        self.scale
    }
}

} // verus!
