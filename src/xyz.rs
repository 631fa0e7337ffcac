//! Map coordinates, as the host lays them out.
use vstd::prelude::*;

verus! {

/// A turf's coordinates. `junk` is padding that the host reserves.
#[derive(Clone, Copy, Debug)]
pub struct ByondXYZ {
    pub x: i16,
    pub y: i16,
    pub z: i16,
    pub junk: i16,
}

/// The distance between `a` and `b` on one axis.
pub open spec fn axis_span(a: i16, b: i16) -> int {
    if a >= b {
        a - b
    } else {
        b - a
    }
}

/// `v` clamped to the range of `i16`.
pub open spec fn clamp_i16(v: int) -> i16 {
    if v > i16::MAX {
        i16::MAX
    } else if v < i16::MIN {
        i16::MIN
    } else {
        v as i16
    }
}

/// Two coordinates are the same place when their x, y and z agree.
pub open spec fn same_place(a: ByondXYZ, b: ByondXYZ) -> bool {
    a.x == b.x && a.y == b.y && a.z == b.z
}

impl PartialEq for ByondXYZ {
    fn eq(&self, other: &ByondXYZ) -> (r: bool) {
        self.x == other.x && self.y == other.y && self.z == other.z
    }
}

impl vstd::std_specs::cmp::PartialEqSpecImpl for ByondXYZ {
    open spec fn obeys_eq_spec() -> bool {
        true
    }

    open spec fn eq_spec(&self, other: &ByondXYZ) -> bool {
        same_place(*self, *other)
    }
}

impl Default for ByondXYZ {
    fn default() -> (r: ByondXYZ)
        ensures
            r.x == 0 && r.y == 0 && r.z == 0 && r.junk == 0,
    {
        ByondXYZ::new(0, 0, 0)
    }
}

impl ByondXYZ {
    #[inline]
    pub fn new(x: i16, y: i16, z: i16) -> (r: ByondXYZ)
        ensures
            r.x == x && r.y == y && r.z == z && r.junk == 0,
    {
        ByondXYZ { x, y, z, junk: 0 }
    }

    #[inline(always)]
    pub fn x(&self) -> (r: i16)
        ensures
            r == self.x,
    {
        self.x
    }

    #[inline(always)]
    pub fn y(&self) -> (r: i16)
        ensures
            r == self.y,
    {
        self.y
    }

    #[inline(always)]
    pub fn z(&self) -> (r: i16)
        ensures
            r == self.z,
    {
        self.z
    }

    /// The width and height of the block of turfs with corners `self` and
    /// `other`, both included. The span on an axis must leave room for the
    /// corner itself in a `u16`.
    pub fn block_size(&self, other: &ByondXYZ) -> (r: (u16, u16))
        requires
            axis_span(self.x, other.x) < u16::MAX,
            axis_span(self.y, other.y) < u16::MAX,
        ensures
            r.0 == axis_span(self.x, other.x) + 1,
            r.1 == axis_span(self.y, other.y) + 1,
    {
        let dx: u16 = span(self.x, other.x) + 1;
        let dy: u16 = span(self.y, other.y) + 1;
        (dx, dy)
    }

    /// The number of turfs in the block with corners `self` and `other`,
    /// saturating at `u16::MAX`.
    pub fn total_block_size(&self, other: &ByondXYZ) -> (r: u16)
        requires
            axis_span(self.x, other.x) < u16::MAX,
            axis_span(self.y, other.y) < u16::MAX,
        ensures
            r == (if (axis_span(self.x, other.x) + 1) * (axis_span(self.y, other.y) + 1)
                > u16::MAX {
                u16::MAX as int
            } else {
                (axis_span(self.x, other.x) + 1) * (axis_span(self.y, other.y) + 1)
            }),
    {
        let (w, h) = self.block_size(other);
        proof {
            assert((w as int) * (h as int) <= 65535 * 65535) by (nonlinear_arith)
                requires
                    w <= 65535,
                    h <= 65535,
            ;
        }
        let product: u64 = (w as u64) * (h as u64);
        if product > u16::MAX as u64 {
            u16::MAX
        } else {
            product as u16
        }
    }

    /// The coordinates added axis by axis, each saturating.
    pub fn add(self, other: ByondXYZ) -> (r: ByondXYZ)
        ensures
            r.x == clamp_i16(self.x + other.x),
            r.y == clamp_i16(self.y + other.y),
            r.z == clamp_i16(self.z + other.z),
            r.junk == 0,
    {
        ByondXYZ::new(sat_add(self.x, other.x), sat_add(self.y, other.y), sat_add(self.z, other.z))
    }

    /// The coordinates subtracted axis by axis, each saturating.
    pub fn sub(self, other: ByondXYZ) -> (r: ByondXYZ)
        ensures
            r.x == clamp_i16(self.x - other.x),
            r.y == clamp_i16(self.y - other.y),
            r.z == clamp_i16(self.z - other.z),
            r.junk == 0,
    {
        ByondXYZ::new(sat_sub(self.x, other.x), sat_sub(self.y, other.y), sat_sub(self.z, other.z))
    }

    /// Adds `other` in place, axis by axis, each saturating.
    pub fn add_assign(&mut self, other: ByondXYZ)
        ensures
            final(self).x == clamp_i16(old(self).x + other.x),
            final(self).y == clamp_i16(old(self).y + other.y),
            final(self).z == clamp_i16(old(self).z + other.z),
            final(self).junk == old(self).junk,
    {
        self.x = sat_add(self.x, other.x);
        self.y = sat_add(self.y, other.y);
        self.z = sat_add(self.z, other.z);
    }

    /// Subtracts `other` in place, axis by axis, each saturating.
    pub fn sub_assign(&mut self, other: ByondXYZ)
        ensures
            final(self).x == clamp_i16(old(self).x - other.x),
            final(self).y == clamp_i16(old(self).y - other.y),
            final(self).z == clamp_i16(old(self).z - other.z),
            final(self).junk == old(self).junk,
    {
        self.x = sat_sub(self.x, other.x);
        self.y = sat_sub(self.y, other.y);
        self.z = sat_sub(self.z, other.z);
    }
}

fn span(a: i16, b: i16) -> (r: u16)
    ensures
        r == axis_span(a, b),
{
    let d: i32 = (a as i32) - (b as i32);
    if d >= 0 {
        d as u16
    } else {
        (-d) as u16
    }
}

fn sat_add(a: i16, b: i16) -> (r: i16)
    ensures
        r == clamp_i16(a + b),
{
    let s: i32 = (a as i32) + (b as i32);
    if s > i16::MAX as i32 {
        i16::MAX
    } else if s < i16::MIN as i32 {
        i16::MIN
    } else {
        s as i16
    }
}

fn sat_sub(a: i16, b: i16) -> (r: i16)
    ensures
        r == clamp_i16(a - b),
{
    let s: i32 = (a as i32) - (b as i32);
    if s > i16::MAX as i32 {
        i16::MAX
    } else if s < i16::MIN as i32 {
        i16::MIN
    } else {
        s as i16
    }
}

} // verus!
