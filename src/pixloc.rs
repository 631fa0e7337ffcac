//! Pixel locations: pixel x and y, as the bits of `f32`s, and a z level.
use vstd::prelude::*;

verus! {

/// A pixel location. `x_bits` and `y_bits` hold the bits of the `f32` pixel
/// coordinates; `junk` is padding that the host reserves.
#[derive(Clone, Copy, Debug)]
pub struct ByondPixLoc {
    pub x_bits: u32,
    pub y_bits: u32,
    pub z: i16,
    pub junk: i16,
}

impl ByondPixLoc {
    /// A pixel location with the given coordinates.
    pub fn new(x_bits: u32, y_bits: u32, z: i16) -> (r: ByondPixLoc)
        ensures
            r.x_bits == x_bits && r.y_bits == y_bits && r.z == z && r.junk == 0,
    {
        ByondPixLoc { x_bits, y_bits, z, junk: 0 }
    }

    /// The location with every coordinate zero (the bits of `0.0` are zero).
    pub fn zero() -> (r: ByondPixLoc)
        ensures
            r.x_bits == 0 && r.y_bits == 0 && r.z == 0 && r.junk == 0,
    {
        ByondPixLoc::new(0, 0, 0)
    }

    /// The bits of the pixel X coordinate.
    pub fn x_bits(&self) -> (r: u32)
        ensures
            r == self.x_bits,
    {
        self.x_bits
    }

    /// The bits of the pixel Y coordinate.
    pub fn y_bits(&self) -> (r: u32)
        ensures
            r == self.y_bits,
    {
        self.y_bits
    }

    /// Returns the Z coordinate.
    #[inline]
    pub fn z(&self) -> (r: i16)
        ensures
            r == self.z,
    {
        self.z
    }
}

impl Default for ByondPixLoc {
    fn default() -> (r: ByondPixLoc)
        ensures
            r.x_bits == 0 && r.y_bits == 0 && r.z == 0 && r.junk == 0,
    {
        ByondPixLoc::zero()
    }
}

} // verus!
