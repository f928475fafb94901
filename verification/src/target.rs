//! Render-target vocabulary: plane identifiers, the screen-space rectangle,
//! and the bit-flag sets that name output planes.

use vstd::prelude::*;

verus! {

/// A depth value, specifying which plane to select out of a 3D texture.
pub type Layer = u16;

/// Mipmap level to select in a texture.
pub type Level = u8;

/// A single value from a stencil buffer.
pub type Stencil = u8;

/// A screen space rectangle.
#[derive(Clone, Copy, Debug, PartialEq, Eq, Structural, PartialOrd, Hash)]
pub struct Rect {
    pub x: u16,
    pub y: u16,
    pub w: u16,
    pub h: u16,
}

/// A color with four components.  Each component carries the raw bit
/// pattern of an IEEE-754 single-precision value; the backend reinterprets
/// the bits when it hands the color to the hardware.  The all-zero pattern
/// is the color black with zero alpha.
#[derive(Clone, Copy, Debug, PartialEq, Eq, Structural, PartialOrd, Hash)]
pub struct ColorValue {
    /// Bit pattern of the red component.
    pub red: u32,
    /// Bit pattern of the green component.
    pub green: u32,
    /// Bit pattern of the blue component.
    pub blue: u32,
    /// Bit pattern of the alpha component.
    pub alpha: u32,
}

/// Bit of [`Mirror`] that flips along the horizontal axis.
pub const MIRROR_X: u8 = 0x01;
/// Bit of [`Mirror`] that flips along the vertical axis.
pub const MIRROR_Y: u8 = 0x02;

/// Mirroring flags, used for blitting.
#[derive(Clone, Copy, Debug, PartialEq, Eq, Structural, Hash)]
pub struct Mirror {
    /// The raw flag bits; only `MIRROR_X` and `MIRROR_Y` are meaningful.
    pub bits: u8,
}

impl Mirror {
    /// The empty flag set: no mirroring.
    pub fn empty() -> (r: Mirror)
        ensures
            r.bits == 0,
    {
        Mirror { bits: 0 }
    }

    /// The union of two flag sets.
    pub fn union(self, other: Mirror) -> (r: Mirror)
        ensures
            r.bits == self.bits | other.bits,
    {
        Mirror { bits: self.bits | other.bits }
    }

    /// The intersection of two flag sets.
    pub fn intersect(self, other: Mirror) -> (r: Mirror)
        ensures
            r.bits == self.bits & other.bits,
    {
        Mirror { bits: self.bits & other.bits }
    }

    /// Whether every flag of `other` is also set in `self`.
    pub fn contains(self, other: Mirror) -> (r: bool)
        ensures
            r == (self.bits & other.bits == other.bits),
    {
        self.bits & other.bits == other.bits
    }
}

/// Bit of [`Mask`] for the first color target.
pub const MASK_COLOR0: u8 = 0x01;
/// Bit of [`Mask`] for the second color target.
pub const MASK_COLOR1: u8 = 0x02;
/// Bit of [`Mask`] for the third color target.
pub const MASK_COLOR2: u8 = 0x04;
/// Bit of [`Mask`] for the fourth color target.
pub const MASK_COLOR3: u8 = 0x08;
/// Bit of [`Mask`] for the depth plane.
pub const MASK_DEPTH: u8 = 0x10;
/// Bit of [`Mask`] for the stencil plane.
pub const MASK_STENCIL: u8 = 0x20;
/// All the bits of [`Mask`] that name a plane.
pub const MASK_ALL: u8 = 0x3F;

/// A set of render-target planes: up to four color targets, depth and
/// stencil.  A derived summary of which planes a draw-state configuration
/// touches, never stored in the state itself.
#[derive(Clone, Copy, Debug, PartialEq, Eq, Structural, Hash)]
pub struct Mask {
    /// The raw flag bits; only the bits of `MASK_ALL` are meaningful.
    pub bits: u8,
}

impl Mask {
    /// The empty flag set: no plane is touched.
    pub fn empty() -> (r: Mask)
        ensures
            r.bits == 0,
    {
        Mask { bits: 0 }
    }

    /// Whether no plane at all is in the set.
    pub fn is_empty(self) -> (r: bool)
        ensures
            r == (self.bits == 0),
    {
        self.bits == 0
    }

    /// The union of two flag sets.
    pub fn union(self, other: Mask) -> (r: Mask)
        ensures
            r.bits == self.bits | other.bits,
    {
        Mask { bits: self.bits | other.bits }
    }

    /// The intersection of two flag sets.
    pub fn intersect(self, other: Mask) -> (r: Mask)
        ensures
            r.bits == self.bits & other.bits,
    {
        Mask { bits: self.bits & other.bits }
    }

    /// Whether every plane of `other` is also in `self`.
    pub fn contains(self, other: Mask) -> (r: bool)
        ensures
            r == (self.bits & other.bits == other.bits),
    {
        self.bits & other.bits == other.bits
    }
}

} // verus!
