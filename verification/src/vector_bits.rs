use vstd::prelude::*;

verus! {

/// A 3-component vector carried by the bit patterns of its channels.
///
/// The render core never does floating-point arithmetic itself; where a
/// vector quantity (a radiance value, an intersection point, a surface
/// normal) must flow through it, each channel is held as the IEEE 754
/// bit pattern of the original 32-bit float. The application layer
/// converts with `f32::to_bits` / `f32::from_bits`, which are exact
/// inverses of one another, so nothing is lost in the round trip.
#[derive(Clone, Copy, PartialEq, Eq, Structural, Debug)]
pub struct VectorBits {
    pub x: u32,
    pub y: u32,
    pub z: u32,
}

impl VectorBits {
    pub fn new(x: u32, y: u32, z: u32) -> (v: VectorBits)
        ensures
            v == (VectorBits { x, y, z }),
    {
        VectorBits { x, y, z }
    }

    /// The zero vector: the bit pattern of +0.0 is 0 in every channel.
    pub fn zero() -> (v: VectorBits)
        ensures
            v == (VectorBits { x: 0u32, y: 0u32, z: 0u32 }),
    {
        VectorBits { x: 0, y: 0, z: 0 }
    }
}

} // verus!
