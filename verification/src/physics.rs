//! Collision layers and the bit masks built from them.
use vstd::prelude::*;

verus! {

/// The collision layers of the game. Each layer owns one bit of a 32-bit
/// mask: the bit whose position is the layer's position in the list.
#[derive(Clone, Copy, Debug, PartialEq, Eq, Structural)]
pub enum PhysicsLayers {
    Default,
    MapGeometry,
    Prop,
    Player,
}

impl PhysicsLayers {
    /// Position of the layer in the declaration order.
    pub open spec fn index(self) -> nat {
        match self {
            PhysicsLayers::Default => 0,
            PhysicsLayers::MapGeometry => 1,
            PhysicsLayers::Prop => 2,
            PhysicsLayers::Player => 3,
        }
    }

    /// The single bit that stands for this layer.
    pub open spec fn spec_bits(self) -> u32 {
        match self {
            PhysicsLayers::Default => 1u32,
            PhysicsLayers::MapGeometry => 2u32,
            PhysicsLayers::Prop => 4u32,
            PhysicsLayers::Player => 8u32,
        }
    }

    /// The bit of this layer: `1 << index`.
    pub fn to_bits(&self) -> (r: u32)
        ensures
            r == self.spec_bits(),
            r == pow2_u32(self.index()),
    {
        match self {
            PhysicsLayers::Default => 1,
            PhysicsLayers::MapGeometry => 2,
            PhysicsLayers::Prop => 4,
            PhysicsLayers::Player => 8,
        }
    }

    /// The union of the bits of all layers.
    pub fn all_bits() -> (r: u32)
        ensures
            r == 15,
            forall|l: PhysicsLayers| #[trigger] has_all_spec(r, l.spec_bits()),
    {
        proof {
            assert forall|l: PhysicsLayers| #[trigger] has_all_spec(15u32, l.spec_bits()) by {
                let y = l.spec_bits();
                assert((15u32 & y) == y) by (bit_vector)
                    requires
                        y == 1u32 || y == 2u32 || y == 4u32 || y == 8u32,
                ;
            }
        }
        15
    }
}

impl Default for PhysicsLayers {
    /// The layer a value takes when none is given.
    fn default() -> (r: PhysicsLayers)
        ensures
            r == PhysicsLayers::Default,
    {
        PhysicsLayers::Default
    }
}

/// `2^n` for the small exponents that layers use.
pub open spec fn pow2_u32(n: nat) -> u32 {
    if n == 0 { 1u32 } else if n == 1 { 2u32 } else if n == 2 { 4u32 } else if n == 3 { 8u32 } else { 0u32 }
}

/// A mask holds every bit of `bits`.
pub open spec fn has_all_spec(mask: u32, bits: u32) -> bool {
    (mask & bits) == bits
}

/// Two masks share at least one layer.
pub open spec fn shares_layer(mask: u32, bits: u32) -> bool {
    (mask & bits) != 0
}

/// A mask of collision layers, as the bits of the layers it holds.
#[derive(Clone, Copy, Debug, PartialEq, Eq, Structural)]
pub struct LayerMask {
    pub bits: u32,
}

/// Calls `avian3d::prelude::LayerMask::has_all` on the masks with these
/// bits. In the source of the version used, the method computes
/// `(self & layers) != 0`: it reports whether the masks share at least one
/// layer, and this contract says just that.
#[verifier::external_body]
fn avian_has_all(mask_bits: u32, layer_bits: u32) -> (r: bool)
    ensures
        r == ((mask_bits & layer_bits) != 0u32),
{
    avian3d::prelude::LayerMask(mask_bits).has_all(avian3d::prelude::LayerMask(layer_bits))
}

impl LayerMask {
    /// The mask that holds exactly one layer.
    pub fn from_layer(layer: PhysicsLayers) -> (r: LayerMask)
        ensures
            r.bits == layer.spec_bits(),
    {
        LayerMask { bits: layer.to_bits() }
    }

    /// The collision engine's `has_all` test of this mask against `layers`:
    /// whether the two share a layer. For a mask of one layer, as the game
    /// uses it, that is whether this mask holds the layer.
    pub fn has_all(&self, layers: LayerMask) -> (r: bool)
        ensures
            r == shares_layer(self.bits, layers.bits),
    {
        avian_has_all(self.bits, layers.bits)
    }
}

/// For the mask of a single layer, sharing a layer with it and holding all
/// of it are the same.
pub proof fn one_layer_shared_iff_held(mask: u32, layer: PhysicsLayers)
    ensures
        shares_layer(mask, layer.spec_bits()) <==> has_all_spec(mask, layer.spec_bits()),
{
    let b = layer.spec_bits();
    assert(((mask & b) != 0u32) <==> ((mask & b) == b)) by (bit_vector)
        requires
            b == 1u32 || b == 2u32 || b == 4u32 || b == 8u32,
    ;
}

/// Distinct layers own distinct bits, and a one-layer mask holds a layer
/// exactly when it is that layer.
pub proof fn layer_bits_are_distinct(a: PhysicsLayers, b: PhysicsLayers)
    ensures
        (a.spec_bits() == b.spec_bits()) <==> (a == b),
        has_all_spec(a.spec_bits(), b.spec_bits()) <==> (a == b),
{
    let x = a.spec_bits();
    let y = b.spec_bits();
    assert(x == 1 || x == 2 || x == 4 || x == 8);
    assert(y == 1 || y == 2 || y == 4 || y == 8);
    assert((x & y) == y <==> x == y) by (bit_vector)
        requires
            x == 1u32 || x == 2u32 || x == 4u32 || x == 8u32,
            y == 1u32 || y == 2u32 || y == 4u32 || y == 8u32,
    ;
}

} // verus!
