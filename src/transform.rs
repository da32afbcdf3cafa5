use vstd::prelude::*;

verus! {

/// Position, rotation and scale of an entity, each a vector of type `V`.
///
/// Only `position` and `scale` take part in the model matrix that the
/// renderer composes (`translate(position) * scale(scale)`); `rotation` is
/// stored but not applied.
pub struct Transform<V> {
    pub position: V,
    pub rotation: V,
    pub scale: V,
}

impl<V> Transform<V> {
    pub fn new(position: V, rotation: V, scale: V) -> (t: Self)
        ensures
            t.position == position,
            t.rotation == rotation,
            t.scale == scale,
    {
        Transform { position, rotation, scale }
    }
}

} // verus!
