use vstd::prelude::*;

verus! {

/// Whether a body is simulated (`Dynamic`) or only stands in the way of
/// others (`Static`).
#[derive(Clone, Copy, Debug, PartialEq, Eq, Structural)]
pub enum BodyType {
    Static,
    Dynamic,
}

impl BodyType {
    pub open spec fn is_dynamic_spec(self) -> bool {
        self == BodyType::Dynamic
    }

    pub fn is_dynamic(&self) -> (r: bool)
        ensures
            r == self.is_dynamic_spec(),
    {
        match self {
            BodyType::Dynamic => true,
            BodyType::Static => false,
        }
    }

    pub fn is_static(&self) -> (r: bool)
        ensures
            r == !self.is_dynamic_spec(),
    {
        match self {
            BodyType::Dynamic => false,
            BodyType::Static => true,
        }
    }
}

/// Names one physics participant: a scene object or a camera, by its slot
/// in the store that holds it.
#[derive(Clone, Copy, Debug, PartialEq, Eq, Structural)]
pub enum BodyHandle {
    Object(usize),
    Camera(usize),
}

/// Switches a body between `Static` and `Dynamic`.
///
/// The velocity is always reset to `zero` on all three axes, so that no
/// momentum from before the switch is carried over.
pub fn set_body_type<S: Copy>(
    body_type: &mut BodyType,
    velocity: &mut [S; 3],
    new_type: BodyType,
    zero: S,
)
    ensures
        *final(body_type) == new_type,
        final(velocity)@ == seq![zero, zero, zero],
{
    *body_type = new_type;
    *velocity = [zero, zero, zero];
}

} // verus!
