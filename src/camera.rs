use vstd::prelude::*;

verus! {

/// How the active camera moves. Only a `RigidBody` camera is pulled by
/// gravity during a world step.
#[derive(Clone, Copy, Debug, PartialEq, Eq, Structural)]
pub enum MoveState {
    Locked,
    RigidBody,
    Free,
    PanObit,
}

impl MoveState {
    /// Whether the camera moves as a physics body.
    pub fn is_rigid_body(&self) -> (r: bool)
        ensures
            r <==> *self == MoveState::RigidBody,
    {
        match self {
            MoveState::RigidBody => true,
            _ => false,
        }
    }
}

} // verus!
