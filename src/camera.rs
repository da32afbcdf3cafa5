use vstd::prelude::*;

verus! {

/// A direction of keyboard movement, kept apart from any window system's keys.
#[allow(non_camel_case_types)]
#[derive(PartialEq, Eq, Structural, Clone, Copy, Debug)]
pub enum CameraMovement {
    FORWARD,
    BACKWARD,
    LEFT,
    RIGHT,
}

/// The camera basis vector along which a movement goes.
#[derive(PartialEq, Eq, Structural, Clone, Copy, Debug)]
pub enum Basis {
    Front,
    Right,
}

impl CameraMovement {
    /// Forward and backward move along `front`; left and right along `right`.
    pub open spec fn spec_basis(self) -> Basis {
        match self {
            CameraMovement::FORWARD | CameraMovement::BACKWARD => Basis::Front,
            CameraMovement::LEFT | CameraMovement::RIGHT => Basis::Right,
        }
    }

    /// Forward and right move with their basis vector, backward and left against it.
    pub open spec fn spec_sign(self) -> int {
        match self {
            CameraMovement::FORWARD | CameraMovement::RIGHT => 1,
            CameraMovement::BACKWARD | CameraMovement::LEFT => -1,
        }
    }

    /// The basis vector that this movement displaces the camera along.
    pub fn basis(self) -> (b: Basis)
        ensures
            b == self.spec_basis(),
    {
        match self {
            CameraMovement::FORWARD | CameraMovement::BACKWARD => Basis::Front,
            CameraMovement::LEFT | CameraMovement::RIGHT => Basis::Right,
        }
    }

    /// `1` where the camera moves with its basis vector, `-1` where against it:
    /// the new position is `position + basis * (sign * speed * delta_time)`.
    pub fn sign(self) -> (s: i8)
        ensures
            s as int == self.spec_sign(),
    {
        match self {
            CameraMovement::FORWARD | CameraMovement::RIGHT => 1,
            CameraMovement::BACKWARD | CameraMovement::LEFT => -1,
        }
    }
}

} // verus!
