//! The directions in which a camera is moved.
//!
//! The camera itself works in floating point and lives with the caller. What
//! is decided here is the axis along which a direction moves it: the caller
//! scales that axis by speed and elapsed time.

use vstd::prelude::*;

verus! {

#[allow(non_camel_case_types)]
#[derive(Clone, Copy, PartialEq, Eq, Structural, Debug)]
pub enum CameraDirection {
    NONE,
    FOWARD,
    BACKWARD,
    LEFT,
    RIGHT,
    UP,
    DOWN,
}

/// A step along the axes of the camera's space, each component -1, 0 or 1.
#[derive(Clone, Copy, PartialEq, Eq, Structural, Debug)]
pub struct AxisStep {
    pub x: i8,
    pub y: i8,
    pub z: i8,
}

impl AxisStep {
    /// The square of the length of the step.
    pub open spec fn length_squared(self) -> int {
        self.x * self.x + self.y * self.y + self.z * self.z
    }
}

impl CameraDirection {
    /// The step of a direction. Forward is along the positive z axis, right
    /// along the positive x axis, and down along the positive y axis.
    pub open spec fn spec_step(&self) -> AxisStep {
        match self {
            CameraDirection::NONE => AxisStep { x: 0, y: 0, z: 0 },
            CameraDirection::FOWARD => AxisStep { x: 0, y: 0, z: 1 },
            CameraDirection::BACKWARD => AxisStep { x: 0, y: 0, z: -1i8 },
            CameraDirection::LEFT => AxisStep { x: -1i8, y: 0, z: 0 },
            CameraDirection::RIGHT => AxisStep { x: 1, y: 0, z: 0 },
            CameraDirection::UP => AxisStep { x: 0, y: -1i8, z: 0 },
            CameraDirection::DOWN => AxisStep { x: 0, y: 1, z: 0 },
        }
    }

    /// The step of this direction: of length 1, except for `NONE`, which does
    /// not move.
    #[verifier::when_used_as_spec(spec_step)]
    pub fn step(&self) -> (r: AxisStep)
        ensures
            r == self.spec_step(),
            r.length_squared() == if *self == CameraDirection::NONE {
                0int
            } else {
                1int
            },
    {
        let r = match self {
            CameraDirection::NONE => AxisStep { x: 0, y: 0, z: 0 },
            CameraDirection::FOWARD => AxisStep { x: 0, y: 0, z: 1 },
            CameraDirection::BACKWARD => AxisStep { x: 0, y: 0, z: -1 },
            CameraDirection::LEFT => AxisStep { x: -1, y: 0, z: 0 },
            CameraDirection::RIGHT => AxisStep { x: 1, y: 0, z: 0 },
            CameraDirection::UP => AxisStep { x: 0, y: -1, z: 0 },
            CameraDirection::DOWN => AxisStep { x: 0, y: 1, z: 0 },
        };
        proof {
            lemma_length_of_step(*self);
        }
        r
    }

    /// Whether this direction moves the camera at all.
    pub fn moves(&self) -> (r: bool)
        ensures
            r == (self.spec_step().length_squared() > 0),
            r == (*self != CameraDirection::NONE),
    {
        proof {
            lemma_length_of_step(*self);
        }
        match self {
            CameraDirection::NONE => false,
            _ => true,
        }
    }
}

/// Every direction but `NONE` steps by one unit along one axis.
pub proof fn lemma_length_of_step(direction: CameraDirection)
    ensures
        direction.spec_step().length_squared() == if direction == CameraDirection::NONE {
            0int
        } else {
            1int
        },
{
    let step = direction.spec_step();
    assert(step.x * step.x == if step.x == 0 {
        0int
    } else {
        1int
    }) by (nonlinear_arith)
        requires
            -1 <= step.x <= 1,
    ;
    assert(step.y * step.y == if step.y == 0 {
        0int
    } else {
        1int
    }) by (nonlinear_arith)
        requires
            -1 <= step.y <= 1,
    ;
    assert(step.z * step.z == if step.z == 0 {
        0int
    } else {
        1int
    }) by (nonlinear_arith)
        requires
            -1 <= step.z <= 1,
    ;
}

} // verus!
