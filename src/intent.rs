//! Turning raw per-frame input into the driver's intent.
use vstd::prelude::*;

verus! {

/// What the driver does with the pedals during one tick.
#[derive(Clone, Copy, Debug, PartialEq, Eq, Structural)]
pub enum CarPedal {
    Forward,
    Backward,
    /// Neither pedal is pressed.
    Coast,
}

/// Which way the driver turns the wheel during one tick.
#[derive(Clone, Copy, Debug, PartialEq, Eq, Structural)]
pub enum CarSteering {
    Left,
    Right,
    /// The wheel is held straight.
    Straight,
}

/// The driving keys that are held down during a frame.
#[derive(Clone, Copy, Debug, PartialEq, Eq, Structural)]
pub struct HeldKeys {
    pub w: bool,
    pub a: bool,
    pub s: bool,
    pub d: bool,
}

/// The pedal that a set of held keys selects: W accelerates, S brakes, and W
/// wins when both are held.
pub open spec fn pedal_for(keys: HeldKeys) -> CarPedal {
    if keys.w {
        CarPedal::Forward
    } else if keys.s {
        CarPedal::Backward
    } else {
        CarPedal::Coast
    }
}

/// The steering that a set of held keys selects: A turns left, D turns right,
/// and the two cancel out.
pub open spec fn steering_for(keys: HeldKeys) -> CarSteering {
    if keys.a && !keys.d {
        CarSteering::Left
    } else if keys.d && !keys.a {
        CarSteering::Right
    } else {
        CarSteering::Straight
    }
}

/// The sign of the rotation that a steering intent applies.
pub open spec fn turn_sign_of(steering: CarSteering) -> int {
    match steering {
        CarSteering::Left => -1,
        CarSteering::Right => 1,
        CarSteering::Straight => 0,
    }
}

impl CarPedal {
    /// Decodes the pedal from the held keys.
    pub fn from_keys(keys: HeldKeys) -> (r: CarPedal)
        ensures
            r == pedal_for(keys),
    {
        if keys.w {
            CarPedal::Forward
        } else if keys.s {
            CarPedal::Backward
        } else {
            CarPedal::Coast
        }
    }
}

impl CarSteering {
    /// Decodes the steering from the held keys.
    pub fn from_keys(keys: HeldKeys) -> (r: CarSteering)
        ensures
            r == steering_for(keys),
    {
        if keys.a && !keys.d {
            CarSteering::Left
        } else if keys.d && !keys.a {
            CarSteering::Right
        } else {
            CarSteering::Straight
        }
    }

    /// The sign of the rotation applied while steering: negative to the left,
    /// positive to the right, none when going straight.
    pub fn turn_sign(&self) -> (r: i32)
        ensures
            r == turn_sign_of(*self),
    {
        match self {
            CarSteering::Left => -1,
            CarSteering::Right => 1,
            CarSteering::Straight => 0,
        }
    }
}

} // verus!
