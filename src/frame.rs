//! The level's per-frame decision: stop, or advance the simulation by one tick
//! with the driver's intent.
use vstd::prelude::*;
use crate::intent::{CarPedal, CarSteering, HeldKeys, pedal_for, steering_for};

verus! {

/// The keys whose presses matter to the level.
#[derive(Clone, Copy, Debug, PartialEq, Eq, Structural)]
pub enum Key {
    Escape,
    Q,
    /// Any other key.
    Other,
}

/// One event from the input queue, reduced to what the level reads.
#[derive(Clone, Copy, Debug, PartialEq, Eq, Structural)]
pub enum InputEvent {
    /// The window was asked to close.
    Quit,
    /// A key went down; `keycode` is absent when the key has no key code.
    KeyDown { keycode: Option<Key> },
    /// Anything else.
    Other,
}

/// What the level does with one frame of input.
#[derive(Clone, Copy, Debug, PartialEq, Eq, Structural)]
pub enum FrameStep {
    /// The user asked to stop: nothing is updated.
    Terminate,
    /// Advance the car by one tick with this intent, then the camera.
    Advance { pedal: CarPedal, steering: CarSteering },
}

/// Whether an event asks the simulation to stop: closing the window, or
/// pressing Escape or Q.
pub open spec fn is_quit_request(e: InputEvent) -> bool {
    match e {
        InputEvent::Quit => true,
        InputEvent::KeyDown { keycode: Option::Some(k) } => k == Key::Escape || k == Key::Q,
        _ => false,
    }
}

/// Whether any event of a frame asks the simulation to stop.
pub open spec fn has_quit_request(events: Seq<InputEvent>) -> bool {
    exists|i: int| 0 <= i < events.len() && is_quit_request(#[trigger] events[i])
}

/// The step that a frame of input calls for.
pub open spec fn step_for(events: Seq<InputEvent>, keys: HeldKeys) -> FrameStep {
    if has_quit_request(events) {
        FrameStep::Terminate
    } else {
        FrameStep::Advance { pedal: pedal_for(keys), steering: steering_for(keys) }
    }
}

/// Tells whether one event asks the simulation to stop.
pub fn requests_quit(e: &InputEvent) -> (r: bool)
    ensures
        r == is_quit_request(*e),
{
    match e {
        InputEvent::Quit => true,
        InputEvent::KeyDown { keycode: Some(Key::Escape) } => true,
        InputEvent::KeyDown { keycode: Some(Key::Q) } => true,
        _ => false,
    }
}

/// Tells whether any event of a frame asks the simulation to stop.
pub fn any_quit_request(events: &Vec<InputEvent>) -> (r: bool)
    ensures
        r == has_quit_request(events@),
{
    let mut i: usize = 0;
    while i < events.len()
        invariant
            i <= events@.len(),
            forall|j: int| 0 <= j < i ==> !is_quit_request(#[trigger] events@[j]),
        decreases events@.len() - i,
    {
        if requests_quit(&events[i]) {
            return true;
        }
        i += 1;
    }
    false
}

/// Decides what the level does with one frame: stop when any event asks for
/// it, else advance one tick with the pedal and steering that the held keys
/// select.
pub fn decide_frame(events: &Vec<InputEvent>, keys: HeldKeys) -> (r: FrameStep)
    ensures
        r == step_for(events@, keys),
        r == FrameStep::Terminate <==> has_quit_request(events@),
{
    if any_quit_request(events) {
        FrameStep::Terminate
    } else {
        FrameStep::Advance { pedal: CarPedal::from_keys(keys), steering: CarSteering::from_keys(keys) }
    }
}

} // verus!
