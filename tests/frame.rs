use car_sim::frame::{any_quit_request, decide_frame, requests_quit, FrameStep, InputEvent, Key};
use car_sim::intent::{CarPedal, CarSteering, HeldKeys};

const W_AND_A: HeldKeys = HeldKeys { w: true, a: true, s: false, d: false };

#[test]
fn quit_event_terminates() {
    let events = vec![InputEvent::Other, InputEvent::Quit];
    assert_eq!(decide_frame(&events, W_AND_A), FrameStep::Terminate);
}

#[test]
fn escape_and_q_terminate() {
    let escape = vec![InputEvent::KeyDown { keycode: Some(Key::Escape) }];
    let q = vec![InputEvent::KeyDown { keycode: Some(Key::Q) }, InputEvent::Other];
    assert_eq!(decide_frame(&escape, W_AND_A), FrameStep::Terminate);
    assert_eq!(decide_frame(&q, W_AND_A), FrameStep::Terminate);
}

#[test]
fn other_keys_do_not_terminate() {
    let events = vec![
        InputEvent::KeyDown { keycode: Some(Key::Other) },
        InputEvent::KeyDown { keycode: None },
        InputEvent::Other,
    ];
    assert!(!any_quit_request(&events));
    assert_eq!(
        decide_frame(&events, W_AND_A),
        FrameStep::Advance { pedal: CarPedal::Forward, steering: CarSteering::Left }
    );
}

#[test]
fn empty_frame_advances_with_held_keys() {
    let keys = HeldKeys { w: false, a: true, s: true, d: true };
    assert_eq!(
        decide_frame(&Vec::new(), keys),
        FrameStep::Advance { pedal: CarPedal::Backward, steering: CarSteering::Straight }
    );
}

#[test]
fn single_event_quit_check() {
    assert!(requests_quit(&InputEvent::Quit));
    assert!(requests_quit(&InputEvent::KeyDown { keycode: Some(Key::Q) }));
    assert!(!requests_quit(&InputEvent::KeyDown { keycode: None }));
    assert!(!requests_quit(&InputEvent::Other));
}
