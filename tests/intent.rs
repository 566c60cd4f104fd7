use car_sim::intent::{CarPedal, CarSteering, HeldKeys};

fn keys(w: bool, a: bool, s: bool, d: bool) -> HeldKeys {
    HeldKeys { w, a, s, d }
}

#[test]
fn w_accelerates() {
    assert_eq!(CarPedal::from_keys(keys(true, false, false, false)), CarPedal::Forward);
}

#[test]
fn s_brakes() {
    assert_eq!(CarPedal::from_keys(keys(false, false, true, false)), CarPedal::Backward);
}

#[test]
fn w_wins_over_s() {
    assert_eq!(CarPedal::from_keys(keys(true, false, true, false)), CarPedal::Forward);
}

#[test]
fn no_pedal_key_coasts() {
    assert_eq!(CarPedal::from_keys(keys(false, true, false, true)), CarPedal::Coast);
}

#[test]
fn a_steers_left() {
    assert_eq!(CarSteering::from_keys(keys(false, true, false, false)), CarSteering::Left);
}

#[test]
fn d_steers_right() {
    assert_eq!(CarSteering::from_keys(keys(true, false, false, true)), CarSteering::Right);
}

#[test]
fn a_and_d_cancel_out() {
    assert_eq!(CarSteering::from_keys(keys(false, true, false, true)), CarSteering::Straight);
}

#[test]
fn no_steering_key_goes_straight() {
    assert_eq!(CarSteering::from_keys(keys(true, false, true, false)), CarSteering::Straight);
}

#[test]
fn turn_signs() {
    assert_eq!(CarSteering::Left.turn_sign(), -1);
    assert_eq!(CarSteering::Right.turn_sign(), 1);
    assert_eq!(CarSteering::Straight.turn_sign(), 0);
}
