use gt6::config::{Binding, Config, MouseButton};
use gt6::input::Input;

#[test]
fn arrow_keys_map_to_car_controls() {
    let cfg = Config::default();
    let mut inp = Input::new();
    // Up = throttle.
    inp.key_down("arrowup");
    let ci = inp.car_controls(&cfg);
    assert_eq!(ci.throttle, 1);
    assert_eq!(ci.steer, 0);
    inp.key_up("arrowup");
    // Down = brake/reverse.
    inp.key_down("arrowdown");
    let ci = inp.car_controls(&cfg);
    assert_eq!(ci.throttle, -1);
    inp.key_up("arrowdown");
    // Left = steer left.
    inp.key_down("arrowleft");
    let ci = inp.car_controls(&cfg);
    assert_eq!(ci.steer, -1);
    assert_eq!(ci.throttle, 0);
    inp.key_up("arrowleft");
    // Right = steer right.
    inp.key_down("arrowright");
    let ci = inp.car_controls(&cfg);
    assert_eq!(ci.steer, 1);
    inp.key_up("arrowright");
}

#[test]
fn rebinding_movement_keys_works() {
    let mut cfg = Config::default();
    cfg.set_key(Binding::Forward, "k".into());
    let mut inp = Input::new();
    inp.key_down("w"); // unbound now
    let ci = inp.car_controls(&cfg);
    assert_eq!(ci.throttle, 0, "W is no longer forward");
    inp.key_up("w");
    inp.key_down("k");
    let ci = inp.car_controls(&cfg);
    assert_eq!(ci.throttle, 1, "K is forward now");
}

#[test]
fn press_and_release_tracking() {
    let mut inp = Input::new();
    inp.key_down("W"); // case-insensitive
    assert!(inp.just_pressed("w"));
    assert!(inp.is_down("w"));
    inp.end_frame();
    assert!(!inp.just_pressed("w"));
    assert!(inp.is_down("w"));
    inp.key_up("w");
    assert!(!inp.is_down("w"));
}

#[test]
fn repeated_keydown_does_not_retrigger_edge() {
    let mut inp = Input::new();
    inp.key_down("e");
    assert!(inp.just_pressed("e"));
    inp.end_frame();
    inp.key_down("e"); // auto-repeat while held
    assert!(!inp.just_pressed("e"));
}

#[test]
fn car_controls_map_keys() {
    let mut inp = Input::new();
    let cfg = Config::default();
    inp.key_down("w");
    inp.key_down("d");
    inp.key_down(" ");
    let ci = inp.car_controls(&cfg);
    assert_eq!(ci.throttle, 1);
    assert_eq!(ci.steer, 1);
    assert!(ci.handbrake);
    assert!(!ci.boost);

    let mut inp2 = Input::new();
    inp2.key_down("arrowup");
    inp2.key_down("arrowleft");
    let ci2 = inp2.car_controls(&cfg);
    assert_eq!(ci2.throttle, 1);
    assert_eq!(ci2.steer, -1);
}

#[test]
fn right_button_and_wheel_are_tracked() {
    let mut inp = Input::new();
    inp.mouse_right_down();
    assert!(inp.mouse_right_state());
    // Dragging counts while the right button is down too.
    assert!(inp.any_button_down());
    inp.end_frame();
    inp.mouse_right_up();
    assert!(!inp.mouse_right_state());
    assert!(!inp.any_button_down());
}

#[test]
fn mouse_drag_accumulates_and_resets_each_frame() {
    let mut inp = Input::new();
    assert!(!inp.any_button_down()); // not dragging
    inp.mouse_down();
    assert!(inp.any_button_down());
    inp.end_frame();
    assert!(inp.mouse_down_state());
    inp.mouse_up();
    assert!(!inp.any_button_down()); // released
    assert!(!inp.mouse_down_state());
}

#[test]
fn foot_controls_diagonal_is_normalized_enough() {
    let cfg = Config::default();
    let mut inp = Input::new();
    inp.key_down("w");
    inp.key_down("d");
    let (dx, dy, run) = inp.foot_controls(&cfg);
    assert_eq!((dx, dy), (1, -1));
    assert!(!run);
}

#[test]
fn all_three_mouse_buttons_are_tracked() {
    let mut inp = Input::new();
    inp.mouse_down();
    inp.mouse_middle_down();
    inp.mouse_right_down();
    assert!(inp.button_down(MouseButton::LMB));
    assert!(inp.button_down(MouseButton::MMB));
    assert!(inp.button_down(MouseButton::RMB));
    assert!(inp.any_button_down());
    inp.end_frame();
    inp.mouse_up();
    inp.mouse_middle_up();
    inp.mouse_right_up();
    assert!(!inp.any_button_down());
}

#[test]
fn controls_priorities_and_pitch() {
    let cfg = Config::default();
    let mut inp = Input::new();
    inp.key_down("w");
    inp.key_down("S");
    inp.key_down("a");
    inp.key_down("d");
    inp.key_down("shift");
    inp.key_down(" ");
    let ci = inp.car_controls(&cfg);
    assert_eq!(ci.throttle, -1, "back wins over forward");
    assert_eq!(ci.steer, 1, "right wins over left");
    assert_eq!(ci.pitch, 1, "climb wins over dive");
    assert!(ci.boost && ci.handbrake);
    let (dx, dy, run) = inp.foot_controls(&cfg);
    assert_eq!((dx, dy, run), (0, 0, true));
    assert!(inp.vehicle_input(&cfg));
    inp.key_up("shift");
    assert_eq!(inp.car_controls(&cfg).pitch, -1);
    let idle = Input::new();
    assert!(!idle.vehicle_input(&cfg));
    assert_eq!(idle.car_controls(&cfg), gt6::car::CarInput::default());
}

#[test]
fn just_pressed_keys_and_prevent_keys() {
    let mut inp = Input::new();
    inp.key_down("A");
    inp.key_down("b");
    inp.key_down("a");
    inp.key_up("b");
    let mut ks = inp.just_pressed_keys();
    ks.sort();
    assert_eq!(ks, vec!["a".to_string(), "b".to_string()]);
    inp.end_frame();
    assert!(inp.just_pressed_keys().is_empty());
    let cfg = Config::default();
    let p = Input::prevent_keys(&cfg);
    for k in ["w", "escape", "f1", " ", "arrowup", "arrowright", "g"] {
        assert!(p.contains(&k.to_string()), "{k}");
    }
    let mut dedup = p.clone();
    dedup.sort();
    dedup.dedup();
    assert_eq!(dedup.len(), p.len(), "each key once");
    assert_eq!(p.len(), 16 + 4);
}
