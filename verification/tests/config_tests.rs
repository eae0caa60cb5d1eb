use gt6::config::{key_display, normalize_key, ini_key, Binding, Config, MouseButton};

#[test]
fn default_ini_round_trip() {
    let c = Config::default();
    let (parsed, sens) = Config::parse_ini(&c.to_ini("1.00"));
    assert_eq!(c, parsed);
    assert_eq!(sens.len(), 1);
    assert_eq!(sens[0].parse::<f64>().unwrap(), 1.0);
}

#[test]
fn custom_ini_parses() {
    let ini = r#"
# my bindings
[movement]
forward = k
back = j
steer_left = h
steer_right = l
boost_climb = r
handbrake_dive = space

[mouse]
throttle_button = mmb
brake_button = lmb
sensitivity = 2.5

[specials]
view = z
config_page = f1
"#;
    let (c, sens) = Config::parse_ini(ini);
    assert_eq!(c.forward, "k");
    assert_eq!(c.back, "j");
    assert_eq!(c.steer_left, "h");
    assert_eq!(c.steer_right, "l");
    assert_eq!(c.boost_climb, "r");
    assert_eq!(c.handbrake_dive, " ");
    assert_eq!(c.throttle_button, MouseButton::MMB);
    assert_eq!(c.brake_button, MouseButton::LMB);
    assert_eq!(sens.len(), 1);
    assert_eq!(sens[0].parse::<f64>().unwrap(), 2.5);
    assert_eq!(c.view, "z");
    assert_eq!(c.config_page, "f1");
    // Untouched values keep the defaults.
    assert_eq!(c.pause, "p");
    assert_eq!(c.fireball_button, MouseButton::LMB);
}

#[test]
fn unknown_lines_are_ignored_and_clamped() {
    let ini = "[mouse]\nsensitivity = 99\n[bogus]\nwhatever = 1\n";
    let (c, sens) = Config::parse_ini(ini);
    // The sensitivity text is handed on for the caller to parse and clamp.
    assert_eq!(sens, vec!["99".to_string()]);
    assert_eq!(sens[0].parse::<f64>().unwrap().clamp(0.25, 4.0), 4.0, "sensitivity clamps to max");
    let d = Config::default();
    assert_eq!(c, d, "unknown lines are ignored, the rest stays default");
}

#[test]
fn set_key_unbinds_from_other_rows() {
    let mut c = Config::default();
    // Bind FORWARD to the E key: ENTER/EXIT must give it up.
    c.set_key(Binding::Forward, "e".into());
    assert_eq!(c.forward, "e");
    assert_eq!(c.enter_exit, "", "E was stolen from ENTER/EXIT");
    // Bind it back.
    c.set_key(Binding::EnterExit, "e".into());
    assert_eq!(c.enter_exit, "e");
    assert_eq!(c.forward, "");
    // Normalization.
    c.set_key(Binding::Forward, "SPACE".into());
    assert_eq!(c.forward, " ");
}

#[test]
fn mouse_button_cycle_and_names() {
    let mut c = Config::default();
    assert_eq!(c.brake_button, MouseButton::RMB);
    c.cycle_mouse_button(Binding::BrakeButton, -1);
    assert_eq!(c.brake_button, MouseButton::MMB);
    c.cycle_mouse_button(Binding::BrakeButton, -1);
    assert_eq!(c.brake_button, MouseButton::LMB);
    assert_eq!(MouseButton::from_name("LMB").unwrap(), MouseButton::LMB);
    assert_eq!(MouseButton::from_name("middle").unwrap(), MouseButton::MMB);
    assert_eq!(MouseButton::from_name("nope"), None);
}

#[test]
fn key_display_and_normalize() {
    assert_eq!(key_display(" "), "SPACE");
    assert_eq!(key_display("escape"), "ESC");
    assert_eq!(key_display("f1"), "F1");
    assert_eq!(key_display("arrowup"), "ARROW UP");
    assert_eq!(normalize_key("Esc"), "escape");
    assert_eq!(normalize_key("Space"), " ");
    assert_eq!(normalize_key(" W "), "w");
}

#[test]
fn all_keys_collects_bound_keys() {
    let c = Config::default();
    let ks = c.all_keys();
    assert!(ks.contains(&"w".to_string()) && ks.contains(&"e".to_string()) && ks.contains(&"escape".to_string()));
    assert!(!ks.contains(&"q".to_string()));
}

#[test]
fn all_keys_lists_each_key_once_in_row_order() {
    let mut c = Config::default();
    c.set_key(Binding::Forward, "p".into());
    assert_eq!(c.pause, "");
    let ks = c.all_keys();
    assert_eq!(ks.len(), 15);
    assert_eq!(ks[0], "p");
    assert_eq!(ks[5], " ");
    assert_eq!(ks[14], "escape");
    assert!(!ks.contains(&"w".to_string()));
}

#[test]
fn set_key_never_steals_the_config_page_key() {
    let mut c = Config::default();
    c.set_key(Binding::Forward, "Escape".into());
    assert_eq!(c.forward, "w");
    assert_eq!(c.config_page, "escape");
    c.set_key(Binding::Forward, "esc".into());
    assert_eq!(c.forward, "w");
    // The config page itself can move to another key, taking it from its row.
    c.set_key(Binding::ConfigPage, "w".into());
    assert_eq!(c.config_page, "w");
    assert_eq!(c.forward, "");
}

#[test]
fn set_key_ignores_mouse_rows_and_empty_keys() {
    let mut c = Config::default();
    c.set_key(Binding::Sensitivity, "x".into());
    c.set_key(Binding::ThrottleButton, "x".into());
    c.set_key(Binding::Back, "   ".into());
    assert_eq!(c, Config::default());
}

#[test]
fn binding_rows_and_labels() {
    assert_eq!(Binding::from_usize(0), Binding::Forward);
    assert_eq!(Binding::from_usize(20), Binding::ConfigPage);
    assert_eq!(Binding::from_usize(21), Binding::Forward);
    assert_eq!(Binding::from_usize(45), Binding::SteerRight);
    for (i, b) in Binding::ALL.iter().enumerate() {
        assert_eq!(b.as_usize(), i);
        assert_eq!(Binding::from_usize(i), *b);
    }
    assert_eq!(Binding::COUNT, 21);
    assert_eq!(Binding::BoostClimb.label(), "RUN · BOOST · CLIMB");
    assert_eq!(Binding::ConfigPage.label(), "CONFIG PAGE");
    assert_eq!(Binding::Forward.section(), Some("MOVEMENT"));
    assert_eq!(Binding::ThrottleButton.section(), Some("MOUSE"));
    assert_eq!(Binding::EnterExit.section(), Some("SPECIAL ACTIONS"));
    assert_eq!(Binding::Back.section(), None);
}

#[test]
fn mouse_button_names_and_cycle() {
    assert_eq!(MouseButton::Lmb.index(), 0);
    assert_eq!(MouseButton::Rmb.index(), 2);
    assert_eq!(MouseButton::Mmb.name(), "mmb");
    assert_eq!(MouseButton::Rmb.display(), "RMB");
    assert_eq!(MouseButton::from_name("  Right "), Some(MouseButton::Rmb));
    assert_eq!(MouseButton::from_name("0"), Some(MouseButton::Lmb));
    assert_eq!(MouseButton::Rmb.cycle(1), MouseButton::Lmb);
    assert_eq!(MouseButton::Lmb.cycle(-1), MouseButton::Rmb);
    assert_eq!(MouseButton::Mmb.cycle(7), MouseButton::Rmb);
    assert_eq!(MouseButton::Mmb.cycle(-7), MouseButton::Lmb);
    assert_eq!(MouseButton::Mmb.cycle(3).cycle(-3), MouseButton::Mmb);
    assert_eq!(MouseButton::ALL.len(), 3);
}

#[test]
fn ini_key_writes_space_by_name() {
    assert_eq!(ini_key(" "), "space");
    assert_eq!(ini_key("shift"), "shift");
    assert_eq!(ini_key(""), "");
}

#[test]
fn normalize_key_trims_unicode_white_space() {
    assert_eq!(normalize_key("\u{3000}\tF1\r\n"), "f1");
    assert_eq!(normalize_key("ÄB"), "Äb");
    assert_eq!(normalize_key("  "), "");
    assert_eq!(key_display("shift"), "SHIFT");
    assert_eq!(key_display("arrowright"), "ARROW RIGHT");
}

#[test]
fn white_space_matches_the_standard_library() {
    for u in 0u32..=0x10FFFF {
        if let Some(c) = char::from_u32(u) {
            assert_eq!(gt6::text::is_white_space(c), c.is_whitespace(), "U+{u:04X}");
        }
    }
}

#[test]
fn ini_text_is_written_in_order() {
    let c = Config::default();
    let t = c.to_ini("1.00");
    assert!(t.starts_with("# GTA VI — Web Edition: key bindings & mouse behavior\n"));
    assert!(t.contains("\n\n[movement]\nforward = w\nback = s\n"));
    assert!(t.contains("handbrake_dive = space\n\n[mouse]\nthrottle_button = lmb\n"));
    assert!(t.contains("sensitivity = 1.00\n\n[specials]\nenter_exit = e\n"));
    assert!(t.ends_with("recenter = r\nconfig_page = escape\n"));
    assert_eq!(t.lines().count(), 30);
}

#[test]
fn ini_reader_accepts_aliases_comments_and_crlf() {
    let ini = "; comment\r\n[MOVEMENT]\r\n  Run = Q \r\ndive=ctrl\r\n[Specials]\r\nplane = Esc\r\nconfig = x\r\n[mouse]\r\nwalk_forward_button = middle\r\nbrake_button = nope\r\nsensitivity = 2\r\nsensitivity = 3";
    let (c, sens) = Config::parse_ini(ini);
    assert_eq!(c.boost_climb, "q");
    assert_eq!(c.handbrake_dive, "ctrl");
    assert_eq!(c.summon_airplane, "escape");
    assert_eq!(c.config_page, "x");
    assert_eq!(c.walk_button, MouseButton::Mmb);
    assert_eq!(c.brake_button, MouseButton::Rmb);
    assert_eq!(sens, vec!["2".to_string(), "3".to_string()]);
    assert_eq!(Config::from_ini(ini), c);
}

#[test]
fn custom_config_round_trips_through_ini() {
    let mut c = Config::default();
    c.set_key(Binding::Forward, "K".into());
    c.set_key(Binding::Pause, "space".into());
    c.set_mouse_button(Binding::WalkButton, MouseButton::Mmb);
    let (back, sens) = Config::parse_ini(&c.to_ini("0.75"));
    assert_eq!(back, c);
    assert_eq!(sens, vec!["0.75".to_string()]);
}

#[test]
fn space_key_stays_normalized() {
    assert_eq!(normalize_key(" "), " ");
    for k in [" ", "Space", " W ", "Esc", "  ", "F1"] {
        let once = normalize_key(k);
        assert_eq!(normalize_key(&once), once);
    }
}

#[test]
fn forward_on_space_survives_the_ini() {
    let mut c = Config::default();
    c.set_key(Binding::Forward, "SPACE".into());
    assert_eq!(c.forward, " ");
    let t = c.to_ini("1.00");
    assert!(t.lines().any(|l| l == "forward = space"));
    assert!(t.lines().any(|l| l == "handbrake_dive = "));
    let (back, _) = Config::parse_ini(&t);
    assert_eq!(back, c);
    assert_eq!(Config::from_ini(&t), c);
}
