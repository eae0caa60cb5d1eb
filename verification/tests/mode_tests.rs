use gt6::config::{Binding, Config};
use gt6::input::Input;
use gt6::mission::{advance, MissionPhase, MissionTick};
use gt6::state::{bust_fine, mode_keys, BoardTarget, Boarding, Mode};

/// The mode keys of one update (V, F, G, M, E), then the end of the frame.
fn apply_keys(m: Mode, inp: &mut Input, target: Option<BoardTarget>, slow: bool) -> (Mode, Option<Boarding>) {
    let r = mode_keys(m, inp, &Config::default(), target, slow, slow);
    inp.end_frame();
    r
}

fn on_foot() -> Mode {
    Mode { on_foot: true, ..Mode::new() }
}

#[test]
fn v_toggles_view_3d() {
    let mut inp = Input::new();
    let mut m = Mode::new();
    assert!(!m.view_3d);
    inp.key_down("v");
    m = apply_keys(m, &mut inp, None, true).0;
    assert!(m.view_3d, "pressing V enters 3D mode");
    inp.key_up("v");
    inp.key_down("v");
    m = apply_keys(m, &mut inp, None, true).0;
    assert!(!m.view_3d, "pressing V again returns to top-down");
}

#[test]
fn g_summons_the_dragon_and_controls_it() {
    let mut inp = Input::new();
    let mut m = Mode::new();
    inp.key_down("g");
    m = apply_keys(m, &mut inp, None, false).0;
    assert!(m.in_dragon, "G should summon + mount the dragon");
    assert!(m.view_3d, "mounting the dragon should switch to 3D");
    inp.key_up("g");
    inp.key_down("e");
    let (m, what) = apply_keys(m, &mut inp, None, false);
    assert!(!m.in_dragon, "E should exit the dragon");
    assert!(m.on_foot, "exiting the dragon should put you on foot");
    assert_eq!(what, Some(Boarding::LeftDragon));
}

#[test]
fn g_summons_the_dragon_even_while_driving_the_car() {
    let mut inp = Input::new();
    inp.key_down("w");
    inp.key_up("w");
    inp.end_frame();
    inp.key_down("g");
    // The car is moving (not slow): G still works.
    let (m, _) = apply_keys(Mode::new(), &mut inp, None, false);
    assert!(m.in_dragon, "G should summon the dragon even at speed");
}

#[test]
fn g_summons_the_dragon_on_foot() {
    let mut inp = Input::new();
    inp.key_down("g");
    let (m, _) = apply_keys(on_foot(), &mut inp, None, true);
    assert!(m.in_dragon, "G should summon the dragon on foot");
    assert!(!m.on_foot, "the player should be riding the dragon");
}

#[test]
fn e_toggles_enter_exit_car() {
    let mut inp = Input::new();
    inp.key_down("e"); // exit
    let (m, what) = apply_keys(Mode::new(), &mut inp, None, true);
    assert!(m.on_foot, "E should put the player on foot");
    assert_eq!(what, Some(Boarding::LeftVehicle));
    inp.key_up("e");
    inp.key_down("e"); // re-enter
    let (m, what) = apply_keys(m, &mut inp, Some(BoardTarget::Car), true);
    assert!(!m.on_foot, "E near a stopped car should re-enter it");
    assert_eq!(what, Some(Boarding::EnteredCar));
}

// The game's update is not in the library; this covers its payout step.
#[test]
fn mission_payout_adds_money() {
    let money: u32 = 100;
    let at = |seconds_left| MissionTick { at_marker: true, out_of_time: false, cooldown_over: false, seconds_left };
    let (phase, done, _) = advance(MissionPhase::ToPickup, 0, at(75));
    assert_eq!(phase, MissionPhase::ToDeliver);
    let (_, _, ev) = advance(phase, done, at(74));
    let paid = money + ev.unwrap().reward;
    assert!(paid > money, "delivery should pay money");
}

// The game's update is not in the library; this covers the fine and the
// mode a bust leaves.
#[test]
fn busted_loses_money_and_clears_heat() {
    let (fine, left) = bust_fine(1000);
    assert!(left < 1000);
    assert_eq!(fine + left, 1000);
    let m = Mode { in_plane: true, landing: true, ..Mode::new() }.busted();
    assert!(!m.in_plane && !m.in_dragon && !m.on_foot && m.riding.is_none());
}

#[test]
fn f_summons_the_plane_from_anywhere() {
    let mut inp = Input::new();
    inp.key_down("f");
    let (m, _) = apply_keys(on_foot(), &mut inp, None, true);
    assert!(m.in_plane, "F should summon + board the plane");
    assert!(!m.on_foot);
    // F again does nothing (E is how you leave).
    inp.key_up("f");
    inp.key_down("f");
    let (m2, _) = apply_keys(m, &mut inp, None, true);
    assert_eq!(m2, m);
}

#[test]
fn m_again_cancels_the_auto_land() {
    let mut inp = Input::new();
    let m = Mode { in_plane: true, ..Mode::new() };
    inp.key_down("m");
    let (m, _) = apply_keys(m, &mut inp, None, false);
    assert!(m.landing);
    inp.key_up("m");
    inp.key_down("m");
    let (m, _) = apply_keys(m, &mut inp, None, false);
    assert!(!m.landing, "second M should cancel the auto-land");
}

#[test]
fn m_does_nothing_outside_the_plane() {
    let mut inp = Input::new();
    inp.key_down("m");
    let mut m = Mode::new();
    for _ in 0..10 {
        m = apply_keys(m, &mut inp, None, true).0;
    }
    assert!(!m.landing && !m.in_plane, "M is a plane-only control");
}

#[test]
fn e_mounts_an_elephant_and_it_carries_the_player() {
    let mut inp = Input::new();
    inp.key_down("e");
    let (m, what) = apply_keys(on_foot(), &mut inp, Some(BoardTarget::Elephant(0)), true);
    assert_eq!(m.riding, Some(0), "should be mounted");
    assert!(!m.on_foot);
    assert_eq!(what, Some(Boarding::MountedElephant(0)));
    // Held E does not count again: the rider stays on.
    let (m2, what2) = apply_keys(m, &mut inp, Some(BoardTarget::Elephant(0)), true);
    assert_eq!(m2.riding, Some(0), "should stay mounted");
    assert_eq!(what2, None);
}

#[test]
fn e_again_dismounts_back_to_the_street() {
    let mut inp = Input::new();
    inp.key_down("e");
    let (m, _) = apply_keys(on_foot(), &mut inp, Some(BoardTarget::Elephant(0)), true);
    inp.key_up("e");
    inp.key_down("e");
    let (m, what) = apply_keys(m, &mut inp, None, true);
    assert!(m.riding.is_none(), "second E should dismount");
    assert!(m.on_foot, "dismounting should leave the player on foot");
    assert_eq!(what, Some(Boarding::LeftElephant));
}

#[test]
fn e_far_from_everything_boards_nothing() {
    let mut inp = Input::new();
    inp.key_down("e");
    let (m, what) = apply_keys(on_foot(), &mut inp, None, true);
    assert!(m.riding.is_none(), "E far from everything should not board");
    assert!(m.on_foot, "player should stay on foot");
    assert!(!m.in_plane && !m.in_dragon, "nothing else should trigger");
    assert_eq!(what, Some(Boarding::NothingInReach));
}

#[test]
fn fast_vehicle_must_stop_first() {
    let mut inp = Input::new();
    inp.key_down("e");
    let (m, what) = apply_keys(Mode::new(), &mut inp, None, false);
    assert_eq!(m, Mode::new());
    assert_eq!(what, Some(Boarding::StopFirst));
}

#[test]
fn keys_in_one_frame_apply_in_order() {
    let mut inp = Input::new();
    // F then M in the same frame: summon the airplane, then start the
    // auto-land in it; V flips the view first.
    inp.key_down("V");
    inp.key_down("f");
    inp.key_down("m");
    let (m, what) = apply_keys(on_foot(), &mut inp, None, true);
    assert!(m.in_plane && m.landing && m.view_3d && !m.on_foot);
    assert_eq!(what, None);
    // Nothing pressed: nothing changes.
    let (m2, what) = apply_keys(m, &mut inp, None, true);
    assert_eq!(m2, m);
    assert_eq!(what, None);
}

#[test]
fn special_keys_follow_the_bindings() {
    let mut cfg = Config::default();
    cfg.set_key(Binding::View, "b".into());
    let mut inp = Input::new();
    inp.key_down("v");
    let (m, _) = mode_keys(Mode::new(), &inp, &cfg, None, true, true);
    assert!(!m.view_3d, "V no longer switches the view");
    inp.end_frame();
    inp.key_down("B");
    let (m, _) = mode_keys(Mode::new(), &inp, &cfg, None, true, true);
    assert!(m.view_3d, "the rebound key does");
}

#[test]
fn e_looks_at_the_vehicle_the_player_is_in_by_then() {
    let mut inp = Input::new();
    inp.key_down("f");
    inp.key_down("e");
    // The car is fast, the summoned airplane is not: F puts the player in
    // the airplane, and E then gets out of it.
    let (m, what) = mode_keys(Mode::new(), &inp, &Config::default(), None, false, true);
    assert_eq!(what, Some(Boarding::LeftVehicle));
    assert!(m.on_foot && !m.in_plane);
    let (m, what) = mode_keys(Mode::new(), &inp, &Config::default(), None, true, false);
    assert_eq!(what, Some(Boarding::StopFirst));
    assert!(m.in_plane);
}
