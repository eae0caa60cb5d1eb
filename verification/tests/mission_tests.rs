use gt6::mission::{advance, MissionPhase, MissionTick, DELIVERY_SECONDS};

fn tick(at_marker: bool, out_of_time: bool, cooldown_over: bool, seconds_left: i64) -> MissionTick {
    MissionTick { at_marker, out_of_time, cooldown_over, seconds_left }
}

#[test]
fn pickup_then_delivery_then_reward() {
    // Away from the marker nothing happens.
    let (p, done, ev) = advance(MissionPhase::ToPickup, 0, tick(false, false, false, 0));
    assert_eq!((p, done, ev), (MissionPhase::ToPickup, 0, None));
    // At the pickup: the delivery starts, no pay yet.
    let (p, done, ev) = advance(p, done, tick(true, false, false, 0));
    let ev = ev.unwrap();
    assert_eq!(ev.reward, 0);
    assert_eq!(ev.msg, "PACKAGE PICKED UP — DELIVER IT!");
    assert_eq!(p, MissionPhase::ToDeliver);
    // Deliver right away, 74 whole seconds left.
    let left = DELIVERY_SECONDS as i64 - 1;
    let (p, done, ev) = advance(p, done, tick(true, false, false, left));
    let ev = ev.unwrap();
    assert_eq!(ev.msg, "DELIVERED!");
    assert_eq!(ev.reward, 400 + 740);
    assert_eq!(p, MissionPhase::Cooldown);
    assert_eq!(done, 1);
    // The cooldown runs, then a new package.
    let (p, done, ev) = advance(p, done, tick(false, false, false, 0));
    assert_eq!((p, done, ev), (MissionPhase::Cooldown, 1, None));
    let (p, done, ev) = advance(p, done, tick(false, false, true, 0));
    assert_eq!(p, MissionPhase::ToPickup);
    assert_eq!(done, 1);
    assert_eq!(ev.unwrap().msg, "NEW PACKAGE AVAILABLE");
}

#[test]
fn delivery_timeout_fails_mission() {
    let (p, done, ev) = advance(MissionPhase::ToDeliver, 0, tick(false, false, false, 0));
    assert_eq!((p, done, ev), (MissionPhase::ToDeliver, 0, None));
    let (p, done, ev) = advance(p, done, tick(false, true, false, 0));
    let ev = ev.unwrap();
    assert!(ev.msg.contains("FAILED"));
    assert_eq!(ev.reward, 0);
    assert_eq!(p, MissionPhase::Cooldown);
    assert_eq!(done, 0);
}

#[test]
fn reaching_the_drop_off_beats_the_timer() {
    // At the drop-off as the timer runs out: still delivered, base pay.
    let (p, done, ev) = advance(MissionPhase::ToDeliver, 3, tick(true, true, false, -1));
    assert_eq!(p, MissionPhase::Cooldown);
    assert_eq!(done, 4);
    assert_eq!(ev.unwrap().reward, 400);
}
