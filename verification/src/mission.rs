//! Missions: a fetch-and-deliver loop. Pick up the package at the yellow
//! marker, deliver it to the green marker before the timer runs out. The
//! reward scales with the remaining time.

use vstd::prelude::*;

verus! {

/// Seconds allowed for a delivery.
pub const DELIVERY_SECONDS: u32 = 75;

/// Something notable happened (HUD message / money / audio).
#[derive(Clone, Copy, Debug, PartialEq, Eq)]
pub struct MissionEvent {
    pub msg: &'static str,
    pub reward: u32,
}

/// The delivery reward: 400 plus 10 per whole second left (none once the
/// timer has run out).
pub open spec fn reward(seconds_left: int) -> int {
    400 + 10 * if seconds_left > 0 {
        seconds_left
    } else {
        0
    }
}

/// The reward for a delivery made with `seconds_left` whole seconds left on
/// the timer (the time left truncated toward zero; negative once the timer
/// has run out).
pub fn reward_for(seconds_left: i64) -> (r: u32)
    requires
        reward(seconds_left as int) <= u32::MAX,
    ensures
        r == reward(seconds_left as int),
{
    let s: u32 = if seconds_left > 0 {
        seconds_left as u32
    } else {
        0
    };
    400 + s * 10
}

/// A faster delivery never pays less: the reward grows with the time left,
/// and is never below the base pay.
pub proof fn lemma_reward_monotone(a: int, b: int)
    requires
        a <= b,
    ensures
        reward(a) <= reward(b),
        reward(a) >= 400,
{
}

/// Where a mission stands: heading for the package, heading for the
/// drop-off with the timer running, or the short pause before the next
/// package appears.
#[derive(Clone, Copy, Debug, PartialEq, Eq, Structural)]
pub enum MissionPhase {
    ToPickup,
    ToDeliver,
    Cooldown,
}

/// What one update saw: the player is at the current marker; the delivery
/// timer has run out (time left <= 0 after this update); the cooldown has
/// ended; and the whole seconds left on the delivery timer.
#[derive(Clone, Copy, Debug, PartialEq, Eq)]
pub struct MissionTick {
    pub at_marker: bool,
    pub out_of_time: bool,
    pub cooldown_over: bool,
    pub seconds_left: i64,
}

/// The messages of the mission loop.
pub open spec fn picked_up_msg() -> Seq<char> {
    "PACKAGE PICKED UP — DELIVER IT!"@
}

pub open spec fn delivered_msg() -> Seq<char> {
    "DELIVERED!"@
}

pub open spec fn failed_msg() -> Seq<char> {
    "MISSION FAILED — DELIVERY TOO SLOW"@
}

pub open spec fn new_package_msg() -> Seq<char> {
    "NEW PACKAGE AVAILABLE"@
}

/// The next phase, the completed count, and the event (as message text and
/// reward) of one update.
pub open spec fn mission_step(phase: MissionPhase, completed: u32, t: MissionTick) -> (
    MissionPhase,
    int,
    Option<(Seq<char>, int)>,
) {
    match phase {
        MissionPhase::Cooldown => if t.cooldown_over {
            (MissionPhase::ToPickup, completed as int, Some((new_package_msg(), 0)))
        } else {
            (MissionPhase::Cooldown, completed as int, None)
        },
        MissionPhase::ToPickup => if t.at_marker {
            (MissionPhase::ToDeliver, completed as int, Some((picked_up_msg(), 0)))
        } else {
            (MissionPhase::ToPickup, completed as int, None)
        },
        MissionPhase::ToDeliver => if t.at_marker {
            (
                MissionPhase::Cooldown,
                completed + 1,
                Some((delivered_msg(), reward(t.seconds_left as int))),
            )
        } else if t.out_of_time {
            (MissionPhase::Cooldown, completed as int, Some((failed_msg(), 0)))
        } else {
            (MissionPhase::ToDeliver, completed as int, None)
        },
    }
}

/// An event as (message text, reward).
pub open spec fn event_view(e: Option<MissionEvent>) -> Option<(Seq<char>, int)> {
    match e {
        Some(ev) => Some((ev.msg@, ev.reward as int)),
        None => None,
    }
}

/// One mission update: reaching the package starts the delivery; reaching
/// the drop-off pays [`reward`] and counts the mission; running out of time
/// fails it; either way a cooldown follows, after which a new package is
/// announced. Placing the markers and running the clocks is the caller's.
pub fn advance(phase: MissionPhase, completed: u32, t: MissionTick) -> (r: (
    MissionPhase,
    u32,
    Option<MissionEvent>,
))
    requires
        phase == MissionPhase::ToDeliver && t.at_marker ==> completed < u32::MAX && reward(
            t.seconds_left as int,
        ) <= u32::MAX,
    ensures
        (r.0, r.1 as int, event_view(r.2)) == mission_step(phase, completed, t),
{
    match phase {
        MissionPhase::Cooldown => if t.cooldown_over {
            (
                MissionPhase::ToPickup,
                completed,
                Some(MissionEvent { msg: "NEW PACKAGE AVAILABLE", reward: 0 }),
            )
        } else {
            (MissionPhase::Cooldown, completed, None)
        },
        MissionPhase::ToPickup => if t.at_marker {
            (
                MissionPhase::ToDeliver,
                completed,
                Some(MissionEvent { msg: "PACKAGE PICKED UP — DELIVER IT!", reward: 0 }),
            )
        } else {
            (MissionPhase::ToPickup, completed, None)
        },
        MissionPhase::ToDeliver => if t.at_marker {
            let pay = reward_for(t.seconds_left);
            (
                MissionPhase::Cooldown,
                completed + 1,
                Some(MissionEvent { msg: "DELIVERED!", reward: pay }),
            )
        } else if t.out_of_time {
            (
                MissionPhase::Cooldown,
                completed,
                Some(MissionEvent { msg: "MISSION FAILED — DELIVERY TOO SLOW", reward: 0 }),
            )
        } else {
            (MissionPhase::ToDeliver, completed, None)
        },
    }
}

/// Only a delivery counts and pays: an update adds at most one completed
/// mission, and exactly when it ends a delivery at the drop-off, with a
/// reward of at least the base pay; every other event pays nothing. Each
/// event ends or starts a phase, and a quiet update keeps the phase.
pub proof fn lemma_only_deliveries_pay(phase: MissionPhase, completed: u32, t: MissionTick)
    ensures
        ({
            let (next, done, ev) = mission_step(phase, completed, t);
            &&& (done == completed + 1) <==> (phase == MissionPhase::ToDeliver && t.at_marker)
            &&& done == completed || done == completed + 1
            &&& (ev matches Some((_, pay)) && pay > 0) <==> done == completed + 1
            &&& done == completed + 1 ==> ev.unwrap().1 >= 400
            &&& ev is None <==> next == phase
        }),
{
}

/// The loop goes round: package, drop-off, cooldown, next package, with no
/// other transitions.
pub proof fn lemma_phase_cycle(phase: MissionPhase, completed: u32, t: MissionTick)
    ensures
        ({
            let next = mission_step(phase, completed, t).0;
            next == phase || (phase == MissionPhase::ToPickup && next == MissionPhase::ToDeliver)
                || (phase == MissionPhase::ToDeliver && next == MissionPhase::Cooldown) || (phase
                == MissionPhase::Cooldown && next == MissionPhase::ToPickup)
        }),
{
}

/// The money after an update's mission event: a delivery's reward is
/// added, stopping at the most a `u32` holds; other events pay nothing.
pub fn pay(money: u32, ev: &Option<MissionEvent>) -> (r: u32)
    ensures
        r == match ev {
            Some(e) => if money + e.reward <= u32::MAX {
                money + e.reward
            } else {
                u32::MAX as int
            },
            None => money as int,
        },
{
    match ev {
        Some(e) => money.saturating_add(e.reward),
        None => money,
    }
}

} // verus!
