//! The player's mode (car, airplane, dragon, on foot, elephant), how the
//! special keys switch it, the "SPECIALS" panel listing what they do right
//! now, building ids and the bust penalty.

use vstd::prelude::*;
use crate::city::LOTS;
use crate::config::{Config, ConfigView};
use crate::input::Input;
use crate::mission::MissionEvent;
use crate::text::lower;

verus! {

/// What E boards while on foot: the nearest of the car, the (low) plane, or
/// an elephant in reach.
#[derive(Clone, Copy, Debug, PartialEq, Eq, Structural)]
pub enum BoardTarget {
    Car,
    Plane,
    Elephant(usize),
}

/// One row of the top-right "SPECIALS" HUD panel: a key and what it does in
/// the current situation.
#[derive(Clone, Copy, Debug, PartialEq, Eq)]
pub struct SpecialAction {
    pub key: &'static str,
    pub label: &'static str,
}

impl View for SpecialAction {
    type V = (Seq<char>, Seq<char>);

    open spec fn view(&self) -> (Seq<char>, Seq<char>) {
        (self.key@, self.label@)
    }
}

/// Events that need DOM/audio side effects (emitted by the game update).
pub enum Event {
    Crash,
    PedHit,
    PoliceHit,
    Mission(MissionEvent),
    Busted,
    EnterCar,
    ExitCar,
    Fireball,
    BuildingDown,
}

/// The id of the `lot`-th building slot of block `block`.
pub open spec fn id_of(block: int, lot: int) -> int {
    block * 4 + lot
}

/// Stable id for the `lot`-th building slot of block `block` (j * N + i),
/// truncated to 32 bits.
pub fn building_id(block: usize, lot: usize) -> (id: u32)
    requires
        id_of(block as int, lot as int) <= usize::MAX,
    ensures
        id == id_of(block as int, lot as int) % 0x1_0000_0000,
{
    let v: u64 = (block * 4 + lot) as u64;
    (v % 0x1_0000_0000u64) as u32
}

/// Reverse of [`building_id`]: (block, lot) from an id.
pub fn block_lot(id: u32) -> (r: (usize, usize))
    ensures
        r.0 == id / 4,
        r.1 == id % 4,
{
    ((id / 4) as usize, (id % 4) as usize)
}

/// Ids and (block, lot) pairs are in one-to-one correspondence: splitting
/// the id of a slot gives the slot back (for ids that fit in 32 bits), and
/// the slot of an id has that id.
pub proof fn lemma_building_id_round_trip(block: int, lot: int, id: int)
    requires
        0 <= block,
        0 <= lot < LOTS,
        0 <= id,
    ensures
        id_of(block, lot) < 0x1_0000_0000 ==> id_of(block, lot) / 4 == block && id_of(block, lot)
            % 4 == lot,
        id_of(id / 4, id % 4) == id,
        0 <= id % 4 < LOTS,
{
}

/// The money left after a bust, and the fine: a quarter of the money,
/// rounded half up.
pub open spec fn fine(money: u32) -> int {
    (money + 2) / 4
}

/// Busted: the fine taken (a quarter of the money, rounded to the nearest
/// dollar, halves up) and the money left.
pub fn bust_fine(money: u32) -> (r: (u32, u32))
    ensures
        r.0 == fine(money),
        r.1 == money - fine(money),
{
    let f: u32 = ((money as u64 + 2) / 4) as u32;
    (f, money - f)
}

/// A fine never exceeds the money, so money never goes negative.
pub proof fn lemma_fine_bounded(money: u32)
    ensures
        0 <= fine(money) <= money,
        money - fine(money) + fine(money) == money,
{
}

/// Where the player is: in the car (no flag set), in the airplane, on the
/// dragon, on foot, or riding an elephant; plus the airplane's auto-land
/// and the 3D view.
#[derive(Clone, Copy, Debug, PartialEq, Eq)]
pub struct Mode {
    pub in_plane: bool,
    pub in_dragon: bool,
    pub on_foot: bool,
    /// Index of the elephant ridden.
    pub riding: Option<usize>,
    /// The auto-land autopilot is flying the airplane.
    pub landing: bool,
    pub view_3d: bool,
}

/// 1 if `b`, else 0.
pub open spec fn one(b: bool) -> int {
    if b {
        1
    } else {
        0
    }
}

/// The player is in at most one place: the airplane, the dragon, on foot or
/// on an elephant (none of them: in the car).
pub open spec fn exclusive(m: Mode) -> bool {
    one(m.in_plane) + one(m.in_dragon) + one(m.on_foot) + one(m.riding is Some) <= 1
}

/// What E did.
#[derive(Clone, Copy, Debug, PartialEq, Eq, Structural)]
pub enum Boarding {
    /// Got off the dragon, dropping to the street below.
    LeftDragon,
    /// Jumped off the elephant to the street beside it.
    LeftElephant,
    EnteredCar,
    EnteredPlane,
    MountedElephant(usize),
    /// On foot with nothing in reach.
    NothingInReach,
    /// Stepped out of the (nearly stopped) car or airplane.
    LeftVehicle,
    /// The vehicle is too fast to get out.
    StopFirst,
}

/// The mode after E, and what happened, given what is in reach on foot and
/// whether the vehicle is slow enough to get out.
pub open spec fn after_e(m: Mode, target: Option<BoardTarget>, slow: bool) -> (Mode, Boarding) {
    if m.in_dragon {
        (Mode { in_dragon: false, on_foot: true, ..m }, Boarding::LeftDragon)
    } else if m.riding is Some {
        (Mode { riding: None, on_foot: true, ..m }, Boarding::LeftElephant)
    } else if m.on_foot {
        match target {
            Some(BoardTarget::Car) => (
                Mode { in_plane: false, on_foot: false, ..m },
                Boarding::EnteredCar,
            ),
            Some(BoardTarget::Plane) => (
                Mode { in_plane: true, on_foot: false, ..m },
                Boarding::EnteredPlane,
            ),
            Some(BoardTarget::Elephant(i)) => (
                Mode { riding: Some(i), on_foot: false, ..m },
                Boarding::MountedElephant(i),
            ),
            None => (m, Boarding::NothingInReach),
        }
    } else if slow {
        (Mode { on_foot: true, in_plane: false, ..m }, Boarding::LeftVehicle)
    } else {
        (m, Boarding::StopFirst)
    }
}

impl Mode {
    /// The start of a game: in the parked car, top-down view.
    pub fn new() -> (m: Mode)
        ensures
            !m.in_plane && !m.in_dragon && !m.on_foot && m.riding is None && !m.landing
                && !m.view_3d,
    {
        Mode {
            in_plane: false,
            in_dragon: false,
            on_foot: false,
            riding: None,
            landing: false,
            view_3d: false,
        }
    }

    /// F: summon the airplane and take the controls, from anywhere (getting
    /// off the dragon or the elephant); nothing happens in the airplane.
    pub fn summon_plane(self) -> (m: Mode)
        ensures
            m == if self.in_plane {
                self
            } else {
                Mode { in_plane: true, in_dragon: false, on_foot: false, riding: None, ..self }
            },
    {
        if self.in_plane {
            return self;
        }
        Mode { in_plane: true, in_dragon: false, on_foot: false, riding: None, ..self }
    }

    /// G: summon the dragon and take its reins, from anywhere (leaving the
    /// airplane parked in the air), switching to the 3D view; nothing
    /// happens on the dragon.
    pub fn summon_dragon(self) -> (m: Mode)
        ensures
            m == if self.in_dragon {
                self
            } else {
                Mode {
                    in_dragon: true,
                    view_3d: true,
                    on_foot: false,
                    in_plane: false,
                    riding: None,
                    ..self
                }
            },
    {
        if self.in_dragon {
            return self;
        }
        Mode {
            in_dragon: true,
            view_3d: true,
            on_foot: false,
            in_plane: false,
            riding: None,
            ..self
        }
    }

    /// M: toggle the auto-land (airplane only).
    pub fn toggle_landing(self) -> (m: Mode)
        ensures
            m == if self.in_plane {
                Mode { landing: !self.landing, ..self }
            } else {
                self
            },
    {
        if self.in_plane {
            Mode { landing: !self.landing, ..self }
        } else {
            self
        }
    }

    /// V: toggle top-down / 3D view.
    pub fn toggle_view(self) -> (m: Mode)
        ensures
            m == (Mode { view_3d: !self.view_3d, ..self }),
    {
        Mode { view_3d: !self.view_3d, ..self }
    }

    /// E: board / exit. On the dragon or the elephant: get off, on foot. On
    /// foot: board `target` (what is in reach), if any. In the car or the
    /// airplane: step out if `slow`.
    pub fn press_e(self, target: Option<BoardTarget>, slow: bool) -> (r: (Mode, Boarding))
        ensures
            r == after_e(self, target, slow),
    {
        if self.in_dragon {
            (Mode { in_dragon: false, on_foot: true, ..self }, Boarding::LeftDragon)
        } else if self.riding.is_some() {
            (Mode { riding: None, on_foot: true, ..self }, Boarding::LeftElephant)
        } else if self.on_foot {
            match target {
                Some(BoardTarget::Car) => (
                    Mode { in_plane: false, on_foot: false, ..self },
                    Boarding::EnteredCar,
                ),
                Some(BoardTarget::Plane) => (
                    Mode { in_plane: true, on_foot: false, ..self },
                    Boarding::EnteredPlane,
                ),
                Some(BoardTarget::Elephant(i)) => (
                    Mode { riding: Some(i), on_foot: false, ..self },
                    Boarding::MountedElephant(i),
                ),
                None => (self, Boarding::NothingInReach),
            }
        } else if slow {
            (Mode { on_foot: true, in_plane: false, ..self }, Boarding::LeftVehicle)
        } else {
            (self, Boarding::StopFirst)
        }
    }

    /// Busted: back in the car (off the airplane, the dragon, the street or
    /// the elephant).
    pub fn busted(self) -> (m: Mode)
        ensures
            m == (Mode {
                in_plane: false,
                in_dragon: false,
                on_foot: false,
                riding: None,
                ..self
            }),
    {
        Mode { in_plane: false, in_dragon: false, on_foot: false, riding: None, ..self }
    }
}

/// Every switch keeps the player in one place at a time.
pub proof fn lemma_modes_exclusive(m: Mode, target: Option<BoardTarget>, slow: bool)
    requires
        exclusive(m),
    ensures
        exclusive(if m.in_plane {
            m
        } else {
            Mode { in_plane: true, in_dragon: false, on_foot: false, riding: None, ..m }
        }),
        exclusive(if m.in_dragon {
            m
        } else {
            Mode { in_dragon: true, view_3d: true, on_foot: false, in_plane: false, riding: None, ..m }
        }),
        exclusive(after_e(m, target, slow).0),
        exclusive(Mode { in_plane: false, in_dragon: false, on_foot: false, riding: None, ..m }),
        exclusive(Mode { landing: !m.landing, ..m }),
        exclusive(Mode { view_3d: !m.view_3d, ..m }),
{
}

/// E undoes E: stepping out of a slow car and pressing E with the car in
/// reach puts the player back in the car, and getting off an elephant and
/// boarding it again puts the player back on it.
pub proof fn lemma_e_round_trip(m: Mode, i: usize)
    requires
        exclusive(m),
        !m.in_plane && !m.in_dragon && !m.on_foot,
    ensures
        m.riding is None ==> after_e(after_e(m, None, true).0, Some(BoardTarget::Car), true).0 == m,
        m.riding == Some(i) ==> after_e(
            after_e(m, None, true).0,
            Some(BoardTarget::Elephant(i)),
            true,
        ).0 == m,
{
}

/// The elephant ridden, if any, is one of the `n` elephants.
pub open spec fn riding_valid(m: Mode, n: nat) -> bool {
    m.riding matches Some(i) ==> i < n
}

/// What E would board, if an elephant, is one of the `n` elephants.
pub open spec fn target_valid(t: Option<BoardTarget>, n: nat) -> bool {
    t matches Some(BoardTarget::Elephant(i)) ==> i < n
}

/// The mode after one update's special keys, in the order the game looks
/// at them: view (V by default), summon the airplane (F, unless in it),
/// summon the dragon (G, unless on it), auto-land (M, airplane only), then
/// board / exit (E, see [`after_e`]); and what board / exit did, if its key
/// was pressed. `just` holds the keys pressed since the last update, `c` the
/// bindings (a key is looked up in ASCII lowercase); `car_slow` and
/// `plane_slow` say whether the car and the airplane are slow enough to get
/// out of, and E looks at the vehicle the player is in by then.
pub open spec fn after_keys(
    m: Mode,
    just: Set<Seq<char>>,
    c: ConfigView,
    target: Option<BoardTarget>,
    car_slow: bool,
    plane_slow: bool,
) -> (Mode, Option<Boarding>) {
    let m1 = if just.contains(lower(c.keys[11])) {
        Mode { view_3d: !m.view_3d, ..m }
    } else {
        m
    };
    let m2 = if just.contains(lower(c.keys[7])) && !m1.in_plane {
        Mode { in_plane: true, in_dragon: false, on_foot: false, riding: None, ..m1 }
    } else {
        m1
    };
    let m3 = if just.contains(lower(c.keys[8])) && !m2.in_dragon {
        Mode { in_dragon: true, view_3d: true, on_foot: false, in_plane: false, riding: None, ..m2 }
    } else {
        m2
    };
    let m4 = if just.contains(lower(c.keys[9])) && m3.in_plane {
        Mode { landing: !m3.landing, ..m3 }
    } else {
        m3
    };
    let slow = if m4.in_plane {
        plane_slow
    } else {
        car_slow
    };
    if just.contains(lower(c.keys[6])) {
        (after_e(m4, target, slow).0, Some(after_e(m4, target, slow).1))
    } else {
        (m4, None)
    }
}

/// One update's special keys (as bound in `cfg`: view, summon airplane,
/// summon dragon, auto-land, board / exit) applied to the mode, given what
/// E would board on foot and whether the car and the airplane are slow
/// enough to get out of; also what board / exit did, if its key was
/// pressed.
pub fn mode_keys(
    m: Mode,
    input: &Input,
    cfg: &Config,
    target: Option<BoardTarget>,
    car_slow: bool,
    plane_slow: bool,
) -> (r: (Mode, Option<Boarding>))
    ensures
        r == after_keys(m, input@.just, cfg@, target, car_slow, plane_slow),
{
    let mut m = m;
    if input.just_pressed(cfg.view.as_str()) {
        m = m.toggle_view();
    }
    if input.just_pressed(cfg.summon_airplane.as_str()) && !m.in_plane {
        m = m.summon_plane();
    }
    if input.just_pressed(cfg.summon_dragon.as_str()) && !m.in_dragon {
        m = m.summon_dragon();
    }
    if input.just_pressed(cfg.auto_land.as_str()) && m.in_plane {
        m = m.toggle_landing();
    }
    if input.just_pressed(cfg.enter_exit.as_str()) {
        let slow = if m.in_plane {
            plane_slow
        } else {
            car_slow
        };
        let (next, what) = m.press_e(target, slow);
        (next, Some(what))
    } else {
        (m, None)
    }
}

/// Whatever keys are pressed, the player stays in at most one place, and
/// an elephant ridden is always one of the herd (given that what E would
/// board is).
pub proof fn lemma_keys_keep_modes(
    m: Mode,
    just: Set<Seq<char>>,
    c: ConfigView,
    target: Option<BoardTarget>,
    car_slow: bool,
    plane_slow: bool,
    n: nat,
)
    requires
        exclusive(m),
        riding_valid(m, n),
        target_valid(target, n),
    ensures
        exclusive(after_keys(m, just, c, target, car_slow, plane_slow).0),
        riding_valid(after_keys(m, just, c, target, car_slow, plane_slow).0, n),
{
}

/// Every single switch keeps an elephant ridden one of the herd: summoning
/// the airplane or the dragon and a bust leave no elephant ridden, the
/// toggles keep the ridden one, and E mounts only what is in reach.
pub proof fn lemma_riding_stays_valid(m: Mode, target: Option<BoardTarget>, slow: bool, n: nat)
    requires
        riding_valid(m, n),
        target_valid(target, n),
    ensures
        riding_valid(after_e(m, target, slow).0, n),
        riding_valid(Mode { in_plane: true, in_dragon: false, on_foot: false, riding: None, ..m }, n),
        riding_valid(
            Mode { in_dragon: true, view_3d: true, on_foot: false, in_plane: false, riding: None, ..m },
            n,
        ),
        riding_valid(Mode { in_plane: false, in_dragon: false, on_foot: false, riding: None, ..m }, n),
        riding_valid(Mode { landing: !m.landing, ..m }, n),
        riding_valid(Mode { view_3d: !m.view_3d, ..m }, n),
{
}

/// The rows of the "SPECIALS" panel, as (key, label) texts.
pub open spec fn special_rows(m: Mode, target: Option<BoardTarget>) -> Seq<
    (Seq<char>, Seq<char>),
> {
    let e_rows = if m.in_dragon {
        seq![("E"@, "EXIT DRAGON (DROP DOWN)"@), ("LMB"@, "FIREBALL"@)]
    } else if m.riding is Some {
        seq![("E"@, "JUMP OFF ELEPHANT"@)]
    } else if m.on_foot {
        match target {
            Some(BoardTarget::Car) => seq![("E"@, "ENTER CAR"@)],
            Some(BoardTarget::Plane) => seq![("E"@, "ENTER AIRPLANE"@)],
            Some(BoardTarget::Elephant(_)) => seq![("E"@, "BOARD ELEPHANT"@)],
            None => Seq::empty(),
        }
    } else {
        seq![
            ("E"@, if m.in_plane {
                "EXIT AIRPLANE (WHEN SLOW)"@
            } else {
                "EXIT CAR (WHEN SLOW)"@
            }),
        ] + if m.in_plane {
            seq![
                ("M"@, if m.landing {
                    "CANCEL AUTO-LAND"@
                } else {
                    "AUTO-LAND"@
                }),
            ]
        } else {
            Seq::empty()
        }
    };
    let summon = (if !m.in_plane {
        seq![("F"@, "SUMMON AIRPLANE"@)]
    } else {
        Seq::empty()
    }) + (if !m.in_dragon {
        seq![("G"@, "SUMMON DRAGON"@)]
    } else {
        Seq::empty()
    });
    let view = seq![
        ("V"@, if m.view_3d {
            "TOP-DOWN VIEW"@
        } else {
            "3D CHASE-CAM"@
        }),
    ] + if m.view_3d {
        seq![("C"@, "RESET CAMERA"@)]
    } else {
        Seq::empty()
    };
    e_rows + summon + view + seq![("P"@, "PAUSE"@), ("R"@, "RE-CENTER CAMERA"@)]
}

/// The special actions available right now, with their keys — drawn as
/// the always-on "SPECIALS" panel in the top-right corner of the HUD.
/// `target` is what E would board (looked at only on foot).
pub fn special_actions(m: &Mode, target: Option<BoardTarget>) -> (a: Vec<SpecialAction>)
    ensures
        a@.map_values(|x: SpecialAction| x@) == special_rows(*m, target),
{
    let mut a: Vec<SpecialAction> = Vec::new();
    // E — board / exit the nearest rideable thing.
    if m.in_dragon {
        a.push(SpecialAction { key: "E", label: "EXIT DRAGON (DROP DOWN)" });
        a.push(SpecialAction { key: "LMB", label: "FIREBALL" });
    } else if m.riding.is_some() {
        a.push(SpecialAction { key: "E", label: "JUMP OFF ELEPHANT" });
    } else if m.on_foot {
        match target {
            Some(BoardTarget::Car) => a.push(SpecialAction { key: "E", label: "ENTER CAR" }),
            Some(BoardTarget::Plane) => a.push(SpecialAction { key: "E", label: "ENTER AIRPLANE" }),
            Some(BoardTarget::Elephant(_)) => a.push(
                SpecialAction { key: "E", label: "BOARD ELEPHANT" },
            ),
            None => {},
        }
    } else {
        a.push(
            SpecialAction {
                key: "E",
                label: if m.in_plane {
                    "EXIT AIRPLANE (WHEN SLOW)"
                } else {
                    "EXIT CAR (WHEN SLOW)"
                },
            },
        );
        if m.in_plane {
            a.push(
                SpecialAction {
                    key: "M",
                    label: if m.landing {
                        "CANCEL AUTO-LAND"
                    } else {
                        "AUTO-LAND"
                    },
                },
            );
        }
    }
    let ghost e_len = a@.len();
    // Summon keys — they work from anywhere and never collide with movement.
    if !m.in_plane {
        a.push(SpecialAction { key: "F", label: "SUMMON AIRPLANE" });
    }
    if !m.in_dragon {
        a.push(SpecialAction { key: "G", label: "SUMMON DRAGON" });
    }
    // View & camera.
    a.push(
        SpecialAction {
            key: "V",
            label: if m.view_3d {
                "TOP-DOWN VIEW"
            } else {
                "3D CHASE-CAM"
            },
        },
    );
    if m.view_3d {
        a.push(SpecialAction { key: "C", label: "RESET CAMERA" });
    }
    a.push(SpecialAction { key: "P", label: "PAUSE" });
    a.push(SpecialAction { key: "R", label: "RE-CENTER CAMERA" });
    assert(a@.map_values(|x: SpecialAction| x@) =~= special_rows(*m, target));
    a
}


/// Is there a row for key `k`?
pub open spec fn has_key(rows: Seq<(Seq<char>, Seq<char>)>, k: Seq<char>) -> bool {
    exists|i: int| 0 <= i < rows.len() && (#[trigger] rows[i]).0 == k
}

/// The number of board / exit rows the panel starts with.
pub open spec fn e_rows(m: Mode, target: Option<BoardTarget>) -> int {
    if m.in_dragon {
        2
    } else if m.riding is Some {
        1
    } else if m.on_foot {
        if target is None {
            0
        } else {
            1
        }
    } else if m.in_plane {
        2
    } else {
        1
    }
}

/// The panel follows the mode, in every mode: auto-land (M) is offered
/// exactly when flying the airplane (not on the dragon, not on foot, not on
/// an elephant), summoning the airplane (F) exactly outside it, summoning
/// the dragon (G) exactly off the dragon, the fireball (LMB) exactly on the
/// dragon, and pause and re-center always close the list. Driving the car in
/// the top-down view, the panel is exactly: exit the car, summon the
/// airplane, summon the dragon, 3D view, pause, re-center.
pub proof fn lemma_specials_follow_mode(m: Mode, target: Option<BoardTarget>)
    ensures
        has_key(special_rows(m, target), "M"@) <==> m.in_plane && !m.in_dragon && !m.on_foot
            && m.riding is None,
        has_key(special_rows(m, target), "F"@) <==> !m.in_plane,
        has_key(special_rows(m, target), "G"@) <==> !m.in_dragon,
        has_key(special_rows(m, target), "LMB"@) <==> m.in_dragon,
        special_rows(m, target).len() >= 2,
        special_rows(m, target).last() == ("R"@, "RE-CENTER CAMERA"@),
        special_rows(m, target)[special_rows(m, target).len() - 2] == ("P"@, "PAUSE"@),
        !m.in_plane && !m.in_dragon && !m.on_foot && m.riding is None && !m.view_3d
            ==> special_rows(m, target) == seq![
            ("E"@, "EXIT CAR (WHEN SLOW)"@),
            ("F"@, "SUMMON AIRPLANE"@),
            ("G"@, "SUMMON DRAGON"@),
            ("V"@, "3D CHASE-CAM"@),
            ("P"@, "PAUSE"@),
            ("R"@, "RE-CENTER CAMERA"@),
        ],
{
    reveal_strlit("E");
    reveal_strlit("LMB");
    reveal_strlit("M");
    reveal_strlit("F");
    reveal_strlit("G");
    reveal_strlit("V");
    reveal_strlit("C");
    reveal_strlit("P");
    reveal_strlit("R");
    assert("E"@.len() != "LMB"@.len());
    assert("E"@[0] != "M"@[0]);
    assert("E"@[0] != "F"@[0]);
    assert("E"@[0] != "G"@[0]);
    assert("E"@[0] != "V"@[0]);
    assert("E"@[0] != "C"@[0]);
    assert("E"@[0] != "P"@[0]);
    assert("E"@[0] != "R"@[0]);
    assert("LMB"@.len() != "M"@.len());
    assert("LMB"@.len() != "F"@.len());
    assert("LMB"@.len() != "G"@.len());
    assert("LMB"@.len() != "V"@.len());
    assert("LMB"@.len() != "C"@.len());
    assert("LMB"@.len() != "P"@.len());
    assert("LMB"@.len() != "R"@.len());
    assert("M"@[0] != "F"@[0]);
    assert("M"@[0] != "G"@[0]);
    assert("M"@[0] != "V"@[0]);
    assert("M"@[0] != "C"@[0]);
    assert("M"@[0] != "P"@[0]);
    assert("M"@[0] != "R"@[0]);
    assert("F"@[0] != "G"@[0]);
    assert("F"@[0] != "V"@[0]);
    assert("F"@[0] != "C"@[0]);
    assert("F"@[0] != "P"@[0]);
    assert("F"@[0] != "R"@[0]);
    assert("G"@[0] != "V"@[0]);
    assert("G"@[0] != "C"@[0]);
    assert("G"@[0] != "P"@[0]);
    assert("G"@[0] != "R"@[0]);
    assert("V"@[0] != "C"@[0]);
    assert("V"@[0] != "P"@[0]);
    assert("V"@[0] != "R"@[0]);
    assert("C"@[0] != "P"@[0]);
    assert("C"@[0] != "R"@[0]);
    assert("P"@[0] != "R"@[0]);
    let rows = special_rows(m, target);
    let n = rows.len();
    let e = e_rows(m, target);
    assert(rows[n - 1] == ("R"@, "RE-CENTER CAMERA"@));
    assert(rows[n - 2] == ("P"@, "PAUSE"@));
    if m.in_plane && !m.in_dragon && !m.on_foot && m.riding is None {
        assert(rows[1].0 == "M"@);
    }
    if !m.in_plane {
        assert(rows[e].0 == "F"@);
    }
    if !m.in_dragon {
        let g = if m.in_plane {
            e
        } else {
            e + 1
        };
        assert(rows[g].0 == "G"@);
    }
    if m.in_dragon {
        assert(rows[1].0 == "LMB"@);
    }
    if !m.in_plane && !m.in_dragon && !m.on_foot && m.riding is None && !m.view_3d {
        assert(rows =~= seq![
            ("E"@, "EXIT CAR (WHEN SLOW)"@),
            ("F"@, "SUMMON AIRPLANE"@),
            ("G"@, "SUMMON DRAGON"@),
            ("V"@, "3D CHASE-CAM"@),
            ("P"@, "PAUSE"@),
            ("R"@, "RE-CENTER CAMERA"@),
        ]);
    }
}

/// What E does, case by case. It never touches the view or the auto-land.
/// On the dragon: off it, on foot. On an elephant: off it, on foot. On
/// foot: into the car (out of the airplane), into the airplane, onto the
/// elephant in reach, or nothing when nothing is in reach. In the car or the
/// airplane: out on foot when slow, else nothing.
pub proof fn lemma_e_cases(m: Mode, target: Option<BoardTarget>, slow: bool)
    ensures
        ({
            let r = after_e(m, target, slow).0;
            let b = after_e(m, target, slow).1;
            &&& r.view_3d == m.view_3d && r.landing == m.landing
            &&& m.in_dragon ==> !r.in_dragon && r.on_foot && r.in_plane == m.in_plane && r.riding
                == m.riding && b == Boarding::LeftDragon
            &&& !m.in_dragon && m.riding is Some ==> r.riding is None && r.on_foot && !r.in_dragon
                && r.in_plane == m.in_plane && b == Boarding::LeftElephant
            &&& !m.in_dragon && m.riding is None && m.on_foot && target == Some(BoardTarget::Car)
                ==> !r.on_foot && !r.in_plane && !r.in_dragon && r.riding is None && b
                == Boarding::EnteredCar
            &&& !m.in_dragon && m.riding is None && m.on_foot && target == Some(BoardTarget::Plane)
                ==> !r.on_foot && r.in_plane && !r.in_dragon && r.riding is None && b
                == Boarding::EnteredPlane
            &&& forall|i: usize|
                !m.in_dragon && m.riding is None && m.on_foot && target == Some(
                    BoardTarget::Elephant(i),
                ) ==> !r.on_foot && r.riding == Some(i) && !r.in_dragon && r.in_plane == m.in_plane
                    && b == Boarding::MountedElephant(i)
            &&& !m.in_dragon && m.riding is None && m.on_foot && target is None ==> r == m && b
                == Boarding::NothingInReach
            &&& !m.in_dragon && m.riding is None && !m.on_foot && slow ==> r.on_foot && !r.in_plane
                && !r.in_dragon && r.riding is None && b == Boarding::LeftVehicle
            &&& !m.in_dragon && m.riding is None && !m.on_foot && !slow ==> r == m && b
                == Boarding::StopFirst
        }),
{
}

/// `k` is the only one of the five special keys pressed (view, summon
/// airplane, summon dragon, auto-land, board / exit: key slots 11, 7, 8, 9
/// and 6).
pub open spec fn only_special(just: Set<Seq<char>>, c: ConfigView, k: int) -> bool {
    forall|j: int|
        (j == 6 || j == 7 || j == 8 || j == 9 || j == 11) ==> (just.contains(
            lower(#[trigger] c.keys[j]),
        ) <==> j == k)
}

/// Each special key on its own: the view key flips the view and nothing
/// else; the summon-airplane key puts the player at the airplane's controls
/// (off the dragon, off foot, off an elephant) unless already there; the
/// summon-dragon key puts the player on the dragon in the 3D view unless
/// already there; the auto-land key flips the auto-land in the airplane and
/// does nothing elsewhere; the board / exit key does what E does with the
/// speed of the vehicle the player is in; and with none of them pressed,
/// nothing changes.
pub proof fn lemma_each_special_key(
    m: Mode,
    just: Set<Seq<char>>,
    c: ConfigView,
    target: Option<BoardTarget>,
    car_slow: bool,
    plane_slow: bool,
)
    ensures
        ({
            let r = after_keys(m, just, c, target, car_slow, plane_slow);
            &&& only_special(just, c, 11) ==> r.0 == Mode { view_3d: !m.view_3d, ..m } && r.1
                is None
            &&& only_special(just, c, 7) && !m.in_plane ==> r.0.in_plane && !r.0.in_dragon
                && !r.0.on_foot && r.0.riding is None && r.0.view_3d == m.view_3d && r.0.landing
                == m.landing && r.1 is None
            &&& only_special(just, c, 7) && m.in_plane ==> r.0 == m && r.1 is None
            &&& only_special(just, c, 8) && !m.in_dragon ==> r.0.in_dragon && r.0.view_3d
                && !r.0.in_plane && !r.0.on_foot && r.0.riding is None && r.0.landing == m.landing
                && r.1 is None
            &&& only_special(just, c, 8) && m.in_dragon ==> r.0 == m && r.1 is None
            &&& only_special(just, c, 9) && m.in_plane ==> r.0 == Mode {
                landing: !m.landing,
                ..m
            } && r.1 is None
            &&& only_special(just, c, 9) && !m.in_plane ==> r.0 == m && r.1 is None
            &&& only_special(just, c, 6) ==> r.0 == after_e(
                m,
                target,
                if m.in_plane {
                    plane_slow
                } else {
                    car_slow
                },
            ).0 && r.1 == Some(
                after_e(
                    m,
                    target,
                    if m.in_plane {
                        plane_slow
                    } else {
                        car_slow
                    },
                ).1,
            )
            &&& only_special(just, c, -1) ==> r.0 == m && r.1 is None
        }),
{
    assert(only_special(just, c, 11) ==> just.contains(lower(c.keys[11])) && !just.contains(
        lower(c.keys[7]),
    ) && !just.contains(lower(c.keys[8])) && !just.contains(lower(c.keys[9])) && !just.contains(
        lower(c.keys[6]),
    ));
    assert(only_special(just, c, 7) ==> just.contains(lower(c.keys[7])) && !just.contains(
        lower(c.keys[11]),
    ) && !just.contains(lower(c.keys[8])) && !just.contains(lower(c.keys[9])) && !just.contains(
        lower(c.keys[6]),
    ));
    assert(only_special(just, c, 8) ==> just.contains(lower(c.keys[8])) && !just.contains(
        lower(c.keys[11]),
    ) && !just.contains(lower(c.keys[7])) && !just.contains(lower(c.keys[9])) && !just.contains(
        lower(c.keys[6]),
    ));
    assert(only_special(just, c, 9) ==> just.contains(lower(c.keys[9])) && !just.contains(
        lower(c.keys[11]),
    ) && !just.contains(lower(c.keys[7])) && !just.contains(lower(c.keys[8])) && !just.contains(
        lower(c.keys[6]),
    ));
    assert(only_special(just, c, 6) ==> just.contains(lower(c.keys[6])) && !just.contains(
        lower(c.keys[11]),
    ) && !just.contains(lower(c.keys[7])) && !just.contains(lower(c.keys[8])) && !just.contains(
        lower(c.keys[9]),
    ));
    assert(only_special(just, c, -1) ==> !just.contains(lower(c.keys[6])) && !just.contains(
        lower(c.keys[11]),
    ) && !just.contains(lower(c.keys[7])) && !just.contains(lower(c.keys[8])) && !just.contains(
        lower(c.keys[9]),
    ));
}

/// Keys pressed together act in order (for a player in one place):
/// summoning the airplane and the
/// dragon in one update leaves the player on the dragon; summoning the
/// airplane together with auto-land, from outside the airplane, flies the
/// summoned airplane with the auto-land flipped.
pub proof fn lemma_special_key_order(
    m: Mode,
    just: Set<Seq<char>>,
    c: ConfigView,
    target: Option<BoardTarget>,
    car_slow: bool,
    plane_slow: bool,
)
    requires
        exclusive(m),
    ensures
        ({
            let r = after_keys(m, just, c, target, car_slow, plane_slow);
            let f = just.contains(lower(c.keys[7]));
            let g = just.contains(lower(c.keys[8]));
            let ml = just.contains(lower(c.keys[9]));
            let e = just.contains(lower(c.keys[6]));
            &&& f && g && !e ==> r.0.in_dragon && !r.0.in_plane && !r.0.on_foot && r.0.riding
                is None
            &&& f && ml && !g && !e && !m.in_plane ==> r.0.in_plane && r.0.landing == !m.landing
        }),
{
}

/// Is `r` one of the rows?
pub open spec fn has_row(rows: Seq<(Seq<char>, Seq<char>)>, r: (Seq<char>, Seq<char>)) -> bool {
    exists|i: int| 0 <= i < rows.len() && rows[i] == r
}

/// Every row with key `k` reads `l`.
pub open spec fn rows_say(rows: Seq<(Seq<char>, Seq<char>)>, k: Seq<char>, l: Seq<char>) -> bool {
    forall|i: int| 0 <= i < rows.len() && (#[trigger] rows[i]).0 == k ==> rows[i].1 == l
}

/// What each row of the panel says. V names the view it switches to; C
/// (reset the camera) is there exactly in the 3D view; M names what it does
/// to the auto-land; E says what it boards or leaves, and is missing only on
/// foot with nothing in reach; F, G, LMB, P and R always read the same.
#[verifier::rlimit(60)]
pub proof fn lemma_special_labels(m: Mode, target: Option<BoardTarget>)
    ensures
        ({
            let rows = special_rows(m, target);
            &&& m.view_3d ==> has_row(rows, ("V"@, "TOP-DOWN VIEW"@)) && rows_say(
                rows,
                "V"@,
                "TOP-DOWN VIEW"@,
            )
            &&& !m.view_3d ==> has_row(rows, ("V"@, "3D CHASE-CAM"@)) && rows_say(
                rows,
                "V"@,
                "3D CHASE-CAM"@,
            )
            &&& has_key(rows, "C"@) <==> m.view_3d
            &&& rows_say(rows, "C"@, "RESET CAMERA"@)
            &&& m.landing ==> rows_say(rows, "M"@, "CANCEL AUTO-LAND"@)
            &&& !m.landing ==> rows_say(rows, "M"@, "AUTO-LAND"@)
            &&& rows_say(rows, "F"@, "SUMMON AIRPLANE"@)
            &&& rows_say(rows, "G"@, "SUMMON DRAGON"@)
            &&& rows_say(rows, "LMB"@, "FIREBALL"@)
            &&& rows_say(rows, "P"@, "PAUSE"@)
            &&& rows_say(rows, "R"@, "RE-CENTER CAMERA"@)
            &&& has_key(rows, "E"@) <==> (m.in_dragon || m.riding is Some || !m.on_foot
                || target is Some)
            &&& m.in_dragon ==> rows_say(rows, "E"@, "EXIT DRAGON (DROP DOWN)"@)
            &&& !m.in_dragon && m.riding is Some ==> rows_say(rows, "E"@, "JUMP OFF ELEPHANT"@)
            &&& !m.in_dragon && m.riding is None && m.on_foot && target == Some(BoardTarget::Car)
                ==> rows_say(rows, "E"@, "ENTER CAR"@)
            &&& !m.in_dragon && m.riding is None && m.on_foot && target == Some(BoardTarget::Plane)
                ==> rows_say(rows, "E"@, "ENTER AIRPLANE"@)
            &&& !m.in_dragon && m.riding is None && m.on_foot && (target matches Some(
                BoardTarget::Elephant(_),
            )) ==> rows_say(rows, "E"@, "BOARD ELEPHANT"@)
            &&& !m.in_dragon && m.riding is None && !m.on_foot && m.in_plane ==> rows_say(
                rows,
                "E"@,
                "EXIT AIRPLANE (WHEN SLOW)"@,
            )
            &&& !m.in_dragon && m.riding is None && !m.on_foot && !m.in_plane ==> rows_say(
                rows,
                "E"@,
                "EXIT CAR (WHEN SLOW)"@,
            )
        }),
{
    reveal_strlit("E");
    reveal_strlit("LMB");
    reveal_strlit("M");
    reveal_strlit("F");
    reveal_strlit("G");
    reveal_strlit("V");
    reveal_strlit("C");
    reveal_strlit("P");
    reveal_strlit("R");
    let ks = seq!["E"@, "LMB"@, "M"@, "F"@, "G"@, "V"@, "C"@, "P"@, "R"@];
    assert forall|a: int, b: int| 0 <= a < b < 9 implies #[trigger] ks[a] != #[trigger] ks[b] by {
        if ks[a].len() == ks[b].len() {
            assert(ks[a][0] != ks[b][0]);
        }
    }
    let rows = special_rows(m, target);
    let n = rows.len();
    let e = e_rows(m, target);
    let f = if !m.in_plane {
        1int
    } else {
        0
    };
    let g = if !m.in_dragon {
        1int
    } else {
        0
    };
    let v = e + f + g;
    assert(rows[v].0 == "V"@);
    assert(has_row(rows, rows[v]));
    assert(has_key(rows, "E"@) <==> (m.in_dragon || m.riding is Some || !m.on_foot
        || target is Some)) by {
        if m.in_dragon || m.riding is Some || !m.on_foot || target is Some {
            assert(rows[0].0 == "E"@);
        }
    }
    assert(has_key(rows, "C"@) <==> m.view_3d) by {
        if m.view_3d {
            assert(rows[v + 1].0 == "C"@);
        }
    }
}

} // verus!
