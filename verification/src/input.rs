//! Keyboard and mouse-button state: held keys plus per-frame edge detection
//! ("pressed since the last frame"), and the controls they map to.
//!
//! Key names are compared case-insensitively (ASCII): every key is stored
//! and looked up in ASCII lowercase. Mouse drag and wheel amounts are
//! fractional and are accumulated by the caller; this module only says
//! whether a button is held.

use vstd::prelude::*;
use vstd::string::*;
use crate::car::CarInput;
use crate::config::{Config, ConfigView, MouseButton};
use crate::text::{chars_of, lower, lower_string_of};

verus! {

/// The texts of a list of strings.
pub open spec fn texts(v: Seq<String>) -> Seq<Seq<char>> {
    v.map_values(|s: String| s@)
}

/// A set of key names without repetitions.
pub struct KeySet {
    keys: Vec<String>,
}

impl View for KeySet {
    type V = Set<Seq<char>>;

    closed spec fn view(&self) -> Set<Seq<char>> {
        Set::new(|k: Seq<char>| texts(self.keys@).contains(k))
    }
}

impl KeySet {
    #[verifier::type_invariant]
    closed spec fn distinct(self) -> bool {
        texts(self.keys@).no_duplicates()
    }

    /// The empty set.
    pub fn new() -> (s: Self)
        ensures
            s@ == Set::<Seq<char>>::empty(),
    {
        let s = KeySet { keys: Vec::new() };
        assert(s@ =~= Set::<Seq<char>>::empty());
        s
    }

    /// The position of `k` in the list, if present.
    fn find(&self, k: &String) -> (r: Option<usize>)
        ensures
            match r {
                Some(i) => i < self.keys@.len() && self.keys@[i as int]@ == k@,
                None => !self@.contains(k@),
            },
    {
        let mut i: usize = 0;
        while i < self.keys.len()
            invariant
                i <= self.keys@.len(),
                forall|j: int| 0 <= j < i ==> self.keys@[j]@ != k@,
            decreases self.keys@.len() - i,
        {
            if self.keys[i] == *k {
                return Some(i);
            }
            i = i + 1;
        }
        assert(!texts(self.keys@).contains(k@)) by {
            if texts(self.keys@).contains(k@) {
                let j = choose|j: int| 0 <= j < texts(self.keys@).len() && texts(self.keys@)[j] == k@;
                assert(self.keys@[j]@ == k@);
            }
        }
        None
    }

    /// Is `k` in the set?
    pub fn contains(&self, k: &String) -> (b: bool)
        ensures
            b == self@.contains(k@),
    {
        match self.find(k) {
            Some(i) => {
                assert(texts(self.keys@)[i as int] == k@);
                true
            },
            None => false,
        }
    }

    /// Add `k`; true if it was not in the set before.
    pub fn insert(&mut self, k: String) -> (added: bool)
        ensures
            added == !old(self)@.contains(k@),
            final(self)@ == old(self)@.insert(k@),
    {
        if self.contains(&k) {
            assert(self@ =~= old(self)@.insert(k@));
            return false;
        }
        proof {
            use_type_invariant(&*self);
        }
        let mut v: Vec<String> = Vec::new();
        std::mem::swap(&mut v, &mut self.keys);
        let ghost old_v = v@;
        v.push(k);
        proof {
            assert(texts(v@) =~= texts(old_v).push(k@));
            assert(texts(v@).no_duplicates()) by {
                assert forall|i: int, j: int|
                    0 <= i < texts(v@).len() && 0 <= j < texts(v@).len() && i != j implies texts(
                    v@,
                )[i] != texts(v@)[j] by {
                    if i == texts(old_v).len() {
                        assert(!texts(old_v).contains(k@));
                        assert(texts(old_v)[j] != k@);
                    } else if j == texts(old_v).len() {
                        assert(!texts(old_v).contains(k@));
                        assert(texts(old_v)[i] != k@);
                    }
                }
            }
        }
        self.keys = v;
        proof {
            assert forall|x: Seq<char>| self@.contains(x) == old(self)@.insert(k@).contains(x) by {
                if texts(old_v).contains(x) {
                    let i = choose|i: int| 0 <= i < texts(old_v).len() && texts(old_v)[i] == x;
                    assert(texts(self.keys@)[i] == x);
                }
                if texts(self.keys@).contains(x) && x != k@ {
                    let i = choose|i: int|
                        0 <= i < texts(self.keys@).len() && texts(self.keys@)[i] == x;
                    assert(texts(old_v)[i] == x);
                }
                if x == k@ {
                    assert(texts(self.keys@)[texts(old_v).len() as int] == x);
                }
            }
            assert(self@ =~= old(self)@.insert(k@));
        }
        true
    }

    /// Remove `k` (if present).
    pub fn remove(&mut self, k: &String)
        ensures
            final(self)@ == old(self)@.remove(k@),
    {
        match self.find(k) {
            None => {
                assert(self@ =~= old(self)@.remove(k@));
            },
            Some(i) => {
                proof {
                    use_type_invariant(&*self);
                }
                let mut v: Vec<String> = Vec::new();
                std::mem::swap(&mut v, &mut self.keys);
                let ghost old_v = v@;
                v.remove(i);
                proof {
                    assert(texts(v@) =~= texts(old_v).remove(i as int));
                    assert forall|a: int, b: int|
                        0 <= a < texts(v@).len() && 0 <= b < texts(v@).len() && a != b implies texts(
                        v@,
                    )[a] != texts(v@)[b] by {
                        let a0 = if a < i { a } else { a + 1 };
                        let b0 = if b < i { b } else { b + 1 };
                        assert(texts(v@)[a] == texts(old_v)[a0]);
                        assert(texts(v@)[b] == texts(old_v)[b0]);
                    }
                }
                self.keys = v;
                proof {
                    assert forall|x: Seq<char>|
                        self@.contains(x) == old(self)@.remove(k@).contains(x) by {
                        if texts(old_v).contains(x) && x != k@ {
                            let j = choose|j: int|
                                0 <= j < texts(old_v).len() && texts(old_v)[j] == x;
                            assert(j != i);
                            let j2 = if j < i { j } else { j - 1 };
                            assert(texts(self.keys@)[j2] == x);
                        }
                        if texts(self.keys@).contains(x) {
                            let j = choose|j: int|
                                0 <= j < texts(self.keys@).len() && texts(self.keys@)[j] == x;
                            let j0 = if j < i { j } else { j + 1 };
                            assert(texts(old_v)[j0] == x);
                            assert(j0 != i);
                            assert(texts(old_v)[i as int] == k@);
                            assert(texts(old_v).no_duplicates());
                            assert(x != k@);
                        }
                    }
                    assert(self@ =~= old(self)@.remove(k@));
                }
            },
        }
    }

    /// Empty the set.
    pub fn clear(&mut self)
        ensures
            final(self)@ == Set::<Seq<char>>::empty(),
    {
        self.keys = Vec::new();
        assert(self@ =~= Set::<Seq<char>>::empty());
    }

    /// The members, each once.
    pub fn to_vec(&self) -> (v: Vec<String>)
        ensures
            texts(v@).no_duplicates(),
            forall|k: Seq<char>| texts(v@).contains(k) <==> self@.contains(k),
    {
        proof {
            use_type_invariant(self);
        }
        let v = self.keys.clone();
        assert(texts(v@) =~= texts(self.keys@));
        v
    }
}

/// The abstract input state: the held keys, the keys pressed since the last
/// frame, and the three mouse buttons.
pub ghost struct InputView {
    pub pressed: Set<Seq<char>>,
    pub just: Set<Seq<char>>,
    pub left: bool,
    pub middle: bool,
    pub right: bool,
}

/// Is key `k` held (compared in ASCII lowercase)?
pub open spec fn held(v: InputView, k: Seq<char>) -> bool {
    v.pressed.contains(lower(k))
}

/// The controls held: back wins over forward, right over left, climb over
/// dive; the arrow keys always work as a second set.
pub open spec fn controls(v: InputView, c: ConfigView) -> CarInput {
    CarInput {
        throttle: if held(v, c.keys[1]) || held(v, "arrowdown"@) {
            -1i8
        } else if held(v, c.keys[0]) || held(v, "arrowup"@) {
            1i8
        } else {
            0i8
        },
        steer: if held(v, c.keys[3]) || held(v, "arrowright"@) {
            1i8
        } else if held(v, c.keys[2]) || held(v, "arrowleft"@) {
            -1i8
        } else {
            0i8
        },
        handbrake: held(v, c.keys[5]),
        boost: held(v, c.keys[4]),
        pitch: if held(v, c.keys[4]) {
            1i8
        } else if held(v, c.keys[5]) {
            -1i8
        } else {
            0i8
        },
    }
}

/// A key went down: it is held, and it counts as pressed this frame unless
/// it was already held (browser auto-repeat).
pub open spec fn after_down(v: InputView, k: Seq<char>) -> InputView {
    InputView {
        pressed: v.pressed.insert(lower(k)),
        just: if v.pressed.contains(lower(k)) {
            v.just
        } else {
            v.just.insert(lower(k))
        },
        ..v
    }
}

/// A key went up: it is no longer held.
pub open spec fn after_up(v: InputView, k: Seq<char>) -> InputView {
    InputView { pressed: v.pressed.remove(lower(k)), ..v }
}

/// The end of a frame: this frame's presses are forgotten.
pub open spec fn after_frame(v: InputView) -> InputView {
    InputView { just: Set::<Seq<char>>::empty(), ..v }
}

/// Edge detection. A key that goes down is held and pressed this frame,
/// whatever its ASCII case; at the end of the frame the press is forgotten
/// and the key stays held; sent again while held (auto-repeat) it is not
/// pressed again; once it goes up it is no longer held, and going down
/// again is a new press. Mouse buttons are untouched by keys.
pub proof fn lemma_edge_detection(v: InputView, k: Seq<char>, k2: Seq<char>)
    requires
        lower(k) == lower(k2),
    ensures
        held(after_down(v, k), k2),
        after_down(v, k).just.contains(lower(k2)) <== !held(v, k),
        held(after_frame(after_down(v, k)), k2),
        !after_down(after_frame(after_down(v, k)), k2).just.contains(lower(k)),
        !held(after_up(after_down(v, k), k2), k),
        after_down(after_up(after_frame(after_down(v, k)), k2), k).just.contains(lower(k2)),
        after_down(v, k).left == v.left && after_down(v, k).middle == v.middle && after_down(
            v,
            k,
        ).right == v.right,
{
}

/// What the held keys make the car do, key by key (`c.keys[0..6]` are the
/// forward, back, steer-left, steer-right, boost / climb and handbrake /
/// dive keys). Back (or the down arrow) brakes or reverses, winning over
/// forward; forward (or the up arrow) alone accelerates; neither leaves the
/// throttle at 0. Steer-right (or the right arrow) steers right, winning
/// over steer-left; steer-left (or the left arrow) alone steers left. The
/// handbrake and the boost follow their keys; the climb key pitches up,
/// winning over the dive key, which pitches down.
pub proof fn lemma_controls_follow_keys(v: InputView, c: ConfigView)
    ensures
        ({
            let ci = controls(v, c);
            let fwd = held(v, c.keys[0]) || held(v, "arrowup"@);
            let back = held(v, c.keys[1]) || held(v, "arrowdown"@);
            let left = held(v, c.keys[2]) || held(v, "arrowleft"@);
            let right = held(v, c.keys[3]) || held(v, "arrowright"@);
            &&& back ==> ci.throttle == -1
            &&& fwd && !back ==> ci.throttle == 1
            &&& !fwd && !back ==> ci.throttle == 0
            &&& right ==> ci.steer == 1
            &&& left && !right ==> ci.steer == -1
            &&& !left && !right ==> ci.steer == 0
            &&& ci.handbrake == held(v, c.keys[5])
            &&& ci.boost == held(v, c.keys[4])
            &&& held(v, c.keys[4]) ==> ci.pitch == 1
            &&& held(v, c.keys[5]) && !held(v, c.keys[4]) ==> ci.pitch == -1
            &&& !held(v, c.keys[4]) && !held(v, c.keys[5]) ==> ci.pitch == 0
        }),
{
}

/// 1 if `b`, else 0.
pub open spec fn unit(b: bool) -> int {
    if b {
        1
    } else {
        0
    }
}

/// Keyboard/mouse state with per-frame edge detection.
pub struct Input {
    pressed: KeySet,
    just_pressed: KeySet,
    down: bool,
    middle: bool,
    right: bool,
}

impl View for Input {
    type V = InputView;

    closed spec fn view(&self) -> InputView {
        InputView {
            pressed: self.pressed@,
            just: self.just_pressed@,
            left: self.down,
            middle: self.middle,
            right: self.right,
        }
    }
}

/// The ASCII lowercase of a key name.
fn lowered(key: &str) -> (s: String)
    ensures
        s@ == lower(key@),
{
    let v = chars_of(key);
    let s = lower_string_of(&v, 0, v.len());
    assert(v@.subrange(0, v@.len() as int) =~= v@);
    s
}

impl Input {
    /// Nothing held, nothing pressed.
    pub fn new() -> (i: Self)
        ensures
            i@.pressed == Set::<Seq<char>>::empty(),
            i@.just == Set::<Seq<char>>::empty(),
            !i@.left && !i@.middle && !i@.right,
    {
        Input {
            pressed: KeySet::new(),
            just_pressed: KeySet::new(),
            down: false,
            middle: false,
            right: false,
        }
    }

    /// Keys whose browser default behavior should be suppressed: everything
    /// that can be bound in the config plus the always-active second set of
    /// movement keys (arrows / space) and function keys.
    pub fn prevent_keys(cfg: &Config) -> (ks: Vec<String>)
        ensures
            texts(ks@).no_duplicates(),
            forall|k: Seq<char>|
                texts(ks@).contains(k) <==> (cfg@.keys.contains(k) && k.len() > 0) || k
                    == "arrowup"@ || k == "arrowdown"@ || k == "arrowleft"@ || k == "arrowright"@
                    || k == " "@ || k == "f1"@ || k == "escape"@,
    {
        let all = cfg.all_keys();
        let mut s = KeySet::new();
        let mut i: usize = 0;
        while i < all.len()
            invariant
                i <= all@.len(),
                forall|k: Seq<char>|
                    s@.contains(k) <==> exists|j: int| 0 <= j < i && #[trigger] all@[j]@ == k,
            decreases all@.len() - i,
        {
            s.insert(all[i].clone());
            i = i + 1;
            assert forall|k: Seq<char>|
                s@.contains(k) <==> exists|j: int| 0 <= j < i && #[trigger] all@[j]@ == k by {
                if k == all@[i - 1]@ {
                    assert(all@[i - 1]@ == k);
                }
            }
        }
        let ghost s1 = s@;
        s.insert(String::from_str("arrowup"));
        s.insert(String::from_str("arrowdown"));
        s.insert(String::from_str("arrowleft"));
        s.insert(String::from_str("arrowright"));
        s.insert(String::from_str(" "));
        s.insert(String::from_str("f1"));
        s.insert(String::from_str("escape"));
        assert(s@ == s1.insert("arrowup"@).insert("arrowdown"@).insert("arrowleft"@).insert(
            "arrowright"@,
        ).insert(" "@).insert("f1"@).insert("escape"@));
        let ks = s.to_vec();
        assert forall|k: Seq<char>|
            texts(ks@).contains(k) <==> (cfg@.keys.contains(k) && k.len() > 0) || k == "arrowup"@
                || k == "arrowdown"@ || k == "arrowleft"@ || k == "arrowright"@ || k == " "@ || k
                == "f1"@ || k == "escape"@ by {
            assert(texts(ks@).contains(k) == s@.contains(k));
            if cfg@.keys.contains(k) && k.len() > 0 {
                let j = choose|j: int| 0 <= j < all@.len() && #[trigger] all@[j]@ == k;
                assert(s1.contains(k));
            }
            if s1.contains(k) {
                let j = choose|j: int| 0 <= j < all@.len() && #[trigger] all@[j]@ == k;
                assert(cfg@.keys.contains(all@[j]@));
                assert(all@[j]@.len() > 0);
            }
        }
        ks
    }

    /// A key went down (browser auto-repeat sends it again while held; that
    /// does not count as a new press).
    pub fn key_down(&mut self, key: &str)
        ensures
            final(self)@ == after_down(old(self)@, key@),
    {
        let k = lowered(key);
        if self.pressed.insert(k.clone()) {
            self.just_pressed.insert(k);
        }
    }

    /// A key went up.
    pub fn key_up(&mut self, key: &str)
        ensures
            final(self)@ == after_up(old(self)@, key@),
    {
        let k = lowered(key);
        self.pressed.remove(&k);
    }

    /// Is the key held?
    pub fn is_down(&self, key: &str) -> (b: bool)
        ensures
            b == held(self@, key@),
    {
        self.pressed.contains(&lowered(key))
    }

    /// Was the key pressed since the last frame?
    pub fn just_pressed(&self, key: &str) -> (b: bool)
        ensures
            b == self@.just.contains(lower(key@)),
    {
        self.just_pressed.contains(&lowered(key))
    }

    /// All keys pressed since the last frame (lowercase), each once, for the
    /// config page's "press any key to bind" logic.
    pub fn just_pressed_keys(&self) -> (ks: Vec<String>)
        ensures
            texts(ks@).no_duplicates(),
            forall|k: Seq<char>| texts(ks@).contains(k) <==> self@.just.contains(k),
    {
        self.just_pressed.to_vec()
    }

    /// Called at the end of every update tick: forget this frame's presses.
    pub fn end_frame(&mut self)
        ensures
            final(self)@ == after_frame(old(self)@),
    {
        self.just_pressed.clear();
    }

    /// Primary mouse button pressed.
    pub fn mouse_down(&mut self)
        ensures
            final(self)@ == (InputView { left: true, ..old(self)@ }),
    {
        self.down = true;
    }

    /// Primary mouse button released.
    pub fn mouse_up(&mut self)
        ensures
            final(self)@ == (InputView { left: false, ..old(self)@ }),
    {
        self.down = false;
    }

    /// Right mouse button pressed.
    pub fn mouse_right_down(&mut self)
        ensures
            final(self)@ == (InputView { right: true, ..old(self)@ }),
    {
        self.right = true;
    }

    /// Right mouse button released.
    pub fn mouse_right_up(&mut self)
        ensures
            final(self)@ == (InputView { right: false, ..old(self)@ }),
    {
        self.right = false;
    }

    /// Middle mouse button pressed.
    pub fn mouse_middle_down(&mut self)
        ensures
            final(self)@ == (InputView { middle: true, ..old(self)@ }),
    {
        self.middle = true;
    }

    /// Middle mouse button released.
    pub fn mouse_middle_up(&mut self)
        ensures
            final(self)@ == (InputView { middle: false, ..old(self)@ }),
    {
        self.middle = false;
    }

    /// Is the right mouse button currently down?
    pub fn mouse_right_state(&self) -> (b: bool)
        ensures
            b == self@.right,
    {
        self.right
    }

    /// Is the primary mouse button currently down?
    pub fn mouse_down_state(&self) -> (b: bool)
        ensures
            b == self@.left,
    {
        self.down
    }

    /// Is a specific mouse button currently down (left/middle/right)?
    pub fn button_down(&self, b: MouseButton) -> (r: bool)
        ensures
            r == match b {
                MouseButton::Lmb => self@.left,
                MouseButton::Mmb => self@.middle,
                MouseButton::Rmb => self@.right,
            },
    {
        match b {
            MouseButton::Lmb => self.down,
            MouseButton::Mmb => self.middle,
            MouseButton::Rmb => self.right,
        }
    }

    /// Is any mouse button currently down?
    pub fn any_button_down(&self) -> (b: bool)
        ensures
            b == (self@.left || self@.middle || self@.right),
    {
        self.down || self.middle || self.right
    }

    /// Car controls from the key set (bindings from the player config; the
    /// arrow keys always work as a second set).
    pub fn car_controls(&self, cfg: &Config) -> (ci: CarInput)
        ensures
            ci == controls(self@, cfg@),
    {
        let mut ci = CarInput { throttle: 0, steer: 0, handbrake: false, boost: false, pitch: 0 };
        if self.is_down(cfg.forward.as_str()) || self.is_down("arrowup") {
            ci.throttle = 1;
        }
        if self.is_down(cfg.back.as_str()) || self.is_down("arrowdown") {
            ci.throttle = -1;
        }
        if self.is_down(cfg.steer_left.as_str()) || self.is_down("arrowleft") {
            ci.steer = -1;
        }
        if self.is_down(cfg.steer_right.as_str()) || self.is_down("arrowright") {
            ci.steer = 1;
        }
        ci.handbrake = self.is_down(cfg.handbrake_dive.as_str());
        ci.boost = self.is_down(cfg.boost_climb.as_str());
        // Aircraft pitch stick: climb key = up, dive key = down (cars ignore it).
        ci.pitch = if self.is_down(cfg.boost_climb.as_str()) {
            1
        } else if self.is_down(cfg.handbrake_dive.as_str()) {
            -1
        } else {
            0
        };
        ci
    }

    /// On-foot movement direction (each of x and y is -1, 0 or 1; y grows
    /// downward), and whether the climb key (run) is held.
    pub fn foot_controls(&self, cfg: &Config) -> (r: (i8, i8, bool))
        ensures
            r.0 == unit(held(self@, cfg@.keys[3]) || held(self@, "arrowright"@)) - unit(
                held(self@, cfg@.keys[2]) || held(self@, "arrowleft"@),
            ),
            r.1 == unit(held(self@, cfg@.keys[1]) || held(self@, "arrowdown"@)) - unit(
                held(self@, cfg@.keys[0]) || held(self@, "arrowup"@),
            ),
            r.2 == held(self@, cfg@.keys[4]),
    {
        let mut dx: i8 = 0;
        let mut dy: i8 = 0;
        if self.is_down(cfg.steer_left.as_str()) || self.is_down("arrowleft") {
            dx -= 1;
        }
        if self.is_down(cfg.steer_right.as_str()) || self.is_down("arrowright") {
            dx += 1;
        }
        if self.is_down(cfg.forward.as_str()) || self.is_down("arrowup") {
            dy -= 1;
        }
        if self.is_down(cfg.back.as_str()) || self.is_down("arrowdown") {
            dy += 1;
        }
        (dx, dy, self.is_down(cfg.boost_climb.as_str()))
    }

    /// True if any movement key (config keys / arrows / shift / space) is
    /// held — i.e. the player is actively driving the vehicle they are in.
    pub fn vehicle_input(&self, cfg: &Config) -> (b: bool)
        ensures
            b == (held(self@, cfg@.keys[0]) || held(self@, cfg@.keys[1]) || held(
                self@,
                cfg@.keys[2],
            ) || held(self@, cfg@.keys[3]) || held(self@, cfg@.keys[4]) || held(
                self@,
                cfg@.keys[5],
            ) || held(self@, "arrowup"@) || held(self@, "arrowdown"@) || held(
                self@,
                "arrowleft"@,
            ) || held(self@, "arrowright"@) || held(self@, "shift"@) || held(self@, " "@)),
    {
        self.is_down(cfg.forward.as_str()) || self.is_down(cfg.back.as_str()) || self.is_down(
            cfg.steer_left.as_str(),
        ) || self.is_down(cfg.steer_right.as_str()) || self.is_down(cfg.boost_climb.as_str())
            || self.is_down(cfg.handbrake_dive.as_str()) || self.is_down("arrowup")
            || self.is_down("arrowdown") || self.is_down("arrowleft") || self.is_down(
            "arrowright",
        ) || self.is_down("shift") || self.is_down(" ")
    }
}

} // verus!
