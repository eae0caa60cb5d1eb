//! Player-configurable key bindings and mouse behavior, and the `config.ini`
//! text format they are saved in.
//!
//! Keys are normalized key names: lowercase, the space bar written as " "
//! (matching the browser's `KeyboardEvent.key` values: "w", "shift", "f1").
//! The mouse sensitivity is a float and is kept by the caller: this module
//! hands its `config.ini` text through verbatim.

use vstd::prelude::*;
use vstd::string::*;
use crate::text::{
    chars_are, chars_of, lemma_lower_chars, lemma_lower_id, lemma_lower_len, lemma_trim_id,
    lemma_trim_trimmed, lower, string_of, to_lower, trim, trim_range, upper, upper_string_of,
    white_space,
};

verus! {

/// A key, normalized (lowercase, space written as " ").
pub type Key = String;

/// A mouse button: left, middle or right.
#[derive(Clone, Copy, Debug, PartialEq, Eq, Structural, Hash)]
pub enum MouseButton {
    Lmb,
    Mmb,
    Rmb,
}

/// The position of a button in the cycle order left, middle, right.
pub open spec fn button_index(m: MouseButton) -> int {
    match m {
        MouseButton::Lmb => 0,
        MouseButton::Mmb => 1,
        MouseButton::Rmb => 2,
    }
}

/// The button at a position (0, 1 or 2) of the cycle order.
pub open spec fn button_at(i: int) -> MouseButton {
    if i == 0 {
        MouseButton::Lmb
    } else if i == 1 {
        MouseButton::Mmb
    } else {
        MouseButton::Rmb
    }
}

/// INI name of a button.
pub open spec fn button_name(m: MouseButton) -> Seq<char> {
    match m {
        MouseButton::Lmb => "lmb"@,
        MouseButton::Mmb => "mmb"@,
        MouseButton::Rmb => "rmb"@,
    }
}

/// Display name of a button.
pub open spec fn button_display(m: MouseButton) -> Seq<char> {
    match m {
        MouseButton::Lmb => "LMB"@,
        MouseButton::Mmb => "MMB"@,
        MouseButton::Rmb => "RMB"@,
    }
}

/// The button a name denotes, after trimming and ASCII lowercasing:
/// `lmb`/`left`/`0`, `mmb`/`middle`/`1`, `rmb`/`right`/`2`.
pub open spec fn button_named(s: Seq<char>) -> Option<MouseButton> {
    let t = lower(trim(s));
    if t == "lmb"@ || t == "left"@ || t == "0"@ {
        Some(MouseButton::Lmb)
    } else if t == "mmb"@ || t == "middle"@ || t == "1"@ {
        Some(MouseButton::Mmb)
    } else if t == "rmb"@ || t == "right"@ || t == "2"@ {
        Some(MouseButton::Rmb)
    } else {
        None
    }
}

impl MouseButton {
    pub const LMB: Self = Self::Lmb;

    pub const MMB: Self = Self::Mmb;

    pub const RMB: Self = Self::Rmb;

    pub const ALL: [Self; 3] = [Self::Lmb, Self::Mmb, Self::Rmb];

    pub fn index(self) -> (i: u8)
        ensures
            i == button_index(self),
    {
        match self {
            Self::Lmb => 0,
            Self::Mmb => 1,
            Self::Rmb => 2,
        }
    }

    /// INI name: `lmb` / `mmb` / `rmb`.
    pub fn name(self) -> (s: &'static str)
        ensures
            s@ == button_name(self),
    {
        match self {
            Self::Lmb => "lmb",
            Self::Mmb => "mmb",
            _ => "rmb",
        }
    }

    /// INI / config-page display: `LMB` / `MMB` / `RMB`.
    pub fn display(self) -> (s: &'static str)
        ensures
            s@ == button_display(self),
    {
        match self {
            Self::Lmb => "LMB",
            Self::Mmb => "MMB",
            Self::Rmb => "RMB",
        }
    }

    pub fn from_name(s: &str) -> (m: Option<Self>)
        ensures
            m == button_named(s@),
    {
        let v = chars_of(s);
        assert(v@.subrange(0, v@.len() as int) =~= v@);
        button_in_range(&v, 0, v.len())
    }

    /// Cycle to the next/previous button (used by the config page): `dir`
    /// steps through left, middle, right, wrapping around.
    pub fn cycle(self, dir: i32) -> (m: Self)
        requires
            button_index(self) + dir <= i32::MAX,
        ensures
            m == button_at((button_index(self) + dir) % 3),
    {
        let v: i32 = self.index() as i32 + dir;
        let i: u64 = if v >= 0 {
            (v as u64) % 3
        } else {
            let p: u64 = ((-(v as i64)) as u64) % 3;
            if p == 0 {
                0
            } else {
                3 - p
            }
        };
        proof {
            let vi = v as int;
            if vi < 0 {
                let p = (-vi) % 3;
                assert(vi % 3 == if p == 0 { 0 } else { 3 - p }) by (nonlinear_arith)
                    requires
                        vi < 0,
                        p == (-vi) % 3,
                ;
            }
        }
        if i == 0 {
            Self::Lmb
        } else if i == 1 {
            Self::Mmb
        } else {
            Self::Rmb
        }
    }
}

/// The button named by `v[lo..hi]`.
pub(crate) fn button_in_range(v: &Vec<char>, lo: usize, hi: usize) -> (m: Option<MouseButton>)
    requires
        lo <= hi <= v@.len(),
    ensures
        m == button_named(v@.subrange(lo as int, hi as int)),
{
    let (a, b) = trim_range(v, lo, hi);
    let t = lower_chars(v, a, b);
    if chars_are(&t, "lmb") || chars_are(&t, "left") || chars_are(&t, "0") {
        Some(MouseButton::Lmb)
    } else if chars_are(&t, "mmb") || chars_are(&t, "middle") || chars_are(&t, "1") {
        Some(MouseButton::Mmb)
    } else if chars_are(&t, "rmb") || chars_are(&t, "right") || chars_are(&t, "2") {
        Some(MouseButton::Rmb)
    } else {
        None
    }
}

/// The ASCII lowercase of `v[lo..hi]`, as characters.
pub fn lower_chars(v: &Vec<char>, lo: usize, hi: usize) -> (t: Vec<char>)
    requires
        lo <= hi <= v@.len(),
    ensures
        t@ == lower(v@.subrange(lo as int, hi as int)),
{
    let mut t: Vec<char> = Vec::new();
    let mut i: usize = lo;
    while i < hi
        invariant
            lo <= i <= hi <= v@.len(),
            t@ == lower(v@.subrange(lo as int, i as int)),
        decreases hi - i,
    {
        let c = to_lower(v[i]);
        t.push(c);
        i = i + 1;
        assert(t@ =~= lower(v@.subrange(lo as int, i as int)));
    }
    t
}

/// A normalized key name: the space bar's own key value " " is kept;
/// anything else is trimmed and ASCII lowercased, with "space" written as
/// " " and "esc" as "escape".
pub open spec fn normalized(k: Seq<char>) -> Seq<char> {
    if k == " "@ {
        " "@
    } else {
        let t = lower(trim(k));
        if t == "space"@ {
            " "@
        } else if t == "esc"@ {
            "escape"@
        } else {
            t
        }
    }
}

/// Normalizing a normalized key changes nothing: a normalized key (the
/// space bar as " " among them) is its own normal form.
pub proof fn lemma_normalize_idempotent(k: Seq<char>)
    ensures
        normalized(normalized(k)) == normalized(k),
{
    reveal_strlit(" ");
    reveal_strlit("space");
    reveal_strlit("esc");
    reveal_strlit("escape");
    let n = normalized(k);
    if n == " "@ {
    } else if n == "escape"@ {
        lemma_trim_id("escape"@);
        lemma_lower_id("escape"@);
    } else {
        let t = trim(k);
        lemma_trim_trimmed(k);
        lemma_lower_chars(t);
        lemma_lower_len(t);
        assert(n == lower(t));
        if n.len() > 0 {
            assert(white_space(n[0]) == white_space(t[0]));
            assert(white_space(n.last()) == white_space(t.last()));
        }
        lemma_trim_id(n);
        lemma_lower_id(n);
        assert(n != " "@) by {
            if n == " "@ {
                assert(white_space(n[0]));
            }
        }
    }
}

/// Human-readable name of a key: the special names of space, escape and
/// the arrow keys, otherwise the key in ASCII uppercase.
pub open spec fn displayed(k: Seq<char>) -> Seq<char> {
    if k == " "@ {
        "SPACE"@
    } else if k == "escape"@ {
        "ESC"@
    } else if k == "arrowup"@ {
        "ARROW UP"@
    } else if k == "arrowdown"@ {
        "ARROW DOWN"@
    } else if k == "arrowleft"@ {
        "ARROW LEFT"@
    } else if k == "arrowright"@ {
        "ARROW RIGHT"@
    } else {
        upper(k)
    }
}

/// How a key is written into `config.ini` (the space bar as `space`).
pub open spec fn ini_written(k: Seq<char>) -> Seq<char> {
    if k == " "@ {
        "space"@
    } else {
        k
    }
}

/// The normalized key of `v[lo..hi]`.
pub(crate) fn normalized_range(v: &Vec<char>, lo: usize, hi: usize) -> (k: Key)
    requires
        lo <= hi <= v@.len(),
    ensures
        k@ == normalized(v@.subrange(lo as int, hi as int)),
{
    proof {
        reveal_strlit(" ");
        assert(" "@.len() == 1 && " "@[0] == ' ');
    }
    let ghost r = v@.subrange(lo as int, hi as int);
    if hi - lo == 1 && v[lo] == ' ' {
        assert(r.len() == 1 && r[0] == ' ');
        assert(r =~= " "@);
        return String::from_str(" ");
    }
    assert(r != " "@) by {
        if r == " "@ {
            assert(r[0] == v@[lo as int]);
        }
    }
    let (a, b) = trim_range(v, lo, hi);
    let t = lower_chars(v, a, b);
    if chars_are(&t, "space") {
        String::from_str(" ")
    } else if chars_are(&t, "esc") {
        String::from_str("escape")
    } else {
        let n = t.len();
        let s = string_of(&t, 0, n);
        assert(t@.subrange(0, n as int) =~= t@);
        s
    }
}

/// Normalize a raw key name: lowercase, "space" → " ", "esc" → "escape".
pub fn normalize_key(k: &str) -> (r: Key)
    ensures
        r@ == normalized(k@),
{
    let v = chars_of(k);
    let r = normalized_range(&v, 0, v.len());
    assert(v@.subrange(0, v@.len() as int) =~= v@);
    r
}

/// Human-readable key name for the HUD / config page.
pub fn key_display(k: &str) -> (r: String)
    ensures
        r@ == displayed(k@),
{
    let v = chars_of(k);
    if chars_are(&v, " ") {
        String::from_str("SPACE")
    } else if chars_are(&v, "escape") {
        String::from_str("ESC")
    } else if chars_are(&v, "arrowup") {
        String::from_str("ARROW UP")
    } else if chars_are(&v, "arrowdown") {
        String::from_str("ARROW DOWN")
    } else if chars_are(&v, "arrowleft") {
        String::from_str("ARROW LEFT")
    } else if chars_are(&v, "arrowright") {
        String::from_str("ARROW RIGHT")
    } else {
        upper_string_of(&v)
    }
}

/// Write a key into the INI (space is written as `space`).
pub fn ini_key(k: &str) -> (r: &str)
    ensures
        r@ == ini_written(k@),
{
    let v = chars_of(k);
    if chars_are(&v, " ") {
        "space"
    } else {
        k
    }
}


/// Everything that can be changed in the config page. The variant order is
/// the row order of the on-screen list (movement, then mouse, then specials).
#[derive(Clone, Copy, Debug, PartialEq, Eq, Structural)]
pub enum Binding {
    // Movement
    Forward,
    Back,
    SteerLeft,
    SteerRight,
    BoostClimb,
    HandbrakeDive,
    // Mouse
    ThrottleButton,
    BrakeButton,
    FireballButton,
    WalkButton,
    Sensitivity,
    // Special actions
    EnterExit,
    SummonAirplane,
    SummonDragon,
    AutoLand,
    AutoMode,
    View,
    ResetCamera,
    Pause,
    Recenter,
    ConfigPage,
}

/// The row of a binding in the config page (0 ..= 20).
pub open spec fn binding_index(b: Binding) -> int {
    match b {
        Binding::Forward => 0,
        Binding::Back => 1,
        Binding::SteerLeft => 2,
        Binding::SteerRight => 3,
        Binding::BoostClimb => 4,
        Binding::HandbrakeDive => 5,
        Binding::ThrottleButton => 6,
        Binding::BrakeButton => 7,
        Binding::FireballButton => 8,
        Binding::WalkButton => 9,
        Binding::Sensitivity => 10,
        Binding::EnterExit => 11,
        Binding::SummonAirplane => 12,
        Binding::SummonDragon => 13,
        Binding::AutoLand => 14,
        Binding::AutoMode => 15,
        Binding::View => 16,
        Binding::ResetCamera => 17,
        Binding::Pause => 18,
        Binding::Recenter => 19,
        Binding::ConfigPage => 20,
    }
}

/// The binding on row `i` (0 ..= 20) of the config page.
pub open spec fn binding_at(i: int) -> Binding {
    if i == 0 {
        Binding::Forward
    } else if i == 1 {
        Binding::Back
    } else if i == 2 {
        Binding::SteerLeft
    } else if i == 3 {
        Binding::SteerRight
    } else if i == 4 {
        Binding::BoostClimb
    } else if i == 5 {
        Binding::HandbrakeDive
    } else if i == 6 {
        Binding::ThrottleButton
    } else if i == 7 {
        Binding::BrakeButton
    } else if i == 8 {
        Binding::FireballButton
    } else if i == 9 {
        Binding::WalkButton
    } else if i == 10 {
        Binding::Sensitivity
    } else if i == 11 {
        Binding::EnterExit
    } else if i == 12 {
        Binding::SummonAirplane
    } else if i == 13 {
        Binding::SummonDragon
    } else if i == 14 {
        Binding::AutoLand
    } else if i == 15 {
        Binding::AutoMode
    } else if i == 16 {
        Binding::View
    } else if i == 17 {
        Binding::ResetCamera
    } else if i == 18 {
        Binding::Pause
    } else if i == 19 {
        Binding::Recenter
    } else {
        Binding::ConfigPage
    }
}

/// The slot (0 ..= 15) of a keyboard binding among the keyboard rows, in
/// row order; `None` for the mouse rows.
pub open spec fn key_slot(b: Binding) -> Option<int> {
    match b {
        Binding::Forward => Some(0),
        Binding::Back => Some(1),
        Binding::SteerLeft => Some(2),
        Binding::SteerRight => Some(3),
        Binding::BoostClimb => Some(4),
        Binding::HandbrakeDive => Some(5),
        Binding::EnterExit => Some(6),
        Binding::SummonAirplane => Some(7),
        Binding::SummonDragon => Some(8),
        Binding::AutoLand => Some(9),
        Binding::AutoMode => Some(10),
        Binding::View => Some(11),
        Binding::ResetCamera => Some(12),
        Binding::Pause => Some(13),
        Binding::Recenter => Some(14),
        Binding::ConfigPage => Some(15),
        _ => None,
    }
}

/// The slot (0 ..= 3) of a mouse-button binding; `None` for other rows.
pub open spec fn button_slot(b: Binding) -> Option<int> {
    match b {
        Binding::ThrottleButton => Some(0),
        Binding::BrakeButton => Some(1),
        Binding::FireballButton => Some(2),
        Binding::WalkButton => Some(3),
        _ => None,
    }
}

/// The slot of the config-page key.
pub open spec fn config_page_slot() -> int {
    15
}

/// Row label of a binding in the config page.
pub open spec fn binding_label(b: Binding) -> Seq<char> {
    match b {
        Binding::Forward => "FORWARD / ACCELERATE"@,
        Binding::Back => "BACK / BRAKE / REVERSE"@,
        Binding::SteerLeft => "STEER LEFT"@,
        Binding::SteerRight => "STEER RIGHT"@,
        Binding::BoostClimb => "RUN · BOOST · CLIMB"@,
        Binding::HandbrakeDive => "HANDBRAKE · DIVE"@,
        Binding::ThrottleButton => "FULL THROTTLE (HOLD) — PLANE"@,
        Binding::BrakeButton => "BRAKE (HOLD) — PLANE / DRAGON"@,
        Binding::FireballButton => "FIREBALL (HOLD) — DRAGON"@,
        Binding::WalkButton => "WALK FORWARD (HOLD) — ON FOOT"@,
        Binding::Sensitivity => "MOUSE SENSITIVITY"@,
        Binding::EnterExit => "BOARD / EXIT"@,
        Binding::SummonAirplane => "SUMMON AIRPLANE"@,
        Binding::SummonDragon => "SUMMON DRAGON"@,
        Binding::AutoLand => "AUTO-LAND — PLANE"@,
        Binding::AutoMode => "AUTO MODE"@,
        Binding::View => "VIEW — TOP-DOWN / 3D"@,
        Binding::ResetCamera => "RESET CAMERA — 3D"@,
        Binding::Pause => "PAUSE"@,
        Binding::Recenter => "RE-CENTER CAMERA"@,
        Binding::ConfigPage => "CONFIG PAGE"@,
    }
}

/// The section header drawn above a row (only the first row of each
/// section has one).
pub open spec fn binding_section(b: Binding) -> Option<Seq<char>> {
    match b {
        Binding::Forward => Some("MOVEMENT"@),
        Binding::ThrottleButton => Some("MOUSE"@),
        Binding::EnterExit => Some("SPECIAL ACTIONS"@),
        _ => None,
    }
}

impl Binding {
    pub const COUNT: usize = 21;

    pub const ALL: [Binding; 21] = [
        Binding::Forward,
        Binding::Back,
        Binding::SteerLeft,
        Binding::SteerRight,
        Binding::BoostClimb,
        Binding::HandbrakeDive,
        Binding::ThrottleButton,
        Binding::BrakeButton,
        Binding::FireballButton,
        Binding::WalkButton,
        Binding::Sensitivity,
        Binding::EnterExit,
        Binding::SummonAirplane,
        Binding::SummonDragon,
        Binding::AutoLand,
        Binding::AutoMode,
        Binding::View,
        Binding::ResetCamera,
        Binding::Pause,
        Binding::Recenter,
        Binding::ConfigPage,
    ];

    /// The binding on row `i` modulo the number of rows.
    pub fn from_usize(i: usize) -> (b: Binding)
        ensures
            b == binding_at((i % 21) as int),
    {
        let r = i % 21;
        if r == 0 {
            Binding::Forward
        } else if r == 1 {
            Binding::Back
        } else if r == 2 {
            Binding::SteerLeft
        } else if r == 3 {
            Binding::SteerRight
        } else if r == 4 {
            Binding::BoostClimb
        } else if r == 5 {
            Binding::HandbrakeDive
        } else if r == 6 {
            Binding::ThrottleButton
        } else if r == 7 {
            Binding::BrakeButton
        } else if r == 8 {
            Binding::FireballButton
        } else if r == 9 {
            Binding::WalkButton
        } else if r == 10 {
            Binding::Sensitivity
        } else if r == 11 {
            Binding::EnterExit
        } else if r == 12 {
            Binding::SummonAirplane
        } else if r == 13 {
            Binding::SummonDragon
        } else if r == 14 {
            Binding::AutoLand
        } else if r == 15 {
            Binding::AutoMode
        } else if r == 16 {
            Binding::View
        } else if r == 17 {
            Binding::ResetCamera
        } else if r == 18 {
            Binding::Pause
        } else if r == 19 {
            Binding::Recenter
        } else {
            Binding::ConfigPage
        }
    }

    /// The row of this binding.
    pub fn as_usize(self) -> (i: usize)
        ensures
            i == binding_index(self),
    {
        match self {
            Binding::Forward => 0,
            Binding::Back => 1,
            Binding::SteerLeft => 2,
            Binding::SteerRight => 3,
            Binding::BoostClimb => 4,
            Binding::HandbrakeDive => 5,
            Binding::ThrottleButton => 6,
            Binding::BrakeButton => 7,
            Binding::FireballButton => 8,
            Binding::WalkButton => 9,
            Binding::Sensitivity => 10,
            Binding::EnterExit => 11,
            Binding::SummonAirplane => 12,
            Binding::SummonDragon => 13,
            Binding::AutoLand => 14,
            Binding::AutoMode => 15,
            Binding::View => 16,
            Binding::ResetCamera => 17,
            Binding::Pause => 18,
            Binding::Recenter => 19,
            Binding::ConfigPage => 20,
        }
    }

    /// Row label in the config page.
    pub fn label(self) -> (s: &'static str)
        ensures
            s@ == binding_label(self),
    {
        match self {
            Binding::Forward => "FORWARD / ACCELERATE",
            Binding::Back => "BACK / BRAKE / REVERSE",
            Binding::SteerLeft => "STEER LEFT",
            Binding::SteerRight => "STEER RIGHT",
            Binding::BoostClimb => "RUN · BOOST · CLIMB",
            Binding::HandbrakeDive => "HANDBRAKE · DIVE",
            Binding::ThrottleButton => "FULL THROTTLE (HOLD) — PLANE",
            Binding::BrakeButton => "BRAKE (HOLD) — PLANE / DRAGON",
            Binding::FireballButton => "FIREBALL (HOLD) — DRAGON",
            Binding::WalkButton => "WALK FORWARD (HOLD) — ON FOOT",
            Binding::Sensitivity => "MOUSE SENSITIVITY",
            Binding::EnterExit => "BOARD / EXIT",
            Binding::SummonAirplane => "SUMMON AIRPLANE",
            Binding::SummonDragon => "SUMMON DRAGON",
            Binding::AutoLand => "AUTO-LAND — PLANE",
            Binding::AutoMode => "AUTO MODE",
            Binding::View => "VIEW — TOP-DOWN / 3D",
            Binding::ResetCamera => "RESET CAMERA — 3D",
            Binding::Pause => "PAUSE",
            Binding::Recenter => "RE-CENTER CAMERA",
            Binding::ConfigPage => "CONFIG PAGE",
        }
    }

    /// Which section header the row is drawn under.
    pub fn section(self) -> (s: Option<&'static str>)
        ensures
            match s {
                Some(t) => binding_section(self) == Some(t@),
                None => binding_section(self) is None,
            },
    {
        match self {
            Binding::Forward => Some("MOVEMENT"),
            Binding::ThrottleButton => Some("MOUSE"),
            Binding::EnterExit => Some("SPECIAL ACTIONS"),
            _ => None,
        }
    }
}


/// The abstract content of a [`Config`]: the sixteen keyboard keys in row
/// order (movement rows, then the special actions) and the four mouse
/// buttons in row order.
pub ghost struct ConfigView {
    pub keys: Seq<Seq<char>>,
    pub buttons: Seq<MouseButton>,
}

impl ConfigView {
    /// The key bound to a keyboard binding (`None` for mouse rows).
    pub open spec fn key(self, b: Binding) -> Option<Seq<char>> {
        match key_slot(b) {
            Some(i) => Some(self.keys[i]),
            None => None,
        }
    }

    /// The button bound to a mouse-button row (`None` otherwise).
    pub open spec fn button(self, b: Binding) -> Option<MouseButton> {
        match button_slot(b) {
            Some(i) => Some(self.buttons[i]),
            None => None,
        }
    }

    /// No nonempty key is bound on two keyboard rows.
    pub open spec fn keys_unique(self) -> bool {
        forall|i: int, j: int|
            0 <= i < 16 && 0 <= j < 16 && i != j && #[trigger] self.keys[i].len() > 0 ==> self.keys[i]
                != #[trigger] self.keys[j]
    }
}

/// The defaults: WASD, shift, space, E/F/G/M, F1, V/C/P/R and escape; the
/// left button throttles and breathes fire, the right one brakes and walks.
pub open spec fn default_view() -> ConfigView {
    ConfigView {
        keys: seq![
            "w"@,
            "s"@,
            "a"@,
            "d"@,
            "shift"@,
            " "@,
            "e"@,
            "f"@,
            "g"@,
            "m"@,
            "f1"@,
            "v"@,
            "c"@,
            "p"@,
            "r"@,
            "escape"@,
        ],
        buttons: seq![MouseButton::Lmb, MouseButton::Rmb, MouseButton::Lmb, MouseButton::Rmb],
    }
}

/// Binding key `k` on row `b`: the key is normalized; nothing changes if it
/// normalizes to the empty key, if `b` is a mouse row, or if it is the
/// config-page key and `b` is another row (the config page must stay
/// openable). Otherwise every other row holding the key gives it up.
pub open spec fn key_set(c: ConfigView, b: Binding, k: Seq<char>) -> ConfigView {
    let n = normalized(k);
    match key_slot(b) {
        None => c,
        Some(slot) => if n.len() == 0 || (b != Binding::ConfigPage && n == c.keys[config_page_slot()]) {
            c
        } else {
            ConfigView {
                keys: Seq::new(
                    16,
                    |i: int|
                        if i == slot {
                            n
                        } else if c.keys[i] == n {
                            Seq::<char>::empty()
                        } else {
                            c.keys[i]
                        },
                ),
                buttons: c.buttons,
            }
        },
    }
}

/// Setting the button of a mouse row (other rows: unchanged).
pub open spec fn button_set(c: ConfigView, b: Binding, m: MouseButton) -> ConfigView {
    match button_slot(b) {
        Some(i) => ConfigView { keys: c.keys, buttons: c.buttons.update(i, m) },
        None => c,
    }
}

/// All player-configurable controls: movement keys, mouse buttons and the
/// special actions.
#[derive(Clone, Debug, PartialEq, Eq)]
pub struct Config {
    // Movement (the arrow keys always work alongside these as a second set).
    pub forward: Key,
    pub back: Key,
    pub steer_left: Key,
    pub steer_right: Key,
    /// Run on foot, boost in the car, climb in the plane / dragon.
    pub boost_climb: Key,
    /// Handbrake in the car, dive in the plane / dragon.
    pub handbrake_dive: Key,
    // Mouse behavior.
    pub throttle_button: MouseButton,
    pub brake_button: MouseButton,
    pub fireball_button: MouseButton,
    pub walk_button: MouseButton,
    // Special actions.
    pub enter_exit: Key,
    pub summon_airplane: Key,
    pub summon_dragon: Key,
    pub auto_land: Key,
    pub auto_mode: Key,
    pub view: Key,
    pub reset_camera: Key,
    pub pause: Key,
    pub recenter: Key,
    pub config_page: Key,
}

impl View for Config {
    type V = ConfigView;

    open spec fn view(&self) -> ConfigView {
        ConfigView {
            keys: seq![
                self.forward@,
                self.back@,
                self.steer_left@,
                self.steer_right@,
                self.boost_climb@,
                self.handbrake_dive@,
                self.enter_exit@,
                self.summon_airplane@,
                self.summon_dragon@,
                self.auto_land@,
                self.auto_mode@,
                self.view@,
                self.reset_camera@,
                self.pause@,
                self.recenter@,
                self.config_page@,
            ],
            buttons: seq![
                self.throttle_button,
                self.brake_button,
                self.fireball_button,
                self.walk_button,
            ],
        }
    }
}

impl Default for Config {
    fn default() -> (c: Self)
        ensures
            c@ == default_view(),
    {
        let c = Config {
            forward: String::from_str("w"),
            back: String::from_str("s"),
            steer_left: String::from_str("a"),
            steer_right: String::from_str("d"),
            boost_climb: String::from_str("shift"),
            handbrake_dive: String::from_str(" "),
            throttle_button: MouseButton::LMB,
            brake_button: MouseButton::RMB,
            fireball_button: MouseButton::LMB,
            walk_button: MouseButton::RMB,
            enter_exit: String::from_str("e"),
            summon_airplane: String::from_str("f"),
            summon_dragon: String::from_str("g"),
            auto_land: String::from_str("m"),
            auto_mode: String::from_str("f1"),
            view: String::from_str("v"),
            reset_camera: String::from_str("c"),
            pause: String::from_str("p"),
            recenter: String::from_str("r"),
            config_page: String::from_str("escape"),
        };
        assert(c@.keys =~= default_view().keys);
        assert(c@.buttons =~= default_view().buttons);
        c
    }
}

/// Empty `s` if it holds `k`, unless `keep`.
fn clear_if_bound(s: &mut Key, keep: bool, k: &Key)
    ensures
        final(s)@ == if !keep && old(s)@ == k@ {
            Seq::<char>::empty()
        } else {
            old(s)@
        },
{
    if !keep && *s == *k {
        *s = String::new();
    }
}

impl Config {
    /// The key bound to a keyboard binding (`None` for mouse rows).
    pub fn key(&self, b: Binding) -> (k: Option<&Key>)
        ensures
            match k {
                Some(s) => self@.key(b) == Some(s@),
                None => self@.key(b) is None,
            },
    {
        Some(
            match b {
                Binding::Forward => &self.forward,
                Binding::Back => &self.back,
                Binding::SteerLeft => &self.steer_left,
                Binding::SteerRight => &self.steer_right,
                Binding::BoostClimb => &self.boost_climb,
                Binding::HandbrakeDive => &self.handbrake_dive,
                Binding::EnterExit => &self.enter_exit,
                Binding::SummonAirplane => &self.summon_airplane,
                Binding::SummonDragon => &self.summon_dragon,
                Binding::AutoLand => &self.auto_land,
                Binding::AutoMode => &self.auto_mode,
                Binding::View => &self.view,
                Binding::ResetCamera => &self.reset_camera,
                Binding::Pause => &self.pause,
                Binding::Recenter => &self.recenter,
                Binding::ConfigPage => &self.config_page,
                Binding::ThrottleButton
                | Binding::BrakeButton
                | Binding::FireballButton
                | Binding::WalkButton
                | Binding::Sensitivity => return None,
            },
        )
    }

    /// Store `k` on keyboard row `b` (mouse rows: nothing happens).
    pub(crate) fn put_key(&mut self, b: Binding, k: Key)
        ensures
            final(self)@.buttons == old(self)@.buttons,
            final(self)@.keys == match key_slot(b) {
                Some(i) => old(self)@.keys.update(i, k@),
                None => old(self)@.keys,
            },
    {
        match b {
            Binding::Forward => self.forward = k,
            Binding::Back => self.back = k,
            Binding::SteerLeft => self.steer_left = k,
            Binding::SteerRight => self.steer_right = k,
            Binding::BoostClimb => self.boost_climb = k,
            Binding::HandbrakeDive => self.handbrake_dive = k,
            Binding::EnterExit => self.enter_exit = k,
            Binding::SummonAirplane => self.summon_airplane = k,
            Binding::SummonDragon => self.summon_dragon = k,
            Binding::AutoLand => self.auto_land = k,
            Binding::AutoMode => self.auto_mode = k,
            Binding::View => self.view = k,
            Binding::ResetCamera => self.reset_camera = k,
            Binding::Pause => self.pause = k,
            Binding::Recenter => self.recenter = k,
            Binding::ConfigPage => self.config_page = k,
            _ => {},
        }
        assert(final(self)@.keys =~= match key_slot(b) {
            Some(i) => old(self)@.keys.update(i, k@),
            None => old(self)@.keys,
        });
    }

    /// Empty every keyboard row other than `b` that holds `k`.
    #[verifier::rlimit(40)]
    fn unbind_others(&mut self, b: Binding, k: &Key)
        requires
            key_slot(b) is Some,
        ensures
            final(self)@.buttons == old(self)@.buttons,
            final(self)@.keys == Seq::new(
                16,
                |i: int|
                    if i != key_slot(b)->0 && old(self)@.keys[i] == k@ {
                        Seq::<char>::empty()
                    } else {
                        old(self)@.keys[i]
                    },
            ),
    {
        clear_if_bound(&mut self.forward, b == Binding::Forward, k);
        clear_if_bound(&mut self.back, b == Binding::Back, k);
        clear_if_bound(&mut self.steer_left, b == Binding::SteerLeft, k);
        clear_if_bound(&mut self.steer_right, b == Binding::SteerRight, k);
        clear_if_bound(&mut self.boost_climb, b == Binding::BoostClimb, k);
        clear_if_bound(&mut self.handbrake_dive, b == Binding::HandbrakeDive, k);
        clear_if_bound(&mut self.enter_exit, b == Binding::EnterExit, k);
        clear_if_bound(&mut self.summon_airplane, b == Binding::SummonAirplane, k);
        clear_if_bound(&mut self.summon_dragon, b == Binding::SummonDragon, k);
        clear_if_bound(&mut self.auto_land, b == Binding::AutoLand, k);
        clear_if_bound(&mut self.auto_mode, b == Binding::AutoMode, k);
        clear_if_bound(&mut self.view, b == Binding::View, k);
        clear_if_bound(&mut self.reset_camera, b == Binding::ResetCamera, k);
        clear_if_bound(&mut self.pause, b == Binding::Pause, k);
        clear_if_bound(&mut self.recenter, b == Binding::Recenter, k);
        clear_if_bound(&mut self.config_page, b == Binding::ConfigPage, k);
        assert(final(self)@.keys =~= Seq::new(
            16,
            |i: int|
                if i != key_slot(b)->0 && old(self)@.keys[i] == k@ {
                    Seq::<char>::empty()
                } else {
                    old(self)@.keys[i]
                },
        ));
    }

    /// Bind a key, unbinding it from any other row first (the config-page key
    /// stays unique: nothing may steal it from `ConfigPage`).
    pub fn set_key(&mut self, b: Binding, k: Key)
        ensures
            final(self)@ == key_set(old(self)@, b, k@),
    {
        let n = normalize_key(k.as_str());
        if n.as_str().is_empty() || self.key(b).is_none() {
            return;
        }
        // The config-page key can never be stolen: the page must stay openable.
        if b != Binding::ConfigPage && n == self.config_page {
            return;
        }
        // The key may live on only one row: steal it from any other row.
        self.unbind_others(b, &n);
        self.put_key(b, n);
        assert(self@.keys =~= key_set(old(self)@, b, k@).keys);
    }

    /// The mouse button bound to a mouse-button row (`None` otherwise).
    pub fn mouse_button(&self, b: Binding) -> (m: Option<MouseButton>)
        ensures
            m == self@.button(b),
    {
        Some(
            match b {
                Binding::ThrottleButton => self.throttle_button,
                Binding::BrakeButton => self.brake_button,
                Binding::FireballButton => self.fireball_button,
                Binding::WalkButton => self.walk_button,
                _ => return None,
            },
        )
    }

    pub fn set_mouse_button(&mut self, b: Binding, m: MouseButton)
        ensures
            final(self)@ == button_set(old(self)@, b, m),
    {
        match b {
            Binding::ThrottleButton => self.throttle_button = m,
            Binding::BrakeButton => self.brake_button = m,
            Binding::FireballButton => self.fireball_button = m,
            Binding::WalkButton => self.walk_button = m,
            _ => {},
        }
        assert(self@.buttons =~= button_set(old(self)@, b, m).buttons);
        assert(self@.keys =~= button_set(old(self)@, b, m).keys);
    }

    /// Cycle the mouse button on a mouse-button row (config page ←/→).
    pub fn cycle_mouse_button(&mut self, b: Binding, dir: i32)
        requires
            old(self)@.button(b) matches Some(m) ==> button_index(m) + dir <= i32::MAX,
        ensures
            final(self)@ == match old(self)@.button(b) {
                Some(m) => button_set(old(self)@, b, button_at((button_index(m) + dir) % 3)),
                None => old(self)@,
            },
    {
        if let Some(m) = self.mouse_button(b) {
            self.set_mouse_button(b, m.cycle(dir));
        }
    }

    /// Every currently bound key (for the input layer to suppress the
    /// browser's default action on), each once, in row order.
    pub fn all_keys(&self) -> (ks: Vec<Key>)
        ensures
            forall|i: int, j: int|
                0 <= i < j < ks@.len() ==> #[trigger] ks@[i]@ != #[trigger] ks@[j]@,
            forall|i: int| 0 <= i < ks@.len() ==> #[trigger] ks@[i]@.len() > 0,
            forall|i: int| 0 <= i < ks@.len() ==> self@.keys.contains(#[trigger] ks@[i]@),
            forall|k: Seq<char>|
                #![trigger self@.keys.contains(k)]
                self@.keys.contains(k) && k.len() > 0 ==> exists|i: int|
                    0 <= i < ks@.len() && #[trigger] ks@[i]@ == k,
            ks@.map_values(|t: String| t@) == bound_keys(self@.keys, 16),
    {
        let mut ks: Vec<Key> = Vec::new();
        assert(ks@.map_values(|t: String| t@) =~= bound_keys(self@.keys, 0));
        let mut i: usize = 0;
        while i < 21
            invariant
                i <= 21,
                forall|a: int, c: int|
                    0 <= a < c < ks@.len() ==> #[trigger] ks@[a]@ != #[trigger] ks@[c]@,
                forall|a: int| 0 <= a < ks@.len() ==> #[trigger] ks@[a]@.len() > 0,
                forall|a: int| 0 <= a < ks@.len() ==> self@.keys.contains(#[trigger] ks@[a]@),
                forall|r: int|
                    0 <= r < i && (#[trigger] self@.key(binding_at(r))) is Some && self@.key(
                        binding_at(r),
                    )->0.len() > 0 ==> exists|a: int|
                        0 <= a < ks@.len() && #[trigger] ks@[a]@ == self@.key(binding_at(r))->0,
                self@.keys.len() == 16,
                ks@.map_values(|t: String| t@) == bound_keys(self@.keys, slots_before(i as int)),
            decreases 21 - i,
        {
            let b = Binding::from_usize(i);
            assert(b == binding_at(i as int));
            let ghost ks0 = ks@;
            let ghost n0 = slots_before(i as int);
            proof {
                lemma_row_slot(i as int);
            }
            if let Some(k) = self.key(b) {
                if !k.as_str().is_empty() {
                    let mut found = false;
                    let mut j: usize = 0;
                    while j < ks.len()
                        invariant
                            j <= ks@.len(),
                            found <==> exists|a: int| 0 <= a < j && #[trigger] ks@[a]@ == k@,
                        decreases ks@.len() - j,
                    {
                        if ks[j] == *k {
                            found = true;
                        }
                        j = j + 1;
                    }
                    proof {
                        let bk = bound_keys(self@.keys, n0);
                        assert(ks0.map_values(|t: String| t@) == bk);
                        if bk.contains(k@) {
                            let a = choose|a: int| 0 <= a < bk.len() && bk[a] == k@;
                            assert(ks0[a]@ == k@);
                        }
                        if found {
                            let a = choose|a: int| 0 <= a < ks0.len() && #[trigger] ks0[a]@ == k@;
                            assert(bk[a] == k@);
                        }
                        assert(found == bk.contains(k@));
                    }
                    if !found {
                        proof {
                            let s = key_slot(b)->0;
                            assert(self@.keys[s] == k@);
                        }
                        ks.push(k.clone());
                        assert(ks@[ks@.len() - 1]@ == k@);
                        assert(forall|a: int| 0 <= a < ks0.len() ==> ks@[a] == ks0[a]);
                        assert(ks@.map_values(|t: String| t@) =~= ks0.map_values(|t: String| t@).push(
                            k@,
                        ));
                    }
                    assert(exists|a: int| 0 <= a < ks@.len() && #[trigger] ks@[a]@ == k@);
                }
            }
            assert(ks@.map_values(|t: String| t@) == bound_keys(
                self@.keys,
                slots_before(i + 1),
            ));
            assert forall|r: int|
                0 <= r < i + 1 && (#[trigger] self@.key(binding_at(r))) is Some && self@.key(
                    binding_at(r),
                )->0.len() > 0 implies exists|a: int|
                0 <= a < ks@.len() && #[trigger] ks@[a]@ == self@.key(binding_at(r))->0 by {
                if r < i {
                    let a = choose|a: int|
                        0 <= a < ks0.len() && #[trigger] ks0[a]@ == self@.key(binding_at(r))->0;
                    assert(ks@[a] == ks0[a]);
                }
            }
            i = i + 1;
        }
        proof {
            assert forall|k: Seq<char>|
                #![trigger self@.keys.contains(k)]
                self@.keys.contains(k) && k.len() > 0 implies exists|a: int|
                    0 <= a < ks@.len() && #[trigger] ks@[a]@ == k by {
                let s = choose|s: int| 0 <= s < 16 && self@.keys[s] == k;
                let r = if s < 6 { s } else { s + 5 };
                assert(self@.key(binding_at(r)) == Some(k));
            }
        }
        ks
    }
}


/// The nonempty keys of the first `n` key slots, each once (where it first
/// occurs), in slot order, which is row order.
pub open spec fn bound_keys(keys: Seq<Seq<char>>, n: int) -> Seq<Seq<char>>
    decreases n,
{
    if n <= 0 {
        Seq::empty()
    } else {
        let rest = bound_keys(keys, n - 1);
        let k = keys[n - 1];
        if k.len() > 0 && !rest.contains(k) {
            rest.push(k)
        } else {
            rest
        }
    }
}

/// The number of key slots among the first `r` rows (rows 6 to 10 are the
/// mouse rows).
pub open spec fn slots_before(r: int) -> int {
    if r <= 6 {
        r
    } else if r <= 11 {
        6
    } else {
        r - 5
    }
}

/// Row `r`'s key slot, if it has one.
proof fn lemma_row_slot(r: int)
    requires
        0 <= r < 21,
    ensures
        key_slot(binding_at(r)) == if r < 6 {
            Some(r)
        } else if r < 11 {
            None
        } else {
            Some(r - 5)
        },
{
}

/// Binding a key never leaves a nonempty key on two rows: if no key was
/// bound twice before, none is after.
pub proof fn lemma_set_key_keeps_keys_unique(c: ConfigView, b: Binding, k: Seq<char>)
    requires
        c.keys.len() == 16,
        c.keys_unique(),
    ensures
        key_set(c, b, k).keys.len() == 16,
        key_set(c, b, k).keys_unique(),
{
    let r = key_set(c, b, k);
    let n = normalized(k);
    if r != c {
        let slot = key_slot(b)->0;
        assert forall|i: int, j: int|
            0 <= i < 16 && 0 <= j < 16 && i != j && #[trigger] r.keys[i].len() > 0 implies r.keys[i]
            != #[trigger] r.keys[j] by {
            if i == slot {
                assert(r.keys[j] == Seq::<char>::empty() || (r.keys[j] == c.keys[j] && c.keys[j]
                    != n));
            } else if j == slot {
                assert(r.keys[i] == c.keys[i] && c.keys[i] != n);
            } else {
                assert(r.keys[i] == c.keys[i]);
                assert(c.keys[i].len() > 0);
                assert(r.keys[j] == Seq::<char>::empty() || r.keys[j] == c.keys[j]);
            }
        }
    }
}

/// No other row can take the config-page key: binding any other row leaves
/// the config page's key as it was.
pub proof fn lemma_config_page_key_kept(c: ConfigView, b: Binding, k: Seq<char>)
    requires
        c.keys.len() == 16,
        b != Binding::ConfigPage,
    ensures
        key_set(c, b, k).keys[config_page_slot()] == c.keys[config_page_slot()],
{
}

/// Binding a key puts it, normalized, on the row asked for, unless it is
/// refused (empty, a mouse row, or the config-page key asked for by another
/// row).
pub proof fn lemma_set_key_binds(c: ConfigView, b: Binding, k: Seq<char>)
    requires
        c.keys.len() == 16,
        key_slot(b) is Some,
        normalized(k).len() > 0,
        b == Binding::ConfigPage || normalized(k) != c.keys[config_page_slot()],
    ensures
        key_set(c, b, k).key(b) == Some(normalized(k)),
{
}

/// In the default configuration no key is bound on two rows.
pub proof fn lemma_default_keys_unique()
    ensures
        default_view().keys_unique(),
{
    reveal_strlit("w");
    reveal_strlit("s");
    reveal_strlit("a");
    reveal_strlit("d");
    reveal_strlit("shift");
    reveal_strlit(" ");
    reveal_strlit("e");
    reveal_strlit("f");
    reveal_strlit("g");
    reveal_strlit("m");
    reveal_strlit("f1");
    reveal_strlit("v");
    reveal_strlit("c");
    reveal_strlit("p");
    reveal_strlit("r");
    reveal_strlit("escape");
    assert("w"@.len() == 1);
    assert("s"@.len() == 1);
    assert("a"@.len() == 1);
    assert("d"@.len() == 1);
    assert("shift"@.len() == 5);
    assert(" "@.len() == 1);
    assert("e"@.len() == 1);
    assert("f"@.len() == 1);
    assert("g"@.len() == 1);
    assert("m"@.len() == 1);
    assert("f1"@.len() == 2);
    assert("v"@.len() == 1);
    assert("c"@.len() == 1);
    assert("p"@.len() == 1);
    assert("r"@.len() == 1);
    assert("escape"@.len() == 6);
    assert("w"@[0] != "s"@[0]);
    assert("w"@[0] != "a"@[0]);
    assert("w"@[0] != "d"@[0]);
    assert("w"@[0] != " "@[0]);
    assert("w"@[0] != "e"@[0]);
    assert("w"@[0] != "f"@[0]);
    assert("w"@[0] != "g"@[0]);
    assert("w"@[0] != "m"@[0]);
    assert("w"@[0] != "v"@[0]);
    assert("w"@[0] != "c"@[0]);
    assert("w"@[0] != "p"@[0]);
    assert("w"@[0] != "r"@[0]);
    assert("s"@[0] != "a"@[0]);
    assert("s"@[0] != "d"@[0]);
    assert("s"@[0] != " "@[0]);
    assert("s"@[0] != "e"@[0]);
    assert("s"@[0] != "f"@[0]);
    assert("s"@[0] != "g"@[0]);
    assert("s"@[0] != "m"@[0]);
    assert("s"@[0] != "v"@[0]);
    assert("s"@[0] != "c"@[0]);
    assert("s"@[0] != "p"@[0]);
    assert("s"@[0] != "r"@[0]);
    assert("a"@[0] != "d"@[0]);
    assert("a"@[0] != " "@[0]);
    assert("a"@[0] != "e"@[0]);
    assert("a"@[0] != "f"@[0]);
    assert("a"@[0] != "g"@[0]);
    assert("a"@[0] != "m"@[0]);
    assert("a"@[0] != "v"@[0]);
    assert("a"@[0] != "c"@[0]);
    assert("a"@[0] != "p"@[0]);
    assert("a"@[0] != "r"@[0]);
    assert("d"@[0] != " "@[0]);
    assert("d"@[0] != "e"@[0]);
    assert("d"@[0] != "f"@[0]);
    assert("d"@[0] != "g"@[0]);
    assert("d"@[0] != "m"@[0]);
    assert("d"@[0] != "v"@[0]);
    assert("d"@[0] != "c"@[0]);
    assert("d"@[0] != "p"@[0]);
    assert("d"@[0] != "r"@[0]);
    assert(" "@[0] != "e"@[0]);
    assert(" "@[0] != "f"@[0]);
    assert(" "@[0] != "g"@[0]);
    assert(" "@[0] != "m"@[0]);
    assert(" "@[0] != "v"@[0]);
    assert(" "@[0] != "c"@[0]);
    assert(" "@[0] != "p"@[0]);
    assert(" "@[0] != "r"@[0]);
    assert("e"@[0] != "f"@[0]);
    assert("e"@[0] != "g"@[0]);
    assert("e"@[0] != "m"@[0]);
    assert("e"@[0] != "v"@[0]);
    assert("e"@[0] != "c"@[0]);
    assert("e"@[0] != "p"@[0]);
    assert("e"@[0] != "r"@[0]);
    assert("f"@[0] != "g"@[0]);
    assert("f"@[0] != "m"@[0]);
    assert("f"@[0] != "v"@[0]);
    assert("f"@[0] != "c"@[0]);
    assert("f"@[0] != "p"@[0]);
    assert("f"@[0] != "r"@[0]);
    assert("g"@[0] != "m"@[0]);
    assert("g"@[0] != "v"@[0]);
    assert("g"@[0] != "c"@[0]);
    assert("g"@[0] != "p"@[0]);
    assert("g"@[0] != "r"@[0]);
    assert("m"@[0] != "v"@[0]);
    assert("m"@[0] != "c"@[0]);
    assert("m"@[0] != "p"@[0]);
    assert("m"@[0] != "r"@[0]);
    assert("v"@[0] != "c"@[0]);
    assert("v"@[0] != "p"@[0]);
    assert("v"@[0] != "r"@[0]);
    assert("c"@[0] != "p"@[0]);
    assert("c"@[0] != "r"@[0]);
    assert("p"@[0] != "r"@[0]);
    let ks = default_view().keys;
    assert forall|i: int, j: int|
        0 <= i < 16 && 0 <= j < 16 && i != j && #[trigger] ks[i].len() > 0 implies ks[i]
        != #[trigger] ks[j] by {
        if ks[i].len() == ks[j].len() {
            assert(ks[i][0] != ks[j][0]);
        }
    }
}

/// Setting a mouse row's button binds it there and nowhere else: the row
/// then reads that button, every other mouse row keeps its button, and the
/// keys are untouched. Rows that are not mouse rows change nothing.
pub proof fn lemma_set_button_binds(c: ConfigView, b: Binding, m: MouseButton)
    requires
        c.buttons.len() == 4,
    ensures
        button_slot(b) is Some ==> button_set(c, b, m).button(b) == Some(m),
        forall|b2: Binding|
            b2 != b && (#[trigger] button_slot(b2)) is Some ==> button_set(c, b, m).button(b2)
                == c.button(b2),
        button_set(c, b, m).keys == c.keys,
        button_set(c, b, m).buttons.len() == 4,
        button_slot(b) is None ==> button_set(c, b, m) == c,
{
    assert forall|b2: Binding|
        b2 != b && (#[trigger] button_slot(b2)) is Some implies button_set(c, b, m).button(b2)
        == c.button(b2) by {
        if button_slot(b) is Some {
            assert(button_slot(b)->0 != button_slot(b2)->0);
        }
    }
}

/// The mouse rows are the four button rows, each with a slot of its own.
pub proof fn lemma_mouse_rows()
    ensures
        button_slot(Binding::ThrottleButton) == Some(0int),
        button_slot(Binding::BrakeButton) == Some(1int),
        button_slot(Binding::FireballButton) == Some(2int),
        button_slot(Binding::WalkButton) == Some(3int),
        forall|b: Binding|
            (#[trigger] button_slot(b)) is Some ==> b == Binding::ThrottleButton || b
                == Binding::BrakeButton || b == Binding::FireballButton || b == Binding::WalkButton,
{
}

/// One step forward cycles left → middle → right → left, one step back the
/// other way, and any step that is not a multiple of three changes the
/// button.
pub proof fn lemma_cycle_steps(m: MouseButton, dir: int)
    ensures
        button_at((button_index(MouseButton::Lmb) + 1) % 3) == MouseButton::Mmb,
        button_at((button_index(MouseButton::Mmb) + 1) % 3) == MouseButton::Rmb,
        button_at((button_index(MouseButton::Rmb) + 1) % 3) == MouseButton::Lmb,
        button_at((button_index(MouseButton::Lmb) - 1) % 3) == MouseButton::Rmb,
        button_at((button_index(MouseButton::Mmb) - 1) % 3) == MouseButton::Lmb,
        button_at((button_index(MouseButton::Rmb) - 1) % 3) == MouseButton::Mmb,
        dir % 3 != 0 ==> button_at((button_index(m) + dir) % 3) != m,
        dir % 3 == 0 ==> button_at((button_index(m) + dir) % 3) == m,
{
    let i = button_index(m);
    assert((i + dir) % 3 == (i + dir % 3) % 3) by (nonlinear_arith)
        requires
            0 <= i < 3,
    ;
}

/// Cycling a mouse row moves that row's own button: by any step that is not
/// a multiple of three the row reads another button than before, and the
/// other rows and the keys stay as they were.
pub proof fn lemma_cycle_moves_row(c: ConfigView, b: Binding, dir: int)
    requires
        c.buttons.len() == 4,
        button_slot(b) is Some,
        dir % 3 != 0,
    ensures
        ({
            let old_m = c.button(b)->0;
            let d = button_set(c, b, button_at((button_index(old_m) + dir) % 3));
            &&& d.button(b) is Some && d.button(b) != c.button(b)
            &&& d.keys == c.keys
            &&& forall|b2: Binding|
                b2 != b && (#[trigger] button_slot(b2)) is Some ==> d.button(b2) == c.button(b2)
        }),
{
    let old_m = c.button(b)->0;
    let n = button_at((button_index(old_m) + dir) % 3);
    lemma_cycle_steps(old_m, dir);
    lemma_set_button_binds(c, b, n);
}

/// A button's INI name and its display name both read back as the button.
pub proof fn lemma_button_names_read(m: MouseButton)
    ensures
        button_named(button_name(m)) == Some(m),
        button_named(button_display(m)) == Some(m),
{
    reveal_strlit("lmb");
    reveal_strlit("left");
    reveal_strlit("0");
    reveal_strlit("mmb");
    reveal_strlit("middle");
    reveal_strlit("1");
    reveal_strlit("rmb");
    reveal_strlit("right");
    reveal_strlit("2");
    reveal_strlit("LMB");
    reveal_strlit("MMB");
    reveal_strlit("RMB");
    let n = button_name(m);
    let d = button_display(m);
    assert(!white_space(n[0]) && !white_space(n.last()));
    assert(!white_space(d[0]) && !white_space(d.last()));
    lemma_trim_id(n);
    lemma_lower_id(n);
    lemma_trim_id(d);
    assert(lower(d) =~= n);
}

/// Row numbers and rows correspond one to one.
pub proof fn lemma_binding_index_round_trip(b: Binding, i: int)
    ensures
        binding_at(binding_index(b)) == b,
        0 <= binding_index(b) < 21,
        0 <= i < 21 ==> binding_index(binding_at(i)) == i,
{
}

/// Cycling a mouse button back by the same step undoes the cycle.
pub proof fn lemma_cycle_back(m: MouseButton, dir: int)
    ensures
        button_at((button_index(button_at((button_index(m) + dir) % 3)) - dir) % 3) == m,
{
    let i = button_index(m);
    let j = (i + dir) % 3;
    assert(0 <= j < 3);
    assert(button_index(button_at(j)) == j);
    assert((j - dir) % 3 == i) by (nonlinear_arith)
        requires
            j == (i + dir) % 3,
            0 <= i < 3,
    ;
}

} // verus!
