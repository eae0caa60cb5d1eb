//! The `config.ini` text format of a [`Config`]: writing it out, and the
//! lenient reader (unknown lines and sections are ignored, missing values
//! keep the defaults).
//!
//! The mouse sensitivity is a float held by the caller: the writer takes its
//! text, and the reader returns the text of every `sensitivity` value of the
//! `[mouse]` section, in order, for the caller to parse and apply.

use vstd::prelude::*;
use vstd::string::*;
use crate::config::{
    button_name, button_named, default_view, ini_key, ini_written, normalized, Binding, Config,
    ConfigView, MouseButton,
};
use crate::text::{
    chars_are, chars_of, lemma_lower_id, lemma_lower_len, lemma_trim_id, lemma_trim_len,
    lemma_trimmed_ends, lower, string_of, trim, trim_end, trim_range, trim_start,
    white_space,
};
use crate::config::{button_in_range, lower_chars, normalized_range};

verus! {

/// A line break.
pub open spec fn nl() -> Seq<char> {
    seq!['\n']
}

/// The INI line `name = value`.
pub open spec fn setting(name: Seq<char>, value: Seq<char>) -> Seq<char> {
    name + " = "@ + value
}

/// The lines of the `config.ini` written for `c`, with `sens` as the text
/// of the mouse sensitivity.
pub open spec fn ini_lines(c: ConfigView, sens: Seq<char>) -> Seq<Seq<char>> {
    seq![
        "# GTA VI — Web Edition: key bindings & mouse behavior"@,
        "# Generated by the in-game config page (ESC). Edit by hand, or"@,
        "# use the config page (S = save, L = load, X = defaults)."@,
        Seq::<char>::empty(),
        "[movement]"@,
        setting("forward"@, ini_written(c.keys[0])),
        setting("back"@, ini_written(c.keys[1])),
        setting("steer_left"@, ini_written(c.keys[2])),
        setting("steer_right"@, ini_written(c.keys[3])),
        setting("boost_climb"@, ini_written(c.keys[4])),
        setting("handbrake_dive"@, ini_written(c.keys[5])),
        Seq::<char>::empty(),
        "[mouse]"@,
        setting("throttle_button"@, button_name(c.buttons[0])),
        setting("brake_button"@, button_name(c.buttons[1])),
        setting("fireball_button"@, button_name(c.buttons[2])),
        setting("walk_button"@, button_name(c.buttons[3])),
        setting("sensitivity"@, sens),
        Seq::<char>::empty(),
        "[specials]"@,
        setting("enter_exit"@, ini_written(c.keys[6])),
        setting("summon_airplane"@, ini_written(c.keys[7])),
        setting("summon_dragon"@, ini_written(c.keys[8])),
        setting("auto_land"@, ini_written(c.keys[9])),
        setting("auto_mode"@, ini_written(c.keys[10])),
        setting("view"@, ini_written(c.keys[11])),
        setting("reset_camera"@, ini_written(c.keys[12])),
        setting("pause"@, ini_written(c.keys[13])),
        setting("recenter"@, ini_written(c.keys[14])),
        setting("config_page"@, ini_written(c.keys[15])),
    ]
}

/// Lines joined into a text, each ended by a line break.
pub open spec fn joined(ls: Seq<Seq<char>>) -> Seq<char>
    decreases ls.len(),
{
    if ls.len() == 0 {
        Seq::<char>::empty()
    } else {
        joined(ls.drop_last()) + ls.last() + nl()
    }
}

/// The `config.ini` text written for `c`.
pub open spec fn ini_text(c: ConfigView, sens: Seq<char>) -> Seq<char> {
    joined(ini_lines(c, sens))
}

/// What the reader has gathered so far: the configuration, the current
/// section name (lowercase) and the sensitivity texts met.
pub ghost struct IniRead {
    pub config: ConfigView,
    pub section: Seq<char>,
    pub sensitivity: Seq<Seq<char>>,
}

/// The reader's state before the first line: the defaults, no section.
pub open spec fn read_start() -> IniRead {
    IniRead { config: default_view(), section: Seq::<char>::empty(), sensitivity: Seq::empty() }
}

/// The key slot a `[movement]` name sets (with its accepted aliases).
pub open spec fn movement_slot(name: Seq<char>) -> Option<int> {
    if name == "forward"@ {
        Some(0)
    } else if name == "back"@ {
        Some(1)
    } else if name == "steer_left"@ {
        Some(2)
    } else if name == "steer_right"@ {
        Some(3)
    } else if name == "boost_climb"@ || name == "boost"@ || name == "run"@ {
        Some(4)
    } else if name == "handbrake_dive"@ || name == "handbrake"@ || name == "dive"@ {
        Some(5)
    } else {
        None
    }
}

/// The button slot a `[mouse]` name sets (with its accepted aliases).
pub open spec fn mouse_slot(name: Seq<char>) -> Option<int> {
    if name == "throttle_button"@ {
        Some(0)
    } else if name == "brake_button"@ {
        Some(1)
    } else if name == "fireball_button"@ {
        Some(2)
    } else if name == "walk_button"@ || name == "walk_forward_button"@ {
        Some(3)
    } else {
        None
    }
}

/// The key slot a `[specials]` name sets (with its accepted aliases).
pub open spec fn special_slot(name: Seq<char>) -> Option<int> {
    if name == "enter_exit"@ || name == "enter"@ || name == "exit"@ {
        Some(6)
    } else if name == "summon_airplane"@ || name == "summon_plane"@ || name == "plane"@ {
        Some(7)
    } else if name == "summon_dragon"@ || name == "dragon"@ {
        Some(8)
    } else if name == "auto_land"@ || name == "autoland"@ {
        Some(9)
    } else if name == "auto_mode"@ || name == "auto"@ {
        Some(10)
    } else if name == "view"@ {
        Some(11)
    } else if name == "reset_camera"@ {
        Some(12)
    } else if name == "pause"@ {
        Some(13)
    } else if name == "recenter"@ || name == "re_center"@ {
        Some(14)
    } else if name == "config_page"@ || name == "config"@ {
        Some(15)
    } else {
        None
    }
}

/// The reader's state with key slot `i` set to `k`.
pub open spec fn with_key(st: IniRead, i: int, k: Seq<char>) -> IniRead {
    IniRead {
        config: ConfigView { keys: st.config.keys.update(i, k), buttons: st.config.buttons },
        ..st
    }
}

/// One `name = value` setting (name already trimmed and lowercased, value
/// trimmed) applied in the current section.
pub open spec fn read_setting(st: IniRead, name: Seq<char>, value: Seq<char>) -> IniRead {
    if st.section == "movement"@ {
        match movement_slot(name) {
            Some(i) => with_key(st, i, normalized(value)),
            None => st,
        }
    } else if st.section == "mouse"@ {
        if name == "sensitivity"@ {
            IniRead { sensitivity: st.sensitivity.push(value), ..st }
        } else {
            match mouse_slot(name) {
                Some(i) => match button_named(value) {
                    Some(m) => IniRead {
                        config: ConfigView {
                            keys: st.config.keys,
                            buttons: st.config.buttons.update(i, m),
                        },
                        ..st
                    },
                    None => st,
                },
                None => st,
            }
        }
    } else if st.section == "specials"@ {
        match special_slot(name) {
            Some(i) => with_key(st, i, normalized(value)),
            None => st,
        }
    } else {
        st
    }
}

/// The index of the first '=' in `s`, if any.
pub open spec fn first_eq(s: Seq<char>) -> Option<int>
    decreases s.len(),
{
    if s.len() == 0 {
        None
    } else if s[0] == '=' {
        Some(0)
    } else {
        match first_eq(s.drop_first()) {
            Some(i) => Some(i + 1),
            None => None,
        }
    }
}

/// One line of text read: blank lines and `#` / `;` comments are skipped,
/// `[name]` opens a section, `name = value` is a setting, anything else is
/// ignored.
pub open spec fn read_line(st: IniRead, raw: Seq<char>) -> IniRead {
    let line = trim(raw);
    if line.len() == 0 || line[0] == '#' || line[0] == ';' {
        st
    } else if line.len() >= 2 && line[0] == '[' && line.last() == ']' {
        IniRead { section: lower(trim(line.subrange(1, line.len() - 1))), ..st }
    } else {
        match first_eq(line) {
            Some(e) => read_setting(st, lower(trim(line.take(e))), trim(line.skip(e + 1))),
            None => st,
        }
    }
}

/// Reading the text `s`, where `cur` holds the part of the current line
/// already met.
pub open spec fn read_chars(s: Seq<char>, st: IniRead, cur: Seq<char>) -> IniRead
    decreases s.len(),
{
    if s.len() == 0 {
        read_line(st, cur)
    } else if s[0] == '\n' {
        read_chars(s.drop_first(), read_line(st, cur), Seq::<char>::empty())
    } else {
        read_chars(s.drop_first(), st, cur.push(s[0]))
    }
}

/// What reading a whole `config.ini` text gathers.
pub open spec fn read_ini(s: Seq<char>) -> IniRead {
    read_chars(s, read_start(), Seq::<char>::empty())
}

proof fn lemma_joined_push(ls: Seq<Seq<char>>, x: Seq<char>)
    ensures
        joined(ls.push(x)) == joined(ls) + x + nl(),
{
    assert(ls.push(x).drop_last() =~= ls);
}

/// Appends `line` and a line break to `out`, the text of the lines `ls`.
fn add_line(out: &mut String, line: &str, Ghost(ls): Ghost<Seq<Seq<char>>>) -> (r: Ghost<
    Seq<Seq<char>>,
>)
    requires
        old(out)@ == joined(ls),
    ensures
        r@ == ls.push(line@),
        final(out)@ == joined(r@),
{
    out.append(line);
    out.append("\n");
    proof {
        reveal_strlit("\n");
        lemma_joined_push(ls, line@);
        assert("\n"@ =~= nl());
    }
    Ghost(ls.push(line@))
}

/// The text `name = value`.
fn setting_line(name: &str, value: &str) -> (s: String)
    ensures
        s@ == setting(name@, value@),
{
    let mut s = String::from_str(name);
    s.append(" = ");
    s.append(value);
    s
}

impl Config {
    /// Serialize to the `config.ini` format, writing `sensitivity` as the
    /// mouse sensitivity's value.
    pub fn to_ini(&self, sensitivity: &str) -> (s: String)
        ensures
            s@ == ini_text(self@, sensitivity@),
    {
        let mut s = String::new();
        let g = Ghost(Seq::<Seq<char>>::empty());
        assert(s@ =~= joined(g@));
        let g = add_line(&mut s, "# GTA VI — Web Edition: key bindings & mouse behavior", g);
        let g = add_line(&mut s, "# Generated by the in-game config page (ESC). Edit by hand, or", g);
        let g = add_line(&mut s, "# use the config page (S = save, L = load, X = defaults).", g);
        let g = add_line(&mut s, "", g);
        let g = add_line(&mut s, "[movement]", g);
        let l = setting_line("forward", ini_key(self.forward.as_str()));
        let g = add_line(&mut s, l.as_str(), g);
        let l = setting_line("back", ini_key(self.back.as_str()));
        let g = add_line(&mut s, l.as_str(), g);
        let l = setting_line("steer_left", ini_key(self.steer_left.as_str()));
        let g = add_line(&mut s, l.as_str(), g);
        let l = setting_line("steer_right", ini_key(self.steer_right.as_str()));
        let g = add_line(&mut s, l.as_str(), g);
        let l = setting_line("boost_climb", ini_key(self.boost_climb.as_str()));
        let g = add_line(&mut s, l.as_str(), g);
        let l = setting_line("handbrake_dive", ini_key(self.handbrake_dive.as_str()));
        let g = add_line(&mut s, l.as_str(), g);
        let g = add_line(&mut s, "", g);
        let g = add_line(&mut s, "[mouse]", g);
        let l = setting_line("throttle_button", self.throttle_button.name());
        let g = add_line(&mut s, l.as_str(), g);
        let l = setting_line("brake_button", self.brake_button.name());
        let g = add_line(&mut s, l.as_str(), g);
        let l = setting_line("fireball_button", self.fireball_button.name());
        let g = add_line(&mut s, l.as_str(), g);
        let l = setting_line("walk_button", self.walk_button.name());
        let g = add_line(&mut s, l.as_str(), g);
        let l = setting_line("sensitivity", sensitivity);
        let g = add_line(&mut s, l.as_str(), g);
        let g = add_line(&mut s, "", g);
        let g = add_line(&mut s, "[specials]", g);
        let l = setting_line("enter_exit", ini_key(self.enter_exit.as_str()));
        let g = add_line(&mut s, l.as_str(), g);
        let l = setting_line("summon_airplane", ini_key(self.summon_airplane.as_str()));
        let g = add_line(&mut s, l.as_str(), g);
        let l = setting_line("summon_dragon", ini_key(self.summon_dragon.as_str()));
        let g = add_line(&mut s, l.as_str(), g);
        let l = setting_line("auto_land", ini_key(self.auto_land.as_str()));
        let g = add_line(&mut s, l.as_str(), g);
        let l = setting_line("auto_mode", ini_key(self.auto_mode.as_str()));
        let g = add_line(&mut s, l.as_str(), g);
        let l = setting_line("view", ini_key(self.view.as_str()));
        let g = add_line(&mut s, l.as_str(), g);
        let l = setting_line("reset_camera", ini_key(self.reset_camera.as_str()));
        let g = add_line(&mut s, l.as_str(), g);
        let l = setting_line("pause", ini_key(self.pause.as_str()));
        let g = add_line(&mut s, l.as_str(), g);
        let l = setting_line("recenter", ini_key(self.recenter.as_str()));
        let g = add_line(&mut s, l.as_str(), g);
        let l = setting_line("config_page", ini_key(self.config_page.as_str()));
        let g = add_line(&mut s, l.as_str(), g);
        proof {
            reveal_strlit("");
            let il = ini_lines(self@, sensitivity@);
            assert(g@.len() == il.len());
            assert(g@[0] == il[0]);
            assert(g@[3] == il[3]);
            assert(g@[5] == il[5]);
            assert(g@[6] == il[6]);
            assert(g@[13] == il[13]);
            assert(g@[17] == il[17]);
            assert(g@[29] == il[29]);
            assert(g@ =~= ini_lines(self@, sensitivity@));
        }
        s
    }
}


/// The reader's state held in `cfg`, `section` and `sens`.
pub open spec fn read_state(cfg: ConfigView, section: Seq<char>, sens: Seq<String>) -> IniRead {
    IniRead { config: cfg, section, sensitivity: sens.map_values(|t: String| t@) }
}

/// The offset of the first '=' in `v[lo..hi]`.
fn first_eq_in(v: &Vec<char>, lo: usize, hi: usize) -> (r: Option<usize>)
    requires
        lo <= hi <= v@.len(),
    ensures
        match r {
            Some(e) => first_eq(v@.subrange(lo as int, hi as int)) == Some(e as int) && lo + e
                < hi,
            None => first_eq(v@.subrange(lo as int, hi as int)) is None,
        },
{
    let mut i: usize = hi;
    let mut r: Option<usize> = None;
    // Scanning backwards, r is the first '=' of v[i..hi].
    while i > lo
        invariant
            lo <= i <= hi <= v@.len(),
            first_eq(v@.subrange(i as int, hi as int)) == match r {
                Some(e) => Some(e - i),
                None => None::<int>,
            },
            r matches Some(e) ==> i <= e < hi,
        decreases i - lo,
    {
        i = i - 1;
        assert(v@.subrange(i as int, hi as int).drop_first() =~= v@.subrange(i + 1, hi as int));
        if v[i] == '=' {
            r = Some(i);
        }
    }
    match r {
        Some(e) => Some(e - lo),
        None => None,
    }
}

fn movement_slot_of(name: &Vec<char>) -> (r: Option<usize>)
    ensures
        r == match movement_slot(name@) {
            Some(i) => Some(i as usize),
            None => None::<usize>,
        },
{
    if chars_are(name, "forward") {
        Some(0)
    } else if chars_are(name, "back") {
        Some(1)
    } else if chars_are(name, "steer_left") {
        Some(2)
    } else if chars_are(name, "steer_right") {
        Some(3)
    } else if chars_are(name, "boost_climb") || chars_are(name, "boost") || chars_are(name, "run") {
        Some(4)
    } else if chars_are(name, "handbrake_dive") || chars_are(name, "handbrake") || chars_are(
        name,
        "dive",
    ) {
        Some(5)
    } else {
        None
    }
}

fn mouse_slot_of(name: &Vec<char>) -> (r: Option<usize>)
    ensures
        r == match mouse_slot(name@) {
            Some(i) => Some(i as usize),
            None => None::<usize>,
        },
{
    if chars_are(name, "throttle_button") {
        Some(0)
    } else if chars_are(name, "brake_button") {
        Some(1)
    } else if chars_are(name, "fireball_button") {
        Some(2)
    } else if chars_are(name, "walk_button") || chars_are(name, "walk_forward_button") {
        Some(3)
    } else {
        None
    }
}

fn special_slot_of(name: &Vec<char>) -> (r: Option<usize>)
    ensures
        r == match special_slot(name@) {
            Some(i) => Some(i as usize),
            None => None::<usize>,
        },
{
    if chars_are(name, "enter_exit") || chars_are(name, "enter") || chars_are(name, "exit") {
        Some(6)
    } else if chars_are(name, "summon_airplane") || chars_are(name, "summon_plane") || chars_are(
        name,
        "plane",
    ) {
        Some(7)
    } else if chars_are(name, "summon_dragon") || chars_are(name, "dragon") {
        Some(8)
    } else if chars_are(name, "auto_land") || chars_are(name, "autoland") {
        Some(9)
    } else if chars_are(name, "auto_mode") || chars_are(name, "auto") {
        Some(10)
    } else if chars_are(name, "view") {
        Some(11)
    } else if chars_are(name, "reset_camera") {
        Some(12)
    } else if chars_are(name, "pause") {
        Some(13)
    } else if chars_are(name, "recenter") || chars_are(name, "re_center") {
        Some(14)
    } else if chars_are(name, "config_page") || chars_are(name, "config") {
        Some(15)
    } else {
        None
    }
}

/// The keyboard binding of key slot `i`.
fn key_binding(i: usize) -> (b: Binding)
    requires
        i < 16,
    ensures
        crate::config::key_slot(b) == Some(i as int),
{
    if i < 6 {
        Binding::from_usize(i)
    } else {
        Binding::from_usize(i + 5)
    }
}

/// Apply the setting `name = v[va..vb]` in `section`.
fn read_setting_into(
    cfg: &mut Config,
    section: &Vec<char>,
    sens: &mut Vec<String>,
    name: &Vec<char>,
    v: &Vec<char>,
    va: usize,
    vb: usize,
)
    requires
        va <= vb <= v@.len(),
    ensures
        read_state(final(cfg)@, section@, final(sens)@) == read_setting(
            read_state(old(cfg)@, section@, old(sens)@),
            name@,
            v@.subrange(va as int, vb as int),
        ),
{
    let ghost st = read_state(cfg@, section@, sens@);
    if chars_are(section, "movement") {
        match movement_slot_of(name) {
            Some(i) => {
                let k = normalized_range(v, va, vb);
                cfg.put_key(key_binding(i), k);
            },
            None => {},
        }
    } else if chars_are(section, "mouse") {
        if chars_are(name, "sensitivity") {
            let t = string_of(v, va, vb);
            sens.push(t);
            assert(sens@.map_values(|t: String| t@) =~= old(sens)@.map_values(|t: String| t@).push(
                v@.subrange(va as int, vb as int),
            ));
        } else {
            match mouse_slot_of(name) {
                Some(i) => match button_in_range(v, va, vb) {
                    Some(m) => {
                        cfg.put_button_at(i, m);
                    },
                    None => {},
                },
                None => {},
            }
        }
    } else if chars_are(section, "specials") {
        match special_slot_of(name) {
            Some(i) => {
                let k = normalized_range(v, va, vb);
                cfg.put_key(key_binding(i), k);
            },
            None => {},
        }
    }
    assert(read_state(cfg@, section@, sens@).config.keys =~= read_setting(
        st,
        name@,
        v@.subrange(va as int, vb as int),
    ).config.keys);
    assert(read_state(cfg@, section@, sens@).config.buttons =~= read_setting(
        st,
        name@,
        v@.subrange(va as int, vb as int),
    ).config.buttons);
}

/// Read the line `v[lo..hi]`.
fn read_line_into(
    cfg: &mut Config,
    section: &mut Vec<char>,
    sens: &mut Vec<String>,
    v: &Vec<char>,
    lo: usize,
    hi: usize,
)
    requires
        lo <= hi <= v@.len(),
    ensures
        read_state(final(cfg)@, final(section)@, final(sens)@) == read_line(
            read_state(old(cfg)@, old(section)@, old(sens)@),
            v@.subrange(lo as int, hi as int),
        ),
{
    let (a, b) = trim_range(v, lo, hi);
    let ghost line = v@.subrange(a as int, b as int);
    if a == b || v[a] == '#' || v[a] == ';' {
        return;
    }
    if b - a >= 2 && v[a] == '[' && v[b - 1] == ']' {
        let (c, d) = trim_range(v, a + 1, b - 1);
        assert(line.subrange(1, line.len() - 1) =~= v@.subrange(a + 1, b - 1));
        *section = lower_chars(v, c, d);
        return;
    }
    assert(line.len() > 0 && line[0] != '#' && line[0] != ';');
    assert(!(line.len() >= 2 && line[0] == '[' && line.last() == ']'));
    assert(trim(v@.subrange(lo as int, hi as int)) == line);
    match first_eq_in(v, a, b) {
        None => {
            assert(first_eq(line) is None);
        },
        Some(off) => {
            assert(first_eq(line) == Some(off as int));
            let e = a + off;
            assert(line.take(off as int) =~= v@.subrange(a as int, e as int));
            assert(line.skip(off + 1) =~= v@.subrange(e + 1, b as int));
            let (na, nb) = trim_range(v, a, e);
            let name = lower_chars(v, na, nb);
            let (va, vb) = trim_range(v, e + 1, b);
            read_setting_into(cfg, section, sens, &name, v, va, vb);
        },
    }
}

impl Config {
    /// Store button `m` in mouse slot `i`.
    fn put_button_at(&mut self, i: usize, m: MouseButton)
        requires
            i < 4,
        ensures
            final(self)@.keys == old(self)@.keys,
            final(self)@.buttons == old(self)@.buttons.update(i as int, m),
    {
        if i == 0 {
            self.throttle_button = m;
        } else if i == 1 {
            self.brake_button = m;
        } else if i == 2 {
            self.fireball_button = m;
        } else {
            self.walk_button = m;
        }
        assert(self@.buttons =~= old(self)@.buttons.update(i as int, m));
        assert(self@.keys =~= old(self)@.keys);
    }

    /// Parse `config.ini` text: the configuration read, and the text of
    /// every `sensitivity` value of the `[mouse]` section, in order.
    pub fn parse_ini(text: &str) -> (r: (Config, Vec<String>))
        ensures
            r.0@ == read_ini(text@).config,
            r.1@.map_values(|t: String| t@) == read_ini(text@).sensitivity,
    {
        let v = chars_of(text);
        let mut cfg = Config::default();
        let mut section: Vec<char> = Vec::new();
        let mut sens: Vec<String> = Vec::new();
        let mut start: usize = 0;
        let mut i: usize = 0;
        proof {
            assert(v@.skip(0) =~= v@);
            assert(v@.subrange(0, 0) =~= Seq::<char>::empty());
            assert(sens@.map_values(|t: String| t@) =~= Seq::<Seq<char>>::empty());
            assert(read_state(cfg@, section@, sens@) == read_start());
        }
        while i < v.len()
            invariant
                start <= i <= v@.len(),
                read_ini(v@) == read_chars(
                    v@.skip(i as int),
                    read_state(cfg@, section@, sens@),
                    v@.subrange(start as int, i as int),
                ),
            decreases v@.len() - i,
        {
            assert(v@.skip(i as int).drop_first() =~= v@.skip(i + 1));
            if v[i] == '\n' {
                read_line_into(&mut cfg, &mut section, &mut sens, &v, start, i);
                start = i + 1;
                assert(v@.subrange(start as int, i + 1) =~= Seq::<char>::empty());
            } else {
                assert(v@.subrange(start as int, i as int).push(v@[i as int]) =~= v@.subrange(
                    start as int,
                    i + 1,
                ));
            }
            i = i + 1;
        }
        read_line_into(&mut cfg, &mut section, &mut sens, &v, start, v.len());
        (cfg, sens)
    }

    /// Parse `config.ini` text. Lenient: unknown lines/sections are ignored,
    /// missing values keep the defaults.
    pub fn from_ini(text: &str) -> (c: Config)
        ensures
            c@ == read_ini(text@).config,
    {
        Config::parse_ini(text).0
    }
}


/// The lines read from `ls`, in order, starting in state `st`.
pub open spec fn read_lines(ls: Seq<Seq<char>>, st: IniRead) -> IniRead
    decreases ls.len(),
{
    if ls.len() == 0 {
        st
    } else {
        read_line(read_lines(ls.drop_last(), st), ls.last())
    }
}

/// A setting name of the INI format: nonempty, without white space, '=',
/// line breaks or ASCII capitals, and not opening a comment or a section.
pub open spec fn plain_name(n: Seq<char>) -> bool {
    &&& n.len() > 0
    &&& forall|i: int|
        0 <= i < n.len() ==> !white_space(#[trigger] n[i]) && n[i] != '=' && n[i] != '\n' && !(
        'A' <= n[i] && n[i] <= 'Z')
    &&& n[0] != '#' && n[0] != ';' && n[0] != '['
}

proof fn lemma_read_chars_line(x: Seq<char>, rest: Seq<char>, st: IniRead, cur: Seq<char>)
    requires
        !x.contains('\n'),
    ensures
        read_chars(x + nl() + rest, st, cur) == read_chars(
            rest,
            read_line(st, cur + x),
            Seq::<char>::empty(),
        ),
    decreases x.len(),
{
    if x.len() == 0 {
        assert((x + nl() + rest).drop_first() =~= rest);
        assert(cur + x =~= cur);
    } else {
        assert((x + nl() + rest)[0] == x[0]);
        assert((x + nl() + rest).drop_first() =~= x.drop_first() + nl() + rest);
        assert(!x.drop_first().contains('\n')) by {
            if x.drop_first().contains('\n') {
                let i = choose|i: int| 0 <= i < x.drop_first().len() && x.drop_first()[i] == '\n';
                assert(x[i + 1] == '\n');
            }
        }
        lemma_read_chars_line(x.drop_first(), rest, st, cur.push(x[0]));
        assert(cur.push(x[0]) + x.drop_first() =~= cur + x);
    }
}

proof fn lemma_read_joined(ls: Seq<Seq<char>>, rest: Seq<char>, st: IniRead)
    requires
        forall|i: int| 0 <= i < ls.len() ==> !(#[trigger] ls[i]).contains('\n'),
    ensures
        read_chars(joined(ls) + rest, st, Seq::<char>::empty()) == read_chars(
            rest,
            read_lines(ls, st),
            Seq::<char>::empty(),
        ),
    decreases ls.len(),
{
    if ls.len() == 0 {
        assert(joined(ls) + rest =~= rest);
    } else {
        let dl = ls.drop_last();
        assert(joined(ls) + rest =~= joined(dl) + (ls.last() + nl() + rest));
        assert(forall|i: int| 0 <= i < dl.len() ==> dl[i] == ls[i]);
        lemma_read_joined(dl, ls.last() + nl() + rest, st);
        assert(ls.last() == ls[ls.len() - 1]);
        lemma_read_chars_line(ls.last(), rest, read_lines(dl, st), Seq::<char>::empty());
        assert(Seq::<char>::empty() + ls.last() =~= ls.last());
    }
}

proof fn lemma_read_lines_step(ls: Seq<Seq<char>>, k: int, st: IniRead)
    requires
        0 <= k < ls.len(),
    ensures
        read_lines(ls.take(k + 1), st) == read_line(read_lines(ls.take(k), st), ls[k]),
{
    assert(ls.take(k + 1).drop_last() =~= ls.take(k));
}

proof fn lemma_first_eq_after(a: Seq<char>, b: Seq<char>)
    requires
        forall|i: int| 0 <= i < a.len() ==> #[trigger] a[i] != '=',
    ensures
        first_eq(a + b) == match first_eq(b) {
            Some(e) => Some(e + a.len()),
            None => None::<int>,
        },
    decreases a.len(),
{
    if a.len() == 0 {
        assert(a + b =~= b);
    } else {
        assert((a + b).drop_first() =~= a.drop_first() + b);
        assert((a + b)[0] == a[0]);
        lemma_first_eq_after(a.drop_first(), b);
    }
}

/// `n + " "` trims to `n`.
proof fn lemma_trim_name_space(n: Seq<char>)
    requires
        plain_name(n),
    ensures
        trim(n + seq![' ']) == n,
{
    let x = n + seq![' '];
    assert(!white_space(x[0]));
    assert(trim_start(x) == x);
    assert(x.drop_last() =~= n);
    assert(!white_space(n.last()));
    assert(trim_end(n) == n);
}

/// A setting line `n = w`, with `w` already trimmed, sets `n` to `w`.
proof fn lemma_setting_line(st: IniRead, n: Seq<char>, w: Seq<char>)
    requires
        plain_name(n),
        trim(w) == w,
    ensures
        read_line(st, setting(n, w)) == read_setting(st, n, w),
{
    reveal_strlit(" = ");
    assert(" = "@ =~= seq![' ', '=', ' ']);
    let raw = setting(n, w);
    assert(raw =~= (n + seq![' ']) + (seq!['=', ' '] + w));
    assert(forall|i: int| 0 <= i < (n + seq![' ']).len() ==> #[trigger] (n + seq![' '])[i] != '=');
    lemma_first_eq_after(n + seq![' '], seq!['=', ' '] + w);
    let e: int = n.len() + 1int;
    lemma_trim_name_space(n);
    lemma_lower_id(n);
    if w.len() > 0 {
        lemma_trimmed_ends(w);
        assert(raw[0] == n[0]);
        assert(raw.last() == w.last());
        lemma_trim_id(raw);
        assert(first_eq(raw) == Some(e));
        assert(raw.take(e) =~= n + seq![' ']);
        let v = raw.skip(e + 1);
        assert(v =~= seq![' '] + w);
        assert(v.drop_first() =~= w);
        assert(trim_start(w) == w);
        assert(trim_start(v) == w);
        assert(trim_end(w) == w);
        assert(trim(v) == w);
    } else {
        let line = n + seq![' ', '='];
        assert(raw =~= line + seq![' ']);
        assert(raw[0] == n[0]);
        assert(trim_start(raw) == raw);
        assert(raw.drop_last() =~= line);
        assert(trim_end(line) == line);
        assert(trim(raw) == line);
        assert(line =~= (n + seq![' ']) + (seq!['='] + Seq::<char>::empty()));
        lemma_first_eq_after(n + seq![' '], seq!['='] + Seq::<char>::empty());
        assert(first_eq(line) == Some(e));
        assert(line.take(e) =~= n + seq![' ']);
        assert(line.skip(e + 1) =~= Seq::<char>::empty());
        assert(trim(Seq::<char>::empty()) =~= Seq::<char>::empty());
        assert(w =~= Seq::<char>::empty());
    }
}

/// A line starting with '#' and not ending with white space is skipped.
proof fn lemma_comment_line(st: IniRead, x: Seq<char>)
    requires
        x.len() > 0,
        x[0] == '#',
        !white_space(x.last()),
    ensures
        read_line(st, x) == st,
{
    lemma_trim_id(x);
}

/// An empty line is skipped.
proof fn lemma_blank_line(st: IniRead)
    ensures
        read_line(st, Seq::<char>::empty()) == st,
{
    lemma_trim_id(Seq::<char>::empty());
}

/// `[name]` opens the section `name` (name without white space and
/// capitals).
proof fn lemma_section_line(st: IniRead, x: Seq<char>, name: Seq<char>)
    requires
        x == seq!['['] + name + seq![']'],
        name.len() > 0,
        forall|i: int|
            0 <= i < name.len() ==> !white_space(#[trigger] name[i]) && !('A' <= name[i]
                && name[i] <= 'Z'),
    ensures
        read_line(st, x) == (IniRead { section: name, ..st }),
{
    assert(x[0] == '[');
    assert(x.last() == ']');
    lemma_trim_id(x);
    assert(x.subrange(1, x.len() - 1) =~= name);
    assert(name[0] == name[0]);
    assert(!white_space(name[0]) && !white_space(name.last()));
    lemma_trim_id(name);
    lemma_lower_id(name);
}

/// The text a key is written as, read back, is its own trim.
proof fn lemma_written_trimmed(k: Seq<char>, w: Seq<char>)
    requires
        normalized(w) == k,
        w == ini_written(k),
    ensures
        trim(w) == w,
{
    reveal_strlit(" ");
    reveal_strlit("space");
    reveal_strlit("esc");
    reveal_strlit("escape");
    lemma_trim_len(w);
    lemma_lower_len(trim(w));
    if k == " "@ {
        assert(w == "space"@);
        lemma_trim_id(w);
    } else {
        assert(w == k);
        assert(w != " "@);
        let t = lower(trim(w));
        if t == "space"@ {
            assert(k == " "@);
        } else if t == "esc"@ {
            assert(k == "escape"@);
            assert(w == "escape"@);
            lemma_trim_id(w);
            lemma_lower_id(w);
            assert(t.len() == 6);
        } else {
            assert(k == t);
        }
    }
}

/// A button name read back denotes the button.
proof fn lemma_button_name_read(m: MouseButton)
    ensures
        button_named(button_name(m)) == Some(m),
{
        reveal_strlit("lmb");
        reveal_strlit("left");
        reveal_strlit("0");
        reveal_strlit("mmb");
        reveal_strlit("middle");
        reveal_strlit("1");
        reveal_strlit("rmb");
        reveal_strlit("right");
        reveal_strlit("2");
    let n = button_name(m);
    assert(!white_space(n[0]) && !white_space(n.last()));
    lemma_trim_id(n);
    lemma_lower_id(n);
}

/// The setting names written into `config.ini` are plain names.
proof fn lemma_names_plain()
    ensures
        plain_name("forward"@),
        plain_name("back"@),
        plain_name("steer_left"@),
        plain_name("steer_right"@),
        plain_name("boost_climb"@),
        plain_name("handbrake_dive"@),
        plain_name("throttle_button"@),
        plain_name("brake_button"@),
        plain_name("fireball_button"@),
        plain_name("walk_button"@),
        plain_name("sensitivity"@),
        plain_name("enter_exit"@),
        plain_name("summon_airplane"@),
        plain_name("summon_dragon"@),
        plain_name("auto_land"@),
        plain_name("auto_mode"@),
        plain_name("view"@),
        plain_name("reset_camera"@),
        plain_name("pause"@),
        plain_name("recenter"@),
        plain_name("config_page"@),
{
        reveal_strlit("forward");
        reveal_strlit("back");
        reveal_strlit("steer_left");
        reveal_strlit("steer_right");
        reveal_strlit("boost_climb");
        reveal_strlit("handbrake_dive");
        reveal_strlit("throttle_button");
        reveal_strlit("brake_button");
        reveal_strlit("fireball_button");
        reveal_strlit("walk_button");
        reveal_strlit("sensitivity");
        reveal_strlit("enter_exit");
        reveal_strlit("summon_airplane");
        reveal_strlit("summon_dragon");
        reveal_strlit("auto_land");
        reveal_strlit("auto_mode");
        reveal_strlit("view");
        reveal_strlit("reset_camera");
        reveal_strlit("pause");
        reveal_strlit("recenter");
        reveal_strlit("config_page");
}

/// The setting names and aliases tell the sections' slots apart.
proof fn lemma_slots()
    ensures
        movement_slot("forward"@) == Some(0int),
        movement_slot("back"@) == Some(1int),
        movement_slot("steer_left"@) == Some(2int),
        movement_slot("steer_right"@) == Some(3int),
        movement_slot("boost_climb"@) == Some(4int),
        movement_slot("handbrake_dive"@) == Some(5int),
        mouse_slot("throttle_button"@) == Some(0int),
        mouse_slot("brake_button"@) == Some(1int),
        mouse_slot("fireball_button"@) == Some(2int),
        mouse_slot("walk_button"@) == Some(3int),
        special_slot("enter_exit"@) == Some(6int),
        special_slot("summon_airplane"@) == Some(7int),
        special_slot("summon_dragon"@) == Some(8int),
        special_slot("auto_land"@) == Some(9int),
        special_slot("auto_mode"@) == Some(10int),
        special_slot("view"@) == Some(11int),
        special_slot("reset_camera"@) == Some(12int),
        special_slot("pause"@) == Some(13int),
        special_slot("recenter"@) == Some(14int),
        special_slot("config_page"@) == Some(15int),
        "sensitivity"@ != "throttle_button"@,
        "sensitivity"@ != "brake_button"@,
        "sensitivity"@ != "fireball_button"@,
        "sensitivity"@ != "walk_button"@,
        "mouse"@ != "movement"@,
        "specials"@ != "movement"@,
        "specials"@ != "mouse"@,
{
        reveal_strlit("forward");
        reveal_strlit("back");
        reveal_strlit("steer_left");
        reveal_strlit("steer_right");
        reveal_strlit("boost_climb");
        reveal_strlit("handbrake_dive");
        reveal_strlit("throttle_button");
        reveal_strlit("brake_button");
        reveal_strlit("fireball_button");
        reveal_strlit("walk_button");
        reveal_strlit("sensitivity");
        reveal_strlit("enter_exit");
        reveal_strlit("summon_airplane");
        reveal_strlit("summon_dragon");
        reveal_strlit("auto_land");
        reveal_strlit("auto_mode");
        reveal_strlit("view");
        reveal_strlit("reset_camera");
        reveal_strlit("pause");
        reveal_strlit("recenter");
        reveal_strlit("config_page");
        reveal_strlit("boost");
        reveal_strlit("run");
        reveal_strlit("handbrake");
        reveal_strlit("dive");
        reveal_strlit("walk_forward_button");
        reveal_strlit("enter");
        reveal_strlit("exit");
        reveal_strlit("summon_plane");
        reveal_strlit("plane");
        reveal_strlit("dragon");
        reveal_strlit("autoland");
        reveal_strlit("auto");
        reveal_strlit("re_center");
        reveal_strlit("config");
        reveal_strlit("movement");
        reveal_strlit("mouse");
        reveal_strlit("specials");
    assert("forward"@.len() == 7);
    assert("back"@.len() == 4);
    assert("steer_left"@.len() == 10);
    assert("steer_right"@.len() == 11);
    assert("boost_climb"@.len() == 11);
    assert("handbrake_dive"@.len() == 14);
    assert("throttle_button"@.len() == 15);
    assert("brake_button"@.len() == 12);
    assert("fireball_button"@.len() == 15);
    assert("walk_button"@.len() == 11);
    assert("sensitivity"@.len() == 11);
    assert("enter_exit"@.len() == 10);
    assert("summon_airplane"@.len() == 15);
    assert("summon_dragon"@.len() == 13);
    assert("auto_land"@.len() == 9);
    assert("auto_mode"@.len() == 9);
    assert("view"@.len() == 4);
    assert("reset_camera"@.len() == 12);
    assert("pause"@.len() == 5);
    assert("recenter"@.len() == 8);
    assert("config_page"@.len() == 11);
    assert("boost"@.len() == 5);
    assert("run"@.len() == 3);
    assert("handbrake"@.len() == 9);
    assert("dive"@.len() == 4);
    assert("walk_forward_button"@.len() == 19);
    assert("enter"@.len() == 5);
    assert("exit"@.len() == 4);
    assert("summon_plane"@.len() == 12);
    assert("plane"@.len() == 5);
    assert("dragon"@.len() == 6);
    assert("autoland"@.len() == 8);
    assert("auto"@.len() == 4);
    assert("re_center"@.len() == 9);
    assert("config"@.len() == 6);
    assert("movement"@.len() == 8);
    assert("mouse"@.len() == 5);
    assert("specials"@.len() == 8);
    assert("back"@[0] != "view"@[0]);
    assert("back"@[0] != "dive"@[0]);
    assert("back"@[0] != "exit"@[0]);
    assert("back"@[0] != "auto"@[0]);
    assert("steer_left"@[0] != "enter_exit"@[0]);
    assert("steer_right"@[0] != "boost_climb"@[0]);
    assert("steer_right"@[0] != "walk_button"@[0]);
    assert("steer_right"@[1] != "sensitivity"@[1]);
    assert("steer_right"@[0] != "config_page"@[0]);
    assert("boost_climb"@[0] != "walk_button"@[0]);
    assert("boost_climb"@[0] != "sensitivity"@[0]);
    assert("boost_climb"@[0] != "config_page"@[0]);
    assert("throttle_button"@[0] != "fireball_button"@[0]);
    assert("throttle_button"@[0] != "summon_airplane"@[0]);
    assert("brake_button"@[0] != "reset_camera"@[0]);
    assert("brake_button"@[0] != "summon_plane"@[0]);
    assert("fireball_button"@[0] != "summon_airplane"@[0]);
    assert("walk_button"@[0] != "sensitivity"@[0]);
    assert("walk_button"@[0] != "config_page"@[0]);
    assert("sensitivity"@[0] != "config_page"@[0]);
    assert("auto_land"@[5] != "auto_mode"@[5]);
    assert("auto_land"@[0] != "handbrake"@[0]);
    assert("auto_land"@[0] != "re_center"@[0]);
    assert("auto_mode"@[0] != "handbrake"@[0]);
    assert("auto_mode"@[0] != "re_center"@[0]);
    assert("view"@[0] != "dive"@[0]);
    assert("view"@[0] != "exit"@[0]);
    assert("view"@[0] != "auto"@[0]);
    assert("reset_camera"@[0] != "summon_plane"@[0]);
    assert("pause"@[0] != "boost"@[0]);
    assert("pause"@[0] != "enter"@[0]);
    assert("pause"@[1] != "plane"@[1]);
    assert("pause"@[0] != "mouse"@[0]);
    assert("recenter"@[0] != "autoland"@[0]);
    assert("recenter"@[0] != "movement"@[0]);
    assert("recenter"@[0] != "specials"@[0]);
    assert("boost"@[0] != "enter"@[0]);
    assert("boost"@[0] != "plane"@[0]);
    assert("boost"@[0] != "mouse"@[0]);
    assert("handbrake"@[0] != "re_center"@[0]);
    assert("dive"@[0] != "exit"@[0]);
    assert("dive"@[0] != "auto"@[0]);
    assert("enter"@[0] != "plane"@[0]);
    assert("enter"@[0] != "mouse"@[0]);
    assert("exit"@[0] != "auto"@[0]);
    assert("plane"@[0] != "mouse"@[0]);
    assert("dragon"@[0] != "config"@[0]);
    assert("autoland"@[0] != "movement"@[0]);
    assert("autoland"@[0] != "specials"@[0]);
    assert("movement"@[0] != "specials"@[0]);
}

/// Every line written into `config.ini` is free of line breaks.
proof fn lemma_lines_single(c: ConfigView, sens: Seq<char>)
    requires
        c.keys.len() == 16,
        c.buttons.len() == 4,
        forall|i: int| 0 <= i < 16 ==> !(#[trigger] c.keys[i]).contains('\n'),
        !sens.contains('\n'),
    ensures
        forall|i: int|
            0 <= i < ini_lines(c, sens).len() ==> !(#[trigger] ini_lines(c, sens)[i]).contains(
                '\n',
            ),
{
        reveal_strlit("# GTA VI — Web Edition: key bindings & mouse behavior");
        reveal_strlit("# Generated by the in-game config page (ESC). Edit by hand, or");
        reveal_strlit("# use the config page (S = save, L = load, X = defaults).");
        reveal_strlit("[movement]");
        reveal_strlit("[mouse]");
        reveal_strlit("[specials]");
        reveal_strlit(" = ");
        reveal_strlit("space");
        reveal_strlit("lmb");
        reveal_strlit("mmb");
        reveal_strlit("rmb");
        reveal_strlit("forward");
        reveal_strlit("back");
        reveal_strlit("steer_left");
        reveal_strlit("steer_right");
        reveal_strlit("boost_climb");
        reveal_strlit("handbrake_dive");
        reveal_strlit("throttle_button");
        reveal_strlit("brake_button");
        reveal_strlit("fireball_button");
        reveal_strlit("walk_button");
        reveal_strlit("sensitivity");
        reveal_strlit("enter_exit");
        reveal_strlit("summon_airplane");
        reveal_strlit("summon_dragon");
        reveal_strlit("auto_land");
        reveal_strlit("auto_mode");
        reveal_strlit("view");
        reveal_strlit("reset_camera");
        reveal_strlit("pause");
        reveal_strlit("recenter");
        reveal_strlit("config_page");
    lemma_names_plain();
    let ls = ini_lines(c, sens);
    assert forall|i: int| 0 <= i < ls.len() implies !(#[trigger] ls[i]).contains('\n') by {
        if 5 <= i <= 10 || 13 <= i <= 17 || 20 <= i <= 29 {
            let n = if i == 5 {
                "forward"@
            } else if i == 6 {
                "back"@
            } else if i == 7 {
                "steer_left"@
            } else if i == 8 {
                "steer_right"@
            } else if i == 9 {
                "boost_climb"@
            } else if i == 10 {
                "handbrake_dive"@
            } else if i == 13 {
                "throttle_button"@
            } else if i == 14 {
                "brake_button"@
            } else if i == 15 {
                "fireball_button"@
            } else if i == 16 {
                "walk_button"@
            } else if i == 17 {
                "sensitivity"@
            } else if i == 20 {
                "enter_exit"@
            } else if i == 21 {
                "summon_airplane"@
            } else if i == 22 {
                "summon_dragon"@
            } else if i == 23 {
                "auto_land"@
            } else if i == 24 {
                "auto_mode"@
            } else if i == 25 {
                "view"@
            } else if i == 26 {
                "reset_camera"@
            } else if i == 27 {
                "pause"@
            } else if i == 28 {
                "recenter"@
            } else {
                "config_page"@
            };
            let w = if 5 <= i <= 10 {
                ini_written(c.keys[i - 5])
            } else if 13 <= i <= 16 {
                button_name(c.buttons[i - 13])
            } else if i == 17 {
                sens
            } else {
                ini_written(c.keys[i - 14])
            };
            assert(ls[i] == setting(n, w));
            assert forall|j: int| 0 <= j < w.len() implies w[j] != '\n' by {
                if 5 <= i <= 10 || 20 <= i <= 29 {
                    let k = if i <= 10 { c.keys[i - 5] } else { c.keys[i - 14] };
                    if w != k {
                        assert(w == "space"@);
                    } else {
                        assert(k[j] != '\n');
                    }
                }
                if i == 17 {
                    assert(sens[j] != '\n');
                }
            }
            assert forall|j: int| 0 <= j < ls[i].len() implies ls[i][j] != '\n' by {
                if j < n.len() {
                    assert(ls[i][j] == n[j]);
                } else if j < n.len() + 3 {
                    assert(ls[i][j] == " = "@[j - n.len()]);
                } else {
                    assert(ls[i][j] == w[j - n.len() - 3]);
                }
            }
        }
    }
}

/// The reader's state at a point of reading back a written `config.ini`.
spec fn round_trip_state_a(c: ConfigView, sens: Seq<char>) -> IniRead {
    IniRead { config: default_view(), section: "movement"@, sensitivity: Seq::empty() }
}

/// The reader's state at a point of reading back a written `config.ini`.
spec fn round_trip_state_b(c: ConfigView, sens: Seq<char>) -> IniRead {
    IniRead { config: ConfigView { keys: c.keys.take(6) + default_view().keys.skip(6), buttons: default_view().buttons }, section: "movement"@, sensitivity: Seq::empty() }
}

/// The reader's state at a point of reading back a written `config.ini`.
spec fn round_trip_state_c(c: ConfigView, sens: Seq<char>) -> IniRead {
    IniRead { config: ConfigView { keys: c.keys.take(6) + default_view().keys.skip(6), buttons: c.buttons }, section: "mouse"@, sensitivity: seq![sens] }
}

/// The reader's state at a point of reading back a written `config.ini`.
spec fn round_trip_state_d(c: ConfigView, sens: Seq<char>) -> IniRead {
    IniRead { config: c, section: "specials"@, sensitivity: seq![sens] }
}

proof fn lemma_round_trip_header(c: ConfigView, sens: Seq<char>)
    requires
        c.keys.len() == 16,
        c.buttons.len() == 4,
        forall|i: int| 0 <= i < 16 ==> normalized(ini_written(#[trigger] c.keys[i])) == c.keys[i],
        trim(sens) == sens,
        read_lines(ini_lines(c, sens).take(0), read_start()) == read_start(),
    ensures
        read_lines(ini_lines(c, sens).take(5), read_start()) == round_trip_state_a(c, sens),
{
    reveal_strlit("# GTA VI — Web Edition: key bindings & mouse behavior");
    reveal_strlit("# Generated by the in-game config page (ESC). Edit by hand, or");
    reveal_strlit("# use the config page (S = save, L = load, X = defaults).");
    reveal_strlit("[movement]");
    reveal_strlit("movement");
    let ls = ini_lines(c, sens);
    lemma_names_plain();
    lemma_slots();
    let s0 = read_start();
    let s1 = s0;
    assert(read_lines(ls.take(1), read_start()) == s1) by {
        lemma_read_lines_step(ls, 0, read_start());
        lemma_comment_line(s0, ls[0]);
    }
    let s2 = s1;
    assert(read_lines(ls.take(2), read_start()) == s2) by {
        lemma_read_lines_step(ls, 1, read_start());
        lemma_comment_line(s1, ls[1]);
    }
    let s3 = s2;
    assert(read_lines(ls.take(3), read_start()) == s3) by {
        lemma_read_lines_step(ls, 2, read_start());
        lemma_comment_line(s2, ls[2]);
    }
    let s4 = s3;
    assert(read_lines(ls.take(4), read_start()) == s4) by {
        lemma_read_lines_step(ls, 3, read_start());
        lemma_blank_line(s3);
    }
    let s5 = IniRead { section: "movement"@, ..s4 };
    assert(read_lines(ls.take(5), read_start()) == s5) by {
        lemma_read_lines_step(ls, 4, read_start());
        assert(ls[4] =~= seq!['['] + "movement"@ + seq![']']);
        assert(forall|i: int| 0 <= i < "movement"@.len() ==> !white_space(#[trigger] "movement"@[i]) && !('A' <= "movement"@[i] && "movement"@[i] <= 'Z'));
        lemma_section_line(s4, ls[4], "movement"@);
    }
    assert(s5 == round_trip_state_a(c, sens));
}

proof fn lemma_round_trip_movement(c: ConfigView, sens: Seq<char>)
    requires
        c.keys.len() == 16,
        c.buttons.len() == 4,
        forall|i: int| 0 <= i < 16 ==> normalized(ini_written(#[trigger] c.keys[i])) == c.keys[i],
        trim(sens) == sens,
        read_lines(ini_lines(c, sens).take(5), read_start()) == round_trip_state_a(c, sens),
    ensures
        read_lines(ini_lines(c, sens).take(11), read_start()) == round_trip_state_b(c, sens),
{
    reveal_strlit("movement");
    let ls = ini_lines(c, sens);
    lemma_names_plain();
    lemma_slots();
    let s5 = round_trip_state_a(c, sens);
    let s6 = with_key(s5, 0, c.keys[0]);
    assert(read_lines(ls.take(6), read_start()) == s6) by {
        lemma_read_lines_step(ls, 5, read_start());
        lemma_written_trimmed(c.keys[0], ini_written(c.keys[0]));
        lemma_setting_line(s5, "forward"@, ini_written(c.keys[0]));
    }
    let s7 = with_key(s6, 1, c.keys[1]);
    assert(read_lines(ls.take(7), read_start()) == s7) by {
        lemma_read_lines_step(ls, 6, read_start());
        lemma_written_trimmed(c.keys[1], ini_written(c.keys[1]));
        lemma_setting_line(s6, "back"@, ini_written(c.keys[1]));
    }
    let s8 = with_key(s7, 2, c.keys[2]);
    assert(read_lines(ls.take(8), read_start()) == s8) by {
        lemma_read_lines_step(ls, 7, read_start());
        lemma_written_trimmed(c.keys[2], ini_written(c.keys[2]));
        lemma_setting_line(s7, "steer_left"@, ini_written(c.keys[2]));
    }
    let s9 = with_key(s8, 3, c.keys[3]);
    assert(read_lines(ls.take(9), read_start()) == s9) by {
        lemma_read_lines_step(ls, 8, read_start());
        lemma_written_trimmed(c.keys[3], ini_written(c.keys[3]));
        lemma_setting_line(s8, "steer_right"@, ini_written(c.keys[3]));
    }
    let s10 = with_key(s9, 4, c.keys[4]);
    assert(read_lines(ls.take(10), read_start()) == s10) by {
        lemma_read_lines_step(ls, 9, read_start());
        lemma_written_trimmed(c.keys[4], ini_written(c.keys[4]));
        lemma_setting_line(s9, "boost_climb"@, ini_written(c.keys[4]));
    }
    let s11 = with_key(s10, 5, c.keys[5]);
    assert(read_lines(ls.take(11), read_start()) == s11) by {
        lemma_read_lines_step(ls, 10, read_start());
        lemma_written_trimmed(c.keys[5], ini_written(c.keys[5]));
        lemma_setting_line(s10, "handbrake_dive"@, ini_written(c.keys[5]));
    }
    assert(s11.config.keys =~= round_trip_state_b(c, sens).config.keys);
}

proof fn lemma_round_trip_mouse(c: ConfigView, sens: Seq<char>)
    requires
        c.keys.len() == 16,
        c.buttons.len() == 4,
        forall|i: int| 0 <= i < 16 ==> normalized(ini_written(#[trigger] c.keys[i])) == c.keys[i],
        trim(sens) == sens,
        read_lines(ini_lines(c, sens).take(11), read_start()) == round_trip_state_b(c, sens),
    ensures
        read_lines(ini_lines(c, sens).take(18), read_start()) == round_trip_state_c(c, sens),
{
    reveal_strlit("mouse");
    reveal_strlit("[mouse]");
    reveal_strlit("movement");
    let ls = ini_lines(c, sens);
    lemma_names_plain();
    lemma_slots();
    let s11 = round_trip_state_b(c, sens);
    let s12 = s11;
    assert(read_lines(ls.take(12), read_start()) == s12) by {
        lemma_read_lines_step(ls, 11, read_start());
        lemma_blank_line(s11);
    }
    let s13 = IniRead { section: "mouse"@, ..s12 };
    assert(read_lines(ls.take(13), read_start()) == s13) by {
        lemma_read_lines_step(ls, 12, read_start());
        assert(ls[12] =~= seq!['['] + "mouse"@ + seq![']']);
        assert(forall|i: int| 0 <= i < "mouse"@.len() ==> !white_space(#[trigger] "mouse"@[i]) && !('A' <= "mouse"@[i] && "mouse"@[i] <= 'Z'));
        lemma_section_line(s12, ls[12], "mouse"@);
    }
    let s14 = IniRead { config: ConfigView { keys: s13.config.keys, buttons: s13.config.buttons.update(0, c.buttons[0]) }, ..s13 };
    assert(read_lines(ls.take(14), read_start()) == s14) by {
        lemma_read_lines_step(ls, 13, read_start());
        lemma_button_name_read(c.buttons[0]);
        lemma_button_name_trimmed(c.buttons[0]);
        lemma_setting_line(s13, "throttle_button"@, button_name(c.buttons[0]));
    }
    let s15 = IniRead { config: ConfigView { keys: s14.config.keys, buttons: s14.config.buttons.update(1, c.buttons[1]) }, ..s14 };
    assert(read_lines(ls.take(15), read_start()) == s15) by {
        lemma_read_lines_step(ls, 14, read_start());
        lemma_button_name_read(c.buttons[1]);
        lemma_button_name_trimmed(c.buttons[1]);
        lemma_setting_line(s14, "brake_button"@, button_name(c.buttons[1]));
    }
    let s16 = IniRead { config: ConfigView { keys: s15.config.keys, buttons: s15.config.buttons.update(2, c.buttons[2]) }, ..s15 };
    assert(read_lines(ls.take(16), read_start()) == s16) by {
        lemma_read_lines_step(ls, 15, read_start());
        lemma_button_name_read(c.buttons[2]);
        lemma_button_name_trimmed(c.buttons[2]);
        lemma_setting_line(s15, "fireball_button"@, button_name(c.buttons[2]));
    }
    let s17 = IniRead { config: ConfigView { keys: s16.config.keys, buttons: s16.config.buttons.update(3, c.buttons[3]) }, ..s16 };
    assert(read_lines(ls.take(17), read_start()) == s17) by {
        lemma_read_lines_step(ls, 16, read_start());
        lemma_button_name_read(c.buttons[3]);
        lemma_button_name_trimmed(c.buttons[3]);
        lemma_setting_line(s16, "walk_button"@, button_name(c.buttons[3]));
    }
    let s18 = IniRead { sensitivity: s17.sensitivity.push(sens), ..s17 };
    assert(read_lines(ls.take(18), read_start()) == s18) by {
        lemma_read_lines_step(ls, 17, read_start());
        lemma_setting_line(s17, "sensitivity"@, sens);
    }
    assert(s18.config.buttons =~= c.buttons);
    assert(s18.sensitivity =~= seq![sens]);
}

proof fn lemma_round_trip_specials(c: ConfigView, sens: Seq<char>)
    requires
        c.keys.len() == 16,
        c.buttons.len() == 4,
        forall|i: int| 0 <= i < 16 ==> normalized(ini_written(#[trigger] c.keys[i])) == c.keys[i],
        trim(sens) == sens,
        read_lines(ini_lines(c, sens).take(18), read_start()) == round_trip_state_c(c, sens),
    ensures
        read_lines(ini_lines(c, sens).take(30), read_start()) == round_trip_state_d(c, sens),
{
    reveal_strlit("specials");
    reveal_strlit("[specials]");
    reveal_strlit("movement");
    reveal_strlit("mouse");
    let ls = ini_lines(c, sens);
    lemma_names_plain();
    lemma_slots();
    let s18 = round_trip_state_c(c, sens);
    let s19 = s18;
    assert(read_lines(ls.take(19), read_start()) == s19) by {
        lemma_read_lines_step(ls, 18, read_start());
        lemma_blank_line(s18);
    }
    let s20 = IniRead { section: "specials"@, ..s19 };
    assert(read_lines(ls.take(20), read_start()) == s20) by {
        lemma_read_lines_step(ls, 19, read_start());
        assert(ls[19] =~= seq!['['] + "specials"@ + seq![']']);
        assert(forall|i: int| 0 <= i < "specials"@.len() ==> !white_space(#[trigger] "specials"@[i]) && !('A' <= "specials"@[i] && "specials"@[i] <= 'Z'));
        lemma_section_line(s19, ls[19], "specials"@);
    }
    let s21 = with_key(s20, 6, c.keys[6]);
    assert(read_lines(ls.take(21), read_start()) == s21) by {
        lemma_read_lines_step(ls, 20, read_start());
        lemma_written_trimmed(c.keys[6], ini_written(c.keys[6]));
        lemma_setting_line(s20, "enter_exit"@, ini_written(c.keys[6]));
    }
    let s22 = with_key(s21, 7, c.keys[7]);
    assert(read_lines(ls.take(22), read_start()) == s22) by {
        lemma_read_lines_step(ls, 21, read_start());
        lemma_written_trimmed(c.keys[7], ini_written(c.keys[7]));
        lemma_setting_line(s21, "summon_airplane"@, ini_written(c.keys[7]));
    }
    let s23 = with_key(s22, 8, c.keys[8]);
    assert(read_lines(ls.take(23), read_start()) == s23) by {
        lemma_read_lines_step(ls, 22, read_start());
        lemma_written_trimmed(c.keys[8], ini_written(c.keys[8]));
        lemma_setting_line(s22, "summon_dragon"@, ini_written(c.keys[8]));
    }
    let s24 = with_key(s23, 9, c.keys[9]);
    assert(read_lines(ls.take(24), read_start()) == s24) by {
        lemma_read_lines_step(ls, 23, read_start());
        lemma_written_trimmed(c.keys[9], ini_written(c.keys[9]));
        lemma_setting_line(s23, "auto_land"@, ini_written(c.keys[9]));
    }
    let s25 = with_key(s24, 10, c.keys[10]);
    assert(read_lines(ls.take(25), read_start()) == s25) by {
        lemma_read_lines_step(ls, 24, read_start());
        lemma_written_trimmed(c.keys[10], ini_written(c.keys[10]));
        lemma_setting_line(s24, "auto_mode"@, ini_written(c.keys[10]));
    }
    let s26 = with_key(s25, 11, c.keys[11]);
    assert(read_lines(ls.take(26), read_start()) == s26) by {
        lemma_read_lines_step(ls, 25, read_start());
        lemma_written_trimmed(c.keys[11], ini_written(c.keys[11]));
        lemma_setting_line(s25, "view"@, ini_written(c.keys[11]));
    }
    let s27 = with_key(s26, 12, c.keys[12]);
    assert(read_lines(ls.take(27), read_start()) == s27) by {
        lemma_read_lines_step(ls, 26, read_start());
        lemma_written_trimmed(c.keys[12], ini_written(c.keys[12]));
        lemma_setting_line(s26, "reset_camera"@, ini_written(c.keys[12]));
    }
    let s28 = with_key(s27, 13, c.keys[13]);
    assert(read_lines(ls.take(28), read_start()) == s28) by {
        lemma_read_lines_step(ls, 27, read_start());
        lemma_written_trimmed(c.keys[13], ini_written(c.keys[13]));
        lemma_setting_line(s27, "pause"@, ini_written(c.keys[13]));
    }
    let s29 = with_key(s28, 14, c.keys[14]);
    assert(read_lines(ls.take(29), read_start()) == s29) by {
        lemma_read_lines_step(ls, 28, read_start());
        lemma_written_trimmed(c.keys[14], ini_written(c.keys[14]));
        lemma_setting_line(s28, "recenter"@, ini_written(c.keys[14]));
    }
    let s30 = with_key(s29, 15, c.keys[15]);
    assert(read_lines(ls.take(30), read_start()) == s30) by {
        lemma_read_lines_step(ls, 29, read_start());
        lemma_written_trimmed(c.keys[15], ini_written(c.keys[15]));
        lemma_setting_line(s29, "config_page"@, ini_written(c.keys[15]));
    }
    assert(s30.config.keys =~= c.keys);
}

/// A button name is its own trim.
proof fn lemma_button_name_trimmed(m: MouseButton)
    ensures
        trim(button_name(m)) == button_name(m),
{
    reveal_strlit("lmb");
    reveal_strlit("mmb");
    reveal_strlit("rmb");
    lemma_trim_id(button_name(m));
}

/// What a `config.ini` written for `c` reads back as: the same keys and
/// buttons, and the sensitivity text that was written, provided every key
/// survives being written (it reads back as itself, which holds for every
/// normalized key: see [`lemma_ini_round_trip_normalized`]) and no key or
/// sensitivity text holds a line break or, for the sensitivity, surrounding
/// white space.
pub proof fn lemma_ini_round_trip(c: ConfigView, sens: Seq<char>)
    requires
        c.keys.len() == 16,
        c.buttons.len() == 4,
        forall|i: int| 0 <= i < 16 ==> normalized(ini_written(#[trigger] c.keys[i])) == c.keys[i],
        trim(sens) == sens,
        forall|i: int| 0 <= i < 16 ==> !(#[trigger] c.keys[i]).contains('\n'),
        !sens.contains('\n'),
    ensures
        read_ini(ini_text(c, sens)).config == c,
        read_ini(ini_text(c, sens)).sensitivity == seq![sens],
{
    let ls = ini_lines(c, sens);
    lemma_lines_single(c, sens);
    lemma_read_joined(ls, Seq::<char>::empty(), read_start());
    assert(ini_text(c, sens) + Seq::<char>::empty() =~= ini_text(c, sens));
    let fin = read_lines(ls, read_start());
    lemma_blank_line(fin);
    assert(read_ini(ini_text(c, sens)) == fin);
    assert(ls.take(0) =~= Seq::<Seq<char>>::empty());
    assert(ls.take(30) =~= ls);
    lemma_round_trip_header(c, sens);
    lemma_round_trip_movement(c, sens);
    lemma_round_trip_mouse(c, sens);
    lemma_round_trip_specials(c, sens);
}

/// A normalized key (the space bar's " " among them) reads back as itself
/// once written.
pub proof fn lemma_normalized_key_survives(k: Seq<char>)
    requires
        normalized(k) == k,
    ensures
        normalized(ini_written(k)) == k,
{
    reveal_strlit(" ");
    reveal_strlit("space");
    assert("space"@ != " "@) by {
        assert("space"@.len() != " "@.len());
    }
    lemma_trim_id("space"@);
    lemma_lower_id("space"@);
}

/// Every configuration whose keys are normalized (every key that
/// [`Config::set_key`] stores is) survives a save to `config.ini` and a
/// reload, as long as no key or sensitivity text holds a line break and the
/// sensitivity text is trimmed.
pub proof fn lemma_ini_round_trip_normalized(c: ConfigView, sens: Seq<char>)
    requires
        c.keys.len() == 16,
        c.buttons.len() == 4,
        forall|i: int| 0 <= i < 16 ==> normalized(#[trigger] c.keys[i]) == c.keys[i],
        trim(sens) == sens,
        forall|i: int| 0 <= i < 16 ==> !(#[trigger] c.keys[i]).contains('\n'),
        !sens.contains('\n'),
    ensures
        read_ini(ini_text(c, sens)).config == c,
        read_ini(ini_text(c, sens)).sensitivity == seq![sens],
{
    assert forall|i: int| 0 <= i < 16 implies normalized(ini_written(#[trigger] c.keys[i]))
        == c.keys[i] by {
        lemma_normalized_key_survives(c.keys[i]);
    }
    lemma_ini_round_trip(c, sens);
}

} // verus!
