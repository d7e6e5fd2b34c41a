//! The DOOM window: which map of the first episode is loaded, the paused,
//! help and zoom switches, the short input impulses that keys and clicks
//! give the player, the 35 Hz game clock driven by the 100 Hz timer, the
//! frame counter, and the status message; and the `neurodoom` game engine
//! it loads maps into and runs a game tick of at each of the clock's
//! ticks.
use vstd::prelude::*;
use crate::chars::{chars_of, lower, to_lower};
use crate::input::{DecodedKey, KeyCode};
use crate::text::{decimal_digits, format_u64, string_from_chars};
use crate::color::{pack_argb, Color};
use crate::framebuffer::Framebuffer;
use crate::render::{drawn_over, frame, gradient_v, inner, label, label_any, label_button, rect};
use crate::scene::{
    clip_to, half, half_of, label_button_shapes, lemma_paint_seq, lemma_paint_step, painted, sfill, shape_pixels, soutline,
    stext, ShapeV,
};

verus! {

/// Number `i` of the episode's maps, from `E1M1`.
pub open spec fn map_name(i: int) -> Seq<char> {
    seq!['E', '1', 'M', (('1' as u32) + i) as char]
}

/// The first of the nine maps whose name `name` is, ignoring ASCII case,
/// from number `i` on; else the first map.
pub open spec fn map_index_from(name: Seq<char>, i: int) -> int
    decreases 9 - i,
{
    if i >= 9 || i < 0 {
        0
    } else if lower(name) == lower(map_name(i)) {
        i
    } else {
        map_index_from(name, i + 1)
    }
}

/// The map a name picks (the first map for an unknown name).
pub open spec fn map_index(name: Seq<char>) -> int {
    map_index_from(name, 0)
}

/// The window's switches, impulses and counters.
#[derive(Debug, Clone, Copy, PartialEq, Eq, Structural)]
pub struct DoomControls {
    pub current_map_idx: usize,
    /// 1 or 2 screen pixels per game pixel.
    pub scale: usize,
    pub is_paused: bool,
    pub show_help: bool,
    /// 35 per timer tick; a game tick is due at each 100.
    pub tick_acc: usize,
    pub forward_impulse: u8,
    pub forward_val: i8,
    pub side_impulse: u8,
    pub side_val: i8,
    pub turn_impulse: u8,
    pub turn_val: i16,
    pub attack_impulse: u8,
    pub use_impulse: u8,
    pub weapon_select: u8,
    pub fps: usize,
    pub frame_count: usize,
    pub fps_timer: usize,
}

/// The controls in range: a map of the nine, a scale of 1 or 2, the game
/// clock below a tick, and frames counted within the current second.
pub open spec fn controls_ok(c: DoomControls) -> bool {
    &&& c.current_map_idx < 9
    &&& (c.scale == 1 || c.scale == 2)
    &&& c.tick_acc < 100
    &&& c.fps_timer < 35
    &&& c.frame_count == c.fps_timer
    &&& c.fps <= 35
}

/// The controls after key `key`, for keys other than `m` and `r` (which
/// load a map): moves and turns for 5 game ticks (W/S or Up/Down forward and
/// back by 35, A/D or Left/Right turn by 900, Q/E or `,`/`.` and `<`/`>`
/// strafe by 35), attack (F or Ctrl) and use (Space or Enter) for 3 ticks,
/// the digits 1 to 7 pick a weapon, P pauses, H shows the help, Z zooms.
pub open spec fn key_controls(c: DoomControls, key: DecodedKey) -> DoomControls {
    match key {
        DecodedKey::RawKey(code) => {
            if code == KeyCode::ArrowUp { DoomControls { forward_val: 35, forward_impulse: 5, ..c } }
            else if code == KeyCode::ArrowDown { DoomControls { forward_val: -35i8, forward_impulse: 5, ..c } }
            else if code == KeyCode::ArrowLeft { DoomControls { turn_val: 900, turn_impulse: 5, ..c } }
            else if code == KeyCode::ArrowRight { DoomControls { turn_val: -900i16, turn_impulse: 5, ..c } }
            else if code == KeyCode::LControl || code == KeyCode::RControl { DoomControls { attack_impulse: 3, ..c } }
            else { c }
        },
        DecodedKey::Unicode(ch) => {
            if ch == 'w' || ch == 'W' { DoomControls { forward_val: 35, forward_impulse: 5, ..c } }
            else if ch == 's' || ch == 'S' { DoomControls { forward_val: -35i8, forward_impulse: 5, ..c } }
            else if ch == 'a' || ch == 'A' { DoomControls { turn_val: 900, turn_impulse: 5, ..c } }
            else if ch == 'd' || ch == 'D' { DoomControls { turn_val: -900i16, turn_impulse: 5, ..c } }
            else if ch == 'q' || ch == 'Q' || ch == ',' || ch == '<' { DoomControls { side_val: -35i8, side_impulse: 5, ..c } }
            else if ch == 'e' || ch == 'E' || ch == '.' || ch == '>' { DoomControls { side_val: 35, side_impulse: 5, ..c } }
            else if ch == ' ' || ch == '\n' { DoomControls { use_impulse: 3, ..c } }
            else if ch == 'f' || ch == 'F' { DoomControls { attack_impulse: 3, ..c } }
            else if '1' <= ch <= '7' { DoomControls { weapon_select: ((ch as u32) - 48) as u8, ..c } }
            else if ch == 'p' || ch == 'P' { DoomControls { is_paused: !c.is_paused, ..c } }
            else if ch == 'h' || ch == 'H' { DoomControls { show_help: !c.show_help, ..c } }
            else if ch == 'z' || ch == 'Z' { DoomControls { scale: if c.scale == 2 { 1 } else { 2 }, ..c } }
            else { c }
        },
    }
}

/// The movement keys come in opposite pairs, the letters standing for the
/// arrows: `d` (or `D`) acts as Right and `a` (or `A`) as Left, and the two
/// turn the same amount in opposite directions; likewise `w` as Up and `s`
/// as Down move forward and back by opposite amounts, and `e` and `q`
/// strafe by opposite amounts; each of these sets its movement going for
/// the same number of ticks and leaves every other control as it was.
pub proof fn lemma_paired_keys(c: DoomControls)
    ensures
        key_controls(c, DecodedKey::Unicode('d')) == key_controls(c, DecodedKey::RawKey(KeyCode::ArrowRight)),
        key_controls(c, DecodedKey::Unicode('D')) == key_controls(c, DecodedKey::RawKey(KeyCode::ArrowRight)),
        key_controls(c, DecodedKey::Unicode('a')) == key_controls(c, DecodedKey::RawKey(KeyCode::ArrowLeft)),
        key_controls(c, DecodedKey::Unicode('A')) == key_controls(c, DecodedKey::RawKey(KeyCode::ArrowLeft)),
        key_controls(c, DecodedKey::Unicode('w')) == key_controls(c, DecodedKey::RawKey(KeyCode::ArrowUp)),
        key_controls(c, DecodedKey::Unicode('s')) == key_controls(c, DecodedKey::RawKey(KeyCode::ArrowDown)),
        key_controls(c, DecodedKey::Unicode('d')).turn_val == -key_controls(c, DecodedKey::Unicode('a')).turn_val,
        key_controls(c, DecodedKey::Unicode('a')).turn_val > 0,
        key_controls(c, DecodedKey::Unicode('d')).turn_impulse == key_controls(c, DecodedKey::Unicode('a')).turn_impulse,
        key_controls(c, DecodedKey::Unicode('d')).turn_impulse > 0,
        key_controls(c, DecodedKey::Unicode('d')) == (DoomControls {
            turn_val: key_controls(c, DecodedKey::Unicode('d')).turn_val,
            turn_impulse: key_controls(c, DecodedKey::Unicode('d')).turn_impulse,
            ..c
        }),
        key_controls(c, DecodedKey::Unicode('s')).forward_val == -key_controls(c, DecodedKey::Unicode('w')).forward_val,
        key_controls(c, DecodedKey::Unicode('w')).forward_val > 0,
        key_controls(c, DecodedKey::Unicode('q')).side_val == -key_controls(c, DecodedKey::Unicode('e')).side_val,
        key_controls(c, DecodedKey::Unicode('e')).side_val > 0,
{
}

/// Whether key `key` loads a map: `m` the next one, `r` the current one again.
pub open spec fn key_loads_map(key: DecodedKey) -> Option<bool> {
    match key {
        DecodedKey::Unicode(ch) => {
            if ch == 'm' || ch == 'M' { Some(true) } else if ch == 'r' || ch == 'R' { Some(false) } else { None }
        },
        DecodedKey::RawKey(_) => None,
    }
}

/// The player input of a game tick with controls `c`: each movement whose
/// impulse is still running, and the weapon picked.
pub open spec fn tick_input(c: DoomControls) -> (i8, i8, i16, bool, bool, u8) {
    (
        if c.forward_impulse > 0 { c.forward_val } else { 0 },
        if c.side_impulse > 0 { c.side_val } else { 0 },
        if c.turn_impulse > 0 { c.turn_val } else { 0 },
        c.attack_impulse > 0,
        c.use_impulse > 0,
        c.weapon_select,
    )
}

/// One less, not below 0.
pub open spec fn less(v: u8) -> u8 {
    if v > 0 { (v - 1) as u8 } else { 0 }
}

/// The controls after a game tick: impulses run down by one, the weapon
/// pick is used up, and the frame counter gives the frames per second each
/// 35 ticks.
pub open spec fn stepped_controls(c: DoomControls) -> DoomControls {
    let counted = c.fps_timer + 1 >= 35;
    DoomControls {
        forward_impulse: less(c.forward_impulse),
        side_impulse: less(c.side_impulse),
        turn_impulse: less(c.turn_impulse),
        attack_impulse: less(c.attack_impulse),
        use_impulse: less(c.use_impulse),
        weapon_select: 0,
        fps: if counted { (c.frame_count + 1) as usize } else { c.fps },
        frame_count: if counted { 0 } else { (c.frame_count + 1) as usize },
        fps_timer: if counted { 0 } else { (c.fps_timer + 1) as usize },
        ..c
    }
}

/// The status message after a game tick: its time runs down, and it goes
/// once its time is up.
pub open spec fn stepped_status(s: Option<(Seq<char>, usize)>) -> Option<(Seq<char>, usize)> {
    match s {
        Some((m, t)) => if t > 0 { Some((m, (t - 1) as usize)) } else { None },
        None => None,
    }
}

/// The status message as characters.
pub open spec fn status_view(s: Option<(String, usize)>) -> Option<(Seq<char>, usize)> {
    match s {
        Some((m, t)) => Some((m@, t)),
        None => None,
    }
}

/// The DOOM window.
pub struct DoomApp {
    /// Whether a game is loaded.
    pub has_engine: bool,
    pub controls: DoomControls,
    /// A message and the game ticks it stays.
    pub status_msg: Option<(String, usize)>,
}

/// The name of map number `i` (0 to 8).
pub fn map_name_of(i: usize) -> (s: Vec<char>)
    requires
        i < 9,
    ensures
        s@ == map_name(i as int),
{
    let d = match i {
        0 => '1',
        1 => '2',
        2 => '3',
        3 => '4',
        4 => '5',
        5 => '6',
        6 => '7',
        7 => '8',
        _ => '9',
    };
    let s = vec!['E', '1', 'M', d];
    assert(s@ =~= map_name(i as int));
    s
}

/// The map a name picks (matched ignoring ASCII case; the first map for an
/// unknown name).
pub fn find_map(name: &[char]) -> (i: usize)
    ensures
        i == map_index(name@),
        i < 9,
{
    let n = to_lower(name);
    let mut i: usize = 0;
    while i < 9
        invariant
            i <= 9,
            n@ == lower(name@),
            map_index(name@) == map_index_from(name@, i as int),
        decreases 9 - i,
    {
        let m = map_name_of(i);
        let ml = to_lower(m.as_slice());
        if crate::chars::eq_chars(n.as_slice(), ml.as_slice()) {
            return i;
        }
        i = i + 1;
    }
    0
}

/// The input of one game tick: forward and sideways moves, turn, attack,
/// use and the weapon slot picked (0 for none).
pub type TickInput = (i8, i8, i16, bool, bool, u8);

impl DoomApp {
    /// The window's invariant.
    pub open spec fn wf(&self) -> bool {
        controls_ok(self.controls)
    }

    /// The state after the host tried to load map `idx` on `o`, with `ok`
    /// saying whether the engine started: that map is current; on success a
    /// game is loaded and "Loaded <map>" shows for 70 game ticks, otherwise
    /// the old game stays and "Failed to load <map>" shows for 100.
    pub open spec fn loaded_from(&self, o: DoomApp, idx: int, ok: bool) -> bool {
        &&& self.controls == (DoomControls { current_map_idx: idx as usize, ..o.controls })
        &&& if ok {
            &&& self.has_engine
            &&& status_view(self.status_msg) == Some(("Loaded "@ + map_name(idx), 70usize))
        } else {
            &&& self.has_engine == o.has_engine
            &&& status_view(self.status_msg) == Some(("Failed to load "@ + map_name(idx), 100usize))
        }
    }

    /// A window on map `idx`, at scale 2, running; `loaded` says whether the
    /// host could start that map.
    pub fn with_map(idx: usize, loaded: bool) -> (app: DoomApp)
        requires
            idx < 9,
        ensures
            app.wf(),
            app.has_engine == loaded,
            app.controls == (DoomControls {
                current_map_idx: idx, scale: 2, is_paused: false, show_help: false,
                tick_acc: 0, forward_impulse: 0, forward_val: 0, side_impulse: 0, side_val: 0, turn_impulse: 0,
                turn_val: 0, attack_impulse: 0, use_impulse: 0, weapon_select: 0, fps: 35, frame_count: 0, fps_timer: 0,
            }),
            app.status_msg is None,
    {
        DoomApp {
            has_engine: loaded,
            controls: DoomControls {
                current_map_idx: idx, scale: 2, is_paused: false, show_help: false,
                tick_acc: 0, forward_impulse: 0, forward_val: 0, side_impulse: 0, side_val: 0, turn_impulse: 0,
                turn_val: 0, attack_impulse: 0, use_impulse: 0, weapon_select: 0, fps: 35, frame_count: 0, fps_timer: 0,
            },
            status_msg: None,
        }
    }

    /// A window on the first map.
    pub fn new(loaded: bool) -> (app: DoomApp)
        ensures
            app.wf(),
            app.has_engine == loaded,
            app.controls.current_map_idx == 0,
            app.status_msg is None,
    {
        Self::with_map(0, loaded)
    }

    /// The window title.
    pub fn title(&self) -> (t: &'static str)
        ensures
            t@ == "DOOM (1993) - E1 Shareware"@,
    {
        "DOOM (1993) - E1 Shareware"
    }

    /// Records the host's attempt to load map `idx` (see `loaded_from`).
    pub fn finish_load(&mut self, idx: usize, ok: bool)
        requires
            old(self).wf(),
            idx < 9,
        ensures
            final(self).wf(),
            final(self).loaded_from(*old(self), idx as int, ok),
    {
        self.controls.current_map_idx = idx;
        let name = map_name_of(idx);
        if ok {
            self.has_engine = true;
            let mut m = chars_of("Loaded ");
            crate::chars::append_chars(&mut m, name.as_slice());
            self.status_msg = Some((string_from_chars(m.as_slice()), 70));
        } else {
            let mut m = chars_of("Failed to load ");
            crate::chars::append_chars(&mut m, name.as_slice());
            self.status_msg = Some((string_from_chars(m.as_slice()), 100));
        }
    }

    /// The map after the current one (after the ninth, the first).
    pub fn next_map(&self) -> (idx: usize)
        requires
            self.wf(),
        ensures
            idx == (self.controls.current_map_idx + 1) % 9,
    {
        (self.controls.current_map_idx + 1) % 9
    }

    /// The current map, to load again.
    pub fn restart_map(&self) -> (idx: usize)
        ensures
            idx == self.controls.current_map_idx,
    {
        self.controls.current_map_idx
    }

    /// One game tick, unless paused: returns the input for the game (see
    /// `tick_input`), and the controls and the status message move on.
    pub fn step(&mut self) -> (input: Option<TickInput>)
        requires
            old(self).wf(),
        ensures
            final(self).wf(),
            final(self).has_engine == old(self).has_engine,
            old(self).controls.is_paused ==> input is None && *final(self) == *old(self),
            !old(self).controls.is_paused ==> {
                &&& input == Some(tick_input(old(self).controls))
                &&& final(self).controls == stepped_controls(old(self).controls)
                &&& status_view(final(self).status_msg) == stepped_status(status_view(old(self).status_msg))
            },
    {
        if self.controls.is_paused {
            return None;
        }
        let c = self.controls;
        let forward: i8 = if c.forward_impulse > 0 { c.forward_val } else { 0 };
        let side: i8 = if c.side_impulse > 0 { c.side_val } else { 0 };
        let turn: i16 = if c.turn_impulse > 0 { c.turn_val } else { 0 };
        let counted = c.fps_timer + 1 >= 35;
        self.controls = DoomControls {
            forward_impulse: if c.forward_impulse > 0 { c.forward_impulse - 1 } else { 0 },
            side_impulse: if c.side_impulse > 0 { c.side_impulse - 1 } else { 0 },
            turn_impulse: if c.turn_impulse > 0 { c.turn_impulse - 1 } else { 0 },
            attack_impulse: if c.attack_impulse > 0 { c.attack_impulse - 1 } else { 0 },
            use_impulse: if c.use_impulse > 0 { c.use_impulse - 1 } else { 0 },
            weapon_select: 0,
            fps: if counted { c.frame_count + 1 } else { c.fps },
            frame_count: if counted { 0 } else { c.frame_count + 1 },
            fps_timer: if counted { 0 } else { c.fps_timer + 1 },
            ..c
        };
        let next = match self.status_msg.take() {
            Some((m, t)) => if t > 0 { Some((m, t - 1)) } else { None },
            None => None,
        };
        self.status_msg = next;
        Some((forward, side, turn, c.attack_impulse > 0, c.use_impulse > 0, c.weapon_select))
    }

    /// Reacts to a key: `m` asks for the next map, `r` for the current one
    /// again (the host loads it and calls `finish_load`); other keys act on
    /// the controls (see `key_controls`).
    pub fn on_key(&mut self, key: DecodedKey) -> (load: Option<usize>)
        requires
            old(self).wf(),
        ensures
            final(self).wf(),
            final(self).has_engine == old(self).has_engine,
            final(self).status_msg == old(self).status_msg,
            match key_loads_map(key) {
                Some(true) => load == Some(((old(self).controls.current_map_idx + 1) % 9) as usize)
                    && final(self).controls == old(self).controls,
                Some(false) => load == Some(old(self).controls.current_map_idx)
                    && final(self).controls == old(self).controls,
                None => load is None && final(self).controls == key_controls(old(self).controls, key),
            },
    {
        let c = self.controls;
        match key {
            DecodedKey::RawKey(code) => {
                match code {
                    KeyCode::ArrowUp => { self.controls = DoomControls { forward_val: 35, forward_impulse: 5, ..c }; },
                    KeyCode::ArrowDown => { self.controls = DoomControls { forward_val: -35, forward_impulse: 5, ..c }; },
                    KeyCode::ArrowLeft => { self.controls = DoomControls { turn_val: 900, turn_impulse: 5, ..c }; },
                    KeyCode::ArrowRight => { self.controls = DoomControls { turn_val: -900, turn_impulse: 5, ..c }; },
                    KeyCode::LControl | KeyCode::RControl => { self.controls = DoomControls { attack_impulse: 3, ..c }; },
                    _ => {},
                }
                None
            },
            DecodedKey::Unicode(ch) => {
                if ch == 'm' || ch == 'M' {
                    return Some(self.next_map());
                } else if ch == 'r' || ch == 'R' {
                    return Some(self.restart_map());
                }
                if ch == 'w' || ch == 'W' {
                    self.controls = DoomControls { forward_val: 35, forward_impulse: 5, ..c };
                } else if ch == 's' || ch == 'S' {
                    self.controls = DoomControls { forward_val: -35, forward_impulse: 5, ..c };
                } else if ch == 'a' || ch == 'A' {
                    self.controls = DoomControls { turn_val: 900, turn_impulse: 5, ..c };
                } else if ch == 'd' || ch == 'D' {
                    self.controls = DoomControls { turn_val: -900, turn_impulse: 5, ..c };
                } else if ch == 'q' || ch == 'Q' || ch == ',' || ch == '<' {
                    self.controls = DoomControls { side_val: -35, side_impulse: 5, ..c };
                } else if ch == 'e' || ch == 'E' || ch == '.' || ch == '>' {
                    self.controls = DoomControls { side_val: 35, side_impulse: 5, ..c };
                } else if ch == ' ' || ch == '\n' {
                    self.controls = DoomControls { use_impulse: 3, ..c };
                } else if ch == 'f' || ch == 'F' {
                    self.controls = DoomControls { attack_impulse: 3, ..c };
                } else if ch >= '1' && ch <= '7' {
                    self.controls = DoomControls { weapon_select: (ch as u32 - 48) as u8, ..c };
                } else if ch == 'p' || ch == 'P' {
                    self.controls = DoomControls { is_paused: !c.is_paused, ..c };
                } else if ch == 'h' || ch == 'H' {
                    self.controls = DoomControls { show_help: !c.show_help, ..c };
                } else if ch == 'z' || ch == 'Z' {
                    self.controls = DoomControls { scale: if c.scale == 2 { 1 } else { 2 }, ..c };
                }
                None
            },
        }
    }

    /// Reacts to a left click: the toolbar (heights 2 to 24) has next map (8
    /// to 82), zoom (88 to 153), restart (159 to 219), pause (225 to 280)
    /// and help (286 to 352); a click below the toolbar fires. A map to load
    /// is returned as by `on_key`.
    pub fn on_mouse_click(&mut self, local_x: isize, local_y: isize, left: bool) -> (load: Option<usize>)
        requires
            old(self).wf(),
        ensures
            final(self).wf(),
            final(self).has_engine == old(self).has_engine,
            final(self).status_msg == old(self).status_msg,
            load == if left && 2 <= local_y <= 24 && 8 <= local_x <= 82 {
                Some(((old(self).controls.current_map_idx + 1) % 9) as usize)
            } else if left && 2 <= local_y <= 24 && 159 <= local_x <= 219 {
                Some(old(self).controls.current_map_idx)
            } else {
                None
            },
            final(self).controls == if !left {
                old(self).controls
            } else if 2 <= local_y <= 24 && 88 <= local_x <= 153 {
                DoomControls { scale: if old(self).controls.scale == 2 { 1 } else { 2 }, ..old(self).controls }
            } else if 2 <= local_y <= 24 && 225 <= local_x <= 280 {
                DoomControls { is_paused: !old(self).controls.is_paused, ..old(self).controls }
            } else if 2 <= local_y <= 24 && 286 <= local_x <= 352 {
                DoomControls { show_help: !old(self).controls.show_help, ..old(self).controls }
            } else if 2 <= local_y <= 24 && ((8 <= local_x <= 82) || (159 <= local_x <= 219)) {
                old(self).controls
            } else if local_y > 24 {
                DoomControls { attack_impulse: 3, ..old(self).controls }
            } else {
                old(self).controls
            },
    {
        if !left {
            return None;
        }
        let c = self.controls;
        if local_y >= 2 && local_y <= 24 {
            if local_x >= 8 && local_x <= 82 {
                return Some(self.next_map());
            } else if local_x >= 88 && local_x <= 153 {
                self.controls = DoomControls { scale: if c.scale == 2 { 1 } else { 2 }, ..c };
                return None;
            } else if local_x >= 159 && local_x <= 219 {
                return Some(self.restart_map());
            } else if local_x >= 225 && local_x <= 280 {
                self.controls = DoomControls { is_paused: !c.is_paused, ..c };
                return None;
            } else if local_x >= 286 && local_x <= 352 {
                self.controls = DoomControls { show_help: !c.show_help, ..c };
                return None;
            }
        }
        if local_y > 24 {
            self.controls = DoomControls { attack_impulse: 3, ..c };
        }
        None
    }

    /// A timer tick (100 per second): unless paused, the game clock gains
    /// 35 and a game tick runs each time it reaches 100 (see `step`). Says
    /// whether to redraw, and gives the game tick's input.
    pub fn on_tick(&mut self) -> (r: (bool, Option<TickInput>))
        requires
            old(self).wf(),
        ensures
            final(self).wf(),
            final(self).has_engine == old(self).has_engine,
            old(self).controls.is_paused ==> r == (false, None::<TickInput>) && *final(self) == *old(self),
            !old(self).controls.is_paused ==> {
                let acc = old(self).controls.tick_acc + 35;
                &&& r.0 == (acc >= 100)
                &&& acc < 100 ==> r.1 is None && final(self).controls == (DoomControls { tick_acc: acc as usize, ..old(self).controls })
                    && final(self).status_msg == old(self).status_msg
                &&& acc >= 100 ==> {
                    let c = DoomControls { tick_acc: (acc - 100) as usize, ..old(self).controls };
                    &&& r.1 == Some(tick_input(c))
                    &&& final(self).controls == stepped_controls(c)
                    &&& status_view(final(self).status_msg) == stepped_status(status_view(old(self).status_msg))
                }
            },
    {
        if self.controls.is_paused {
            return (false, None);
        }
        self.controls.tick_acc = self.controls.tick_acc + 35;
        if self.controls.tick_acc >= 100 {
            self.controls.tick_acc = self.controls.tick_acc - 100;
            let input = self.step();
            (true, input)
        } else {
            (false, None)
        }
    }
}

/// The opaque color of game pixel `k` of `rgba` (four bytes a pixel: red,
/// green, blue, unused).
pub open spec fn game_color(rgba: Seq<u8>, k: int) -> u32 {
    0xFF00_0000u32 | ((rgba[4 * k] as u32) << 16u32) | ((rgba[4 * k + 1] as u32) << 8u32) | (rgba[4 * k + 2] as u32)
}

/// Game pixels `0..k` of row `dy` on a `w` by `h` screen, each a `scale`
/// square at `(vx + dx * scale, vy + dy * scale)` when it fits there whole.
pub open spec fn blit_row(w: int, h: int, rgba: Seq<u8>, vx: int, vy: int, scale: int, dy: int, k: int) -> Seq<ShapeV>
    decreases k,
{
    if k <= 0 {
        Seq::empty()
    } else {
        let dx = k - 1;
        let px1 = vx + dx * scale;
        blit_row(w, h, rgba, vx, vy, scale, dy, k - 1) + if px1 >= 0 && px1 + scale - 1 < w {
            seq![ShapeV::Block { x: px1, y: vy + dy * scale, size: scale, color: game_color(rgba, dy * 320 + dx) }]
        } else {
            Seq::empty()
        }
    }
}

/// Rows `0..k` of the game picture: a row is drawn only where it fits
/// whole between the top and bottom of the screen.
pub open spec fn blit_rows(w: int, h: int, rgba: Seq<u8>, vx: int, vy: int, scale: int, k: int) -> Seq<ShapeV>
    decreases k,
{
    if k <= 0 {
        Seq::empty()
    } else {
        let dy = k - 1;
        let py1 = vy + dy * scale;
        blit_rows(w, h, rgba, vx, vy, scale, k - 1) + if py1 >= 0 && py1 + scale - 1 < h {
            blit_row(w, h, rgba, vx, vy, scale, dy, 320)
        } else {
            Seq::empty()
        }
    }
}

/// Copies the 320 by 200 game picture `rgba` (four bytes a pixel) into the
/// back buffer at `(vx, vy)`, each game pixel `scale` by `scale` screen
/// pixels; rows or pixels that do not fit whole on the screen are left out:
/// exactly the blocks of `blit_rows(.., 200)`.
fn blit_game(fb: &mut Framebuffer, rgba: &[u8], vx: isize, vy: isize, scale: usize)
    requires
        old(fb).wf(),
        rgba@.len() == 256000,
        scale == 1 || scale == 2,
        crate::render::near(vx as int),
        crate::render::near(vy as int),
    ensures
        drawn_over(*old(fb), *final(fb)),
        final(fb).backbuffer@ == painted(*old(fb), old(fb).backbuffer@,
            blit_rows(old(fb).width as int, old(fb).height as int, rgba@, vx as int, vy as int, scale as int, 200)),
{
    let ghost fb0 = *fb;
    let w = fb.width;
    let h = fb.height;
    let mut dy: usize = 0;
    while dy < 200
        invariant
            fb.wf(),
            fb.same_frame(&fb0),
            fb.bga == fb0.bga,
            fb0 == *old(fb),
            w == fb.width,
            h == fb.height,
            rgba@.len() == 256000,
            scale == 1 || scale == 2,
            crate::render::near(vx as int),
            crate::render::near(vy as int),
            dy <= 200,
            fb.backbuffer@ == painted(fb0, fb0.backbuffer@, blit_rows(w as int, h as int, rgba@, vx as int, vy as int, scale as int, dy as int)),
        decreases 200 - dy,
    {
        let ghost before = blit_rows(w as int, h as int, rgba@, vx as int, vy as int, scale as int, dy as int);
        let sy: usize = if scale == 1 { dy } else { 2 * dy };
        assert(sy == dy * scale) by (nonlinear_arith)
            requires scale == 1 || scale == 2, sy == (if scale == 1 { dy as int } else { 2 * dy });
        let py1 = vy + sy as isize;
        let py2 = py1 + scale as isize - 1;
        if py1 >= 0 && py2 < h as isize {
            let mut dx: usize = 0;
            while dx < 320
                invariant
                    fb.wf(),
                    fb.same_frame(&fb0),
                    fb.bga == fb0.bga,
                    w == fb.width,
                    h == fb.height,
                    rgba@.len() == 256000,
                    scale == 1 || scale == 2,
                    crate::render::near(vx as int),
                    dy < 200,
                    0 <= py1 <= py2 < h,
                    py1 == vy + dy * scale,
                    py2 == py1 + scale - 1,
                    dx <= 320,
                    fb.backbuffer@ == painted(fb0, fb0.backbuffer@,
                        before + blit_row(w as int, h as int, rgba@, vx as int, vy as int, scale as int, dy as int, dx as int)),
                decreases 320 - dx,
            {
                let ghost row_before = before + blit_row(w as int, h as int, rgba@, vx as int, vy as int, scale as int, dy as int, dx as int);
                let sx: usize = if scale == 1 { dx } else { 2 * dx };
                assert(sx == dx * scale) by (nonlinear_arith)
                    requires scale == 1 || scale == 2, sx == (if scale == 1 { dx as int } else { 2 * dx });
                let px1 = vx + sx as isize;
                let px2 = px1 + scale as isize - 1;
                if px1 >= 0 && px2 < w as isize {
                    let off = (dy * 320 + dx) * 4;
                    let raw = 0xFF00_0000u32 | ((rgba[off] as u32) << 16u32) | ((rgba[off + 1] as u32) << 8u32) | (rgba[off + 2] as u32);
                    let ghost b = ShapeV::Block { x: px1 as int, y: py1 as int, size: scale as int, color: raw };
                    let ghost mid = *fb;
                    let saved = fb.clip;
                    fb.clip = None;
                    fb.fill_rect(px1, py1, scale, scale, Color::from_raw(raw));
                    fb.clip = saved;
                    proof {
                        assert(fb.backbuffer@ == shape_pixels(mid, mid.backbuffer@, b));
                        lemma_paint_step(fb0, mid, row_before, b);
                        assert(row_before.push(b) =~= before + blit_row(w as int, h as int, rgba@, vx as int, vy as int,
                            scale as int, dy as int, dx + 1));
                    }
                } else {
                    assert(row_before =~= before + blit_row(w as int, h as int, rgba@, vx as int, vy as int,
                        scale as int, dy as int, dx + 1));
                }
                dx = dx + 1;
            }
            assert(before + blit_row(w as int, h as int, rgba@, vx as int, vy as int, scale as int, dy as int, 320)
                =~= blit_rows(w as int, h as int, rgba@, vx as int, vy as int, scale as int, dy + 1));
        } else {
            assert(before =~= blit_rows(w as int, h as int, rgba@, vx as int, vy as int, scale as int, dy + 1));
        }
        dy = dy + 1;
    }
}

/// The keys of the help box's rows.
pub open spec fn help_key(i: int) -> Seq<char> {
    if i == 0 { "Move Forward"@ } else if i == 1 { "Move Backward"@ } else if i == 2 { "Turn Left / Right"@ }
    else if i == 3 { "Strafe Left / Right"@ } else if i == 4 { "Attack / Fire"@ } else if i == 5 { "Use / Open / Switch"@ }
    else if i == 6 { "Select Weapon (1-7)"@ } else if i == 7 { "Next Map (E1M1-E1M9)"@ } else if i == 8 { "Zoom (1x / 2x)"@ }
    else if i == 9 { "Pause / Resume"@ } else if i == 10 { "Restart Level"@ } else { "Toggle Help"@ }
}

/// What each row of the help box binds.
pub open spec fn help_binding(i: int) -> Seq<char> {
    if i == 0 { "W  or  Up Arrow"@ } else if i == 1 { "S  or  Down Arrow"@ } else if i == 2 { "A / D  or  Left / Right"@ }
    else if i == 3 { "Q / E  or  , / ."@ } else if i == 4 { "F  or  Ctrl  or  Left Click"@ } else if i == 5 { "Space  or  Enter"@ }
    else if i == 6 { "Number keys 1 to 7"@ } else if i == 7 { "M key"@ } else if i == 8 { "Z key"@ }
    else if i == 9 { "P key"@ } else if i == 10 { "R key"@ } else { "H key"@ }
}

/// Rows `0..k` of the help box at `(hx, hy)`, 17 pixels apart.
pub open spec fn help_rows(hx: int, hy: int, k: int) -> Seq<ShapeV>
    decreases k,
{
    if k <= 0 {
        Seq::empty()
    } else {
        let ly = hy + 30 + 17 * (k - 1);
        help_rows(hx, hy, k - 1) + seq![
            stext(hx + 14, ly, help_key(k - 1), pack_argb(255, 203, 213, 225)),
            stext(hx + 190, ly, help_binding(k - 1), pack_argb(255, 250, 204, 21))
        ]
    }
}

impl DoomApp {
    /// The toolbar of a window whose client area starts at `(cx, cy)`, `cw`
    /// wide: the map, zoom, restart, pause (amber while paused) and help
    /// buttons, the frame rate right-aligned, and the status message.
    pub open spec fn toolbar_scene(&self, cx: int, cy: int, cw: int) -> Seq<ShapeV> {
        let c = self.controls;
        let ty = cy + 2;
        let slate = pack_argb(255, 51, 65, 85);
        let stat = clip_to("35Hz | "@ + decimal_digits(c.fps as nat) + " FPS"@, 64);
        label_button_shapes(cx + 8, ty, 74, 22, "MAP: "@ + map_name(c.current_map_idx as int), pack_argb(255, 220, 38, 38))
            + label_button_shapes(cx + 88, ty, 65, 22, if c.scale == 2 { "SCALE 2x"@ } else { "SCALE 1x"@ }, slate)
            + label_button_shapes(cx + 159, ty, 60, 22, "RESTART"@, slate)
            + label_button_shapes(cx + 225, ty, 55, 22, if c.is_paused { "RESUME"@ } else { "PAUSE"@ },
                if c.is_paused { pack_argb(255, 234, 179, 8) } else { slate })
            + label_button_shapes(cx + 286, ty, 66, 22, "HELP (H)"@, slate)
            + seq![stext(cx + cw - 8 * stat.len() - 10, ty + 6, stat, pack_argb(255, 148, 163, 184))]
            + match self.status_msg {
                Some((msg, _)) => seq![stext(cx + 360, ty + 6, msg@, pack_argb(255, 34, 197, 94))],
                None => Seq::empty(),
            }
    }

    /// The pause box and the help box over a game picture at height `vp_y`,
    /// as they are switched on, centred in the client area.
    pub open spec fn overlays_scene(&self, cx: int, cw: int, vp_y: int) -> Seq<ShapeV> {
        let c = self.controls;
        let disp_h = 200 * c.scale;
        let px = cx + half(cw - 240);
        let py = vp_y + half(disp_h - 50);
        let hx = cx + half(cw - 380);
        let hy = vp_y + half(disp_h - 250);
        (if c.is_paused {
            seq![
                sfill(px, py, 240, 50, pack_argb(220, 15, 23, 42)),
                soutline(px, py, 240, 50, pack_argb(255, 234, 179, 8)),
                stext(px + 30, py + 12, "GAME PAUSED"@, pack_argb(255, 234, 179, 8)),
                stext(px + 20, py + 28, "Press P to Resume Game"@, pack_argb(255, 255, 255, 255))
            ]
        } else {
            Seq::empty()
        }) + if c.show_help {
            seq![
                sfill(hx, hy, 380, 250, pack_argb(235, 15, 23, 42)),
                soutline(hx, hy, 380, 250, pack_argb(255, 220, 38, 38)),
                ShapeV::GradientV { x: hx + 1, y: hy + 1, w: 378, h: 22, top: pack_argb(255, 185, 28, 28),
                    bottom: pack_argb(255, 127, 29, 29) },
                stext(hx + 10, hy + 5, "DOOM CONTROLS & INSTRUCTIONS"@, pack_argb(255, 255, 255, 255))
            ] + help_rows(hx, hy, 12)
        } else {
            Seq::empty()
        }
    }

    /// Where the game picture goes in the client area at `(cx, cy)`, `cw` by
    /// `ch`: centred below the toolbar, never left of or above it.
    pub open spec fn picture_at(&self, cx: int, cy: int, cw: int, ch: int) -> (int, int) {
        let avail = if ch >= 27 { ch - 27 } else { 0 };
        let off_x = half(cw - 320 * self.controls.scale);
        let off_y = half(avail - 200 * self.controls.scale);
        (cx + if off_x > 0 { off_x } else { 0 }, cy + 27 + if off_y > 0 { off_y } else { 0 })
    }

    /// What the window shows on a `w` by `h` screen in the client area at
    /// `(cx, cy)`, `cw` by `ch`, with the game picture `game`: the dark
    /// backdrop, the toolbar and its rule, the picture (or, without one, an
    /// error note), its border, and the overlays.
    pub open spec fn scene_spec(&self, w: int, h: int, cx: int, cy: int, cw: int, ch: int, game: Option<Seq<u8>>) -> Seq<ShapeV> {
        let c = self.controls;
        let at = self.picture_at(cx, cy, cw, ch);
        let err_x = cx + half(cw - 240);
        let err_y = cy + half(ch);
        seq![sfill(cx, cy, cw, ch, pack_argb(255, 18, 18, 24))]
            + self.toolbar_scene(cx, cy, cw)
            + seq![sfill(cx, cy + 26, cw, 1, pack_argb(255, 45, 55, 72))]
            + match game {
                Some(rgba) => blit_rows(w, h, rgba, at.0, at.1, c.scale as int, 200),
                None => seq![
                    stext(err_x, err_y, "ERROR: Failed to load DOOM WAD"@, pack_argb(255, 239, 68, 68)),
                    stext(err_x + 10, err_y + 18, "Check samples/doom/doom1.wad"@, pack_argb(255, 148, 163, 184))
                ],
            }
            + seq![soutline(at.0 - 1, at.1 - 1, 320 * c.scale + 2, 200 * c.scale + 2, pack_argb(255, 60, 60, 75))]
            + self.overlays_scene(cx, cw, at.1)
    }

    /// The toolbar: exactly `toolbar_scene`.
    fn render_toolbar(&self, fb: &mut Framebuffer, cx: isize, cy: isize, cw: usize)
        requires
            old(fb).wf(),
            self.wf(),
            inner(cx as int),
            inner(cy as int),
            cw <= 0x1_0000,
        ensures
            drawn_over(*old(fb), *final(fb)),
            final(fb).backbuffer@ == painted(*old(fb), old(fb).backbuffer@, self.toolbar_scene(cx as int, cy as int, cw as int)),
    {
        let ghost fb0 = *fb;
        let c = self.controls;
        let tb_y = cy + 2;
        let mut map_lbl = chars_of("MAP: ");
        crate::chars::append_chars(&mut map_lbl, map_name_of(c.current_map_idx).as_slice());
        let map_s = string_from_chars(map_lbl.as_slice());
        let slate = Color::from_rgb(51, 65, 85);
        let ghost mut drawn: Seq<ShapeV> = Seq::empty();
        let red = Color::from_rgb(220, 38, 38);
        let ghost mid = *fb;
        label_button(fb, cx + 8, tb_y, 74, 22, map_s.as_str(), red);
        proof {
            let more = label_button_shapes(cx + 8, tb_y as int, 74, 22, map_s@, red.raw);
            lemma_paint_seq(fb0, mid, drawn, more);
            assert(drawn + more =~= more);
            drawn = more;
        }
        let zoom_t = if c.scale == 2 { "SCALE 2x" } else { "SCALE 1x" };
        let ghost mid = *fb;
        label_button(fb, cx + 88, tb_y, 65, 22, zoom_t, slate);
        proof {
            let more = label_button_shapes(cx + 88, tb_y as int, 65, 22, zoom_t@, slate.raw);
            lemma_paint_seq(fb0, mid, drawn, more);
            drawn = drawn + more;
        }
        let ghost mid = *fb;
        label_button(fb, cx + 159, tb_y, 60, 22, "RESTART", slate);
        proof {
            let more = label_button_shapes(cx + 159, tb_y as int, 60, 22, "RESTART"@, slate.raw);
            lemma_paint_seq(fb0, mid, drawn, more);
            drawn = drawn + more;
        }
        let pause_t = if c.is_paused { "RESUME" } else { "PAUSE" };
        let pause_c = if c.is_paused { Color::from_rgb(234, 179, 8) } else { slate };
        let ghost mid = *fb;
        label_button(fb, cx + 225, tb_y, 55, 22, pause_t, pause_c);
        proof {
            let more = label_button_shapes(cx + 225, tb_y as int, 55, 22, pause_t@, pause_c.raw);
            lemma_paint_seq(fb0, mid, drawn, more);
            drawn = drawn + more;
        }
        let ghost mid = *fb;
        label_button(fb, cx + 286, tb_y, 66, 22, "HELP (H)", slate);
        proof {
            let more = label_button_shapes(cx + 286, tb_y as int, 66, 22, "HELP (H)"@, slate.raw);
            lemma_paint_seq(fb0, mid, drawn, more);
            drawn = drawn + more;
        }
        let mut stat = chars_of("35Hz | ");
        crate::chars::append_chars(&mut stat, format_u64(c.fps as u64).as_slice());
        crate::chars::append_str(&mut stat, " FPS");
        let stat = crate::render::clipped(stat.as_slice(), 64);
        let stat_x = cx + cw as isize - (stat.len() * 8) as isize - 10;
        let ghost st = stext(stat_x as int, tb_y + 6, stat@, pack_argb(255, 148, 163, 184));
        let ghost mid = *fb;
        label_any(fb, stat_x, tb_y + 6, stat.as_slice(), Color::from_rgb(148, 163, 184));
        proof {
            lemma_paint_step(fb0, mid, drawn, st);
            drawn = drawn.push(st);
        }
        match &self.status_msg {
            Some((msg, _)) => {
                let ghost m = stext(cx + 360, tb_y + 6, msg@, pack_argb(255, 34, 197, 94));
                let ghost mid = *fb;
                label(fb, cx + 360, tb_y + 6, msg.as_str(), Color::from_rgb(34, 197, 94));
                proof {
                    lemma_paint_step(fb0, mid, drawn, m);
                    drawn = drawn.push(m);
                }
            },
            None => {},
        }
        assert(drawn =~= self.toolbar_scene(cx as int, cy as int, cw as int));
    }

    /// The pause and help boxes over the game picture at height `vp_y`, as
    /// they are switched on: exactly `overlays_scene`.
    fn render_overlays(&self, fb: &mut Framebuffer, cx: isize, cw: usize, vp_y: isize)
        requires
            old(fb).wf(),
            self.wf(),
            inner(cx as int),
            -0x0480_0000 <= vp_y <= 0x0480_0000,
            cw <= 0x1_0000,
        ensures
            drawn_over(*old(fb), *final(fb)),
            final(fb).backbuffer@ == painted(*old(fb), old(fb).backbuffer@, self.overlays_scene(cx as int, cw as int, vp_y as int)),
    {
        let ghost fb0 = *fb;
        let c = self.controls;
        let disp_h: usize = 200 * c.scale;
        let ghost mut drawn: Seq<ShapeV> = Seq::empty();
        if c.is_paused {
            let px = cx + half_of(cw as isize - 240);
            let py = vp_y + half_of(disp_h as isize - 50);
            let ghost sh = seq![
                sfill(px as int, py as int, 240, 50, pack_argb(220, 15, 23, 42)),
                soutline(px as int, py as int, 240, 50, pack_argb(255, 234, 179, 8)),
                stext(px + 30, py + 12, "GAME PAUSED"@, pack_argb(255, 234, 179, 8)),
                stext(px + 20, py + 28, "Press P to Resume Game"@, pack_argb(255, 255, 255, 255))
            ];
            let ghost mid = *fb;
            rect(fb, px, py, 240, 50, Color::from_argb(220, 15, 23, 42));
            proof {
                lemma_paint_step(fb0, mid, sh.take(0), sh[0]);
                assert(sh.take(0).push(sh[0]) =~= sh.take(1));
            }
            let ghost mid = *fb;
            frame(fb, px, py, 240, 50, Color::from_rgb(234, 179, 8));
            proof {
                lemma_paint_step(fb0, mid, sh.take(1), sh[1]);
                assert(sh.take(1).push(sh[1]) =~= sh.take(2));
            }
            let ghost mid = *fb;
            label(fb, px + 30, py + 12, "GAME PAUSED", Color::from_rgb(234, 179, 8));
            proof {
                lemma_paint_step(fb0, mid, sh.take(2), sh[2]);
                assert(sh.take(2).push(sh[2]) =~= sh.take(3));
            }
            let ghost mid = *fb;
            label(fb, px + 20, py + 28, "Press P to Resume Game", Color::from_rgb(255, 255, 255));
            proof {
                lemma_paint_step(fb0, mid, sh.take(3), sh[3]);
                assert(sh.take(3).push(sh[3]) =~= sh);
                drawn = sh;
            }
        }
        if c.show_help {
            let ghost mid = *fb;
            self.render_help(fb, cx, cw, vp_y);
            proof {
                let hx = cx + half(cw - 380);
                let hy = vp_y + half(disp_h - 250);
                let more = seq![
                    sfill(hx, hy, 380, 250, pack_argb(235, 15, 23, 42)),
                    soutline(hx, hy, 380, 250, pack_argb(255, 220, 38, 38)),
                    ShapeV::GradientV { x: hx + 1, y: hy + 1, w: 378, h: 22, top: pack_argb(255, 185, 28, 28),
                        bottom: pack_argb(255, 127, 29, 29) },
                    stext(hx + 10, hy + 5, "DOOM CONTROLS & INSTRUCTIONS"@, pack_argb(255, 255, 255, 255))
                ] + help_rows(hx, hy, 12);
                lemma_paint_seq(fb0, mid, drawn, more);
                drawn = drawn + more;
            }
        }
        assert(drawn =~= self.overlays_scene(cx as int, cw as int, vp_y as int));
    }

    /// The help box.
    fn render_help(&self, fb: &mut Framebuffer, cx: isize, cw: usize, vp_y: isize)
        requires
            old(fb).wf(),
            self.wf(),
            inner(cx as int),
            -0x0480_0000 <= vp_y <= 0x0480_0000,
            cw <= 0x1_0000,
        ensures
            drawn_over(*old(fb), *final(fb)),
            ({
                let hx = cx + half(cw - 380);
                let hy = vp_y + half(200 * self.controls.scale - 250);
                final(fb).backbuffer@ == painted(*old(fb), old(fb).backbuffer@, seq![
                    sfill(hx, hy, 380, 250, pack_argb(235, 15, 23, 42)),
                    soutline(hx, hy, 380, 250, pack_argb(255, 220, 38, 38)),
                    ShapeV::GradientV { x: hx + 1, y: hy + 1, w: 378, h: 22, top: pack_argb(255, 185, 28, 28),
                        bottom: pack_argb(255, 127, 29, 29) },
                    stext(hx + 10, hy + 5, "DOOM CONTROLS & INSTRUCTIONS"@, pack_argb(255, 255, 255, 255))
                ] + help_rows(hx, hy, 12))
            }),
    {
        let ghost fb0 = *fb;
        let disp_h: usize = 200 * self.controls.scale;
        let hx = cx + half_of(cw as isize - 380);
        let hy = vp_y + half_of(disp_h as isize - 250);
        let top = Color::from_rgb(185, 28, 28);
        let bottom = Color::from_rgb(127, 29, 29);
        let ghost sh = seq![
            sfill(hx as int, hy as int, 380, 250, pack_argb(235, 15, 23, 42)),
            soutline(hx as int, hy as int, 380, 250, pack_argb(255, 220, 38, 38)),
            ShapeV::GradientV { x: hx + 1, y: hy + 1, w: 378, h: 22, top: top.raw, bottom: bottom.raw },
            stext(hx + 10, hy + 5, "DOOM CONTROLS & INSTRUCTIONS"@, pack_argb(255, 255, 255, 255))
        ];
        let ghost mid = *fb;
        rect(fb, hx, hy, 380, 250, Color::from_argb(235, 15, 23, 42));
        proof {
            lemma_paint_step(fb0, mid, sh.take(0), sh[0]);
            assert(sh.take(0).push(sh[0]) =~= sh.take(1));
        }
        let ghost mid = *fb;
        frame(fb, hx, hy, 380, 250, Color::from_rgb(220, 38, 38));
        proof {
            lemma_paint_step(fb0, mid, sh.take(1), sh[1]);
            assert(sh.take(1).push(sh[1]) =~= sh.take(2));
        }
        let ghost mid = *fb;
        gradient_v(fb, hx + 1, hy + 1, 378, 22, top, bottom);
        proof {
            lemma_paint_step(fb0, mid, sh.take(2), sh[2]);
            assert(sh.take(2).push(sh[2]) =~= sh.take(3));
        }
        let ghost mid = *fb;
        label(fb, hx + 10, hy + 5, "DOOM CONTROLS & INSTRUCTIONS", Color::from_rgb(255, 255, 255));
        proof {
            lemma_paint_step(fb0, mid, sh.take(3), sh[3]);
            assert(sh.take(3).push(sh[3]) =~= sh);
        }
        let mut i: usize = 0;
        while i < 12
            invariant
                fb.wf(),
                fb.same_frame(&fb0),
                fb.bga == fb0.bga,
                -0x0500_0000 <= hx <= 0x0500_0000,
                -0x0500_0000 <= hy <= 0x0500_0000,
                i <= 12,
                fb.backbuffer@ == painted(fb0, fb0.backbuffer@, sh + help_rows(hx as int, hy as int, i as int)),
            decreases 12 - i,
        {
            let ly = hy + 30 + (i * 17) as isize;
            let key = if i == 0 { "Move Forward" } else if i == 1 { "Move Backward" } else if i == 2 { "Turn Left / Right" }
                else if i == 3 { "Strafe Left / Right" } else if i == 4 { "Attack / Fire" } else if i == 5 { "Use / Open / Switch" }
                else if i == 6 { "Select Weapon (1-7)" } else if i == 7 { "Next Map (E1M1-E1M9)" } else if i == 8 { "Zoom (1x / 2x)" }
                else if i == 9 { "Pause / Resume" } else if i == 10 { "Restart Level" } else { "Toggle Help" };
            let binding = if i == 0 { "W  or  Up Arrow" } else if i == 1 { "S  or  Down Arrow" } else if i == 2 { "A / D  or  Left / Right" }
                else if i == 3 { "Q / E  or  , / ." } else if i == 4 { "F  or  Ctrl  or  Left Click" } else if i == 5 { "Space  or  Enter" }
                else if i == 6 { "Number keys 1 to 7" } else if i == 7 { "M key" } else if i == 8 { "Z key" }
                else if i == 9 { "P key" } else if i == 10 { "R key" } else { "H key" };
            let ghost before = sh + help_rows(hx as int, hy as int, i as int);
            let ghost t0 = stext(hx + 14, ly as int, help_key(i as int), pack_argb(255, 203, 213, 225));
            let ghost t1 = stext(hx + 190, ly as int, help_binding(i as int), pack_argb(255, 250, 204, 21));
            let ghost mid = *fb;
            label(fb, hx + 14, ly, key, Color::from_rgb(203, 213, 225));
            proof { lemma_paint_step(fb0, mid, before, t0); }
            let ghost mid = *fb;
            label(fb, hx + 190, ly, binding, Color::from_rgb(250, 204, 21));
            proof {
                lemma_paint_step(fb0, mid, before.push(t0), t1);
                assert(before.push(t0).push(t1) =~= sh + help_rows(hx as int, hy as int, i + 1));
            }
            i = i + 1;
        }
    }

    /// Draws the window into the client area at `(cx, cy)`, `cw` by `ch`:
    /// exactly the pixels of `scene_spec` (the toolbar, the game picture
    /// `game`, 320 by 200 at four bytes a pixel, or without one an error
    /// note, centred below the toolbar at the window's scale, its border,
    /// and the pause and help boxes when shown).
    pub fn render(&self, fb: &mut Framebuffer, cx: isize, cy: isize, cw: usize, ch: usize, game: Option<&[u8]>)
        requires
            old(fb).wf(),
            self.wf(),
            inner(cx as int),
            inner(cy as int),
            cw <= 0x1_0000,
            ch <= 0x1_0000,
            game matches Some(g) ==> g@.len() == 256000,
        ensures
            drawn_over(*old(fb), *final(fb)),
            final(fb).backbuffer@ == painted(*old(fb), old(fb).backbuffer@, self.scene_spec(old(fb).width as int,
                old(fb).height as int, cx as int, cy as int, cw as int, ch as int, match game {
                    Some(g) => Some(g@),
                    None => None,
                })),
    {
        let ghost fb0 = *fb;
        let c = self.controls;
        let ghost s0 = sfill(cx as int, cy as int, cw as int, ch as int, pack_argb(255, 18, 18, 24));
        let ghost mid = *fb;
        rect(fb, cx, cy, cw, ch, Color::from_rgb(18, 18, 24));
        proof {
            lemma_paint_step(fb0, mid, Seq::empty(), s0);
            assert(Seq::<ShapeV>::empty().push(s0) =~= seq![s0]);
        }
        let ghost mid = *fb;
        self.render_toolbar(fb, cx, cy, cw);
        proof { lemma_paint_seq(fb0, mid, seq![s0], self.toolbar_scene(cx as int, cy as int, cw as int)); }
        let ghost drawn = seq![s0] + self.toolbar_scene(cx as int, cy as int, cw as int);
        let ghost rule = sfill(cx as int, cy + 26, cw as int, 1, pack_argb(255, 45, 55, 72));
        let ghost mid = *fb;
        rect(fb, cx, cy + 26, cw, 1, Color::from_rgb(45, 55, 72));
        proof { lemma_paint_step(fb0, mid, drawn, rule); }
        let ghost drawn = drawn.push(rule);
        let vp_top = cy + 27;
        let vp_avail_h: usize = if ch >= 27 { ch - 27 } else { 0 };
        let disp_w: usize = 320 * c.scale;
        let disp_h: usize = 200 * c.scale;
        let off_x = half_of(cw as isize - disp_w as isize);
        let off_y = half_of(vp_avail_h as isize - disp_h as isize);
        let vp_x = cx + if off_x > 0 { off_x } else { 0 };
        let vp_y = vp_top + if off_y > 0 { off_y } else { 0 };
        let ghost mut pic: Seq<ShapeV> = Seq::empty();
        match game {
            Some(rgba) => {
                let ghost mid = *fb;
                blit_game(fb, rgba, vp_x, vp_y, c.scale);
                proof {
                    pic = blit_rows(fb0.width as int, fb0.height as int, rgba@, vp_x as int, vp_y as int, c.scale as int, 200);
                    lemma_paint_seq(fb0, mid, drawn, pic);
                }
            },
            None => {
                let err_x = cx + half_of(cw as isize - 240);
                let err_y = cy + half_of(ch as isize);
                let ghost e0 = stext(err_x as int, err_y as int, "ERROR: Failed to load DOOM WAD"@, pack_argb(255, 239, 68, 68));
                let ghost e1 = stext(err_x + 10, err_y + 18, "Check samples/doom/doom1.wad"@, pack_argb(255, 148, 163, 184));
                let ghost mid = *fb;
                label(fb, err_x, err_y, "ERROR: Failed to load DOOM WAD", Color::from_rgb(239, 68, 68));
                proof { lemma_paint_step(fb0, mid, drawn, e0); }
                let ghost mid = *fb;
                label(fb, err_x + 10, err_y + 18, "Check samples/doom/doom1.wad", Color::from_rgb(148, 163, 184));
                proof {
                    lemma_paint_step(fb0, mid, drawn.push(e0), e1);
                    pic = seq![e0, e1];
                    assert(drawn.push(e0).push(e1) =~= drawn + pic);
                }
            },
        }
        let ghost drawn = drawn + pic;
        let ghost border = soutline(vp_x - 1, vp_y - 1, disp_w + 2, disp_h + 2, pack_argb(255, 60, 60, 75));
        let ghost mid = *fb;
        frame(fb, vp_x - 1, vp_y - 1, disp_w + 2, disp_h + 2, Color::from_rgb(60, 60, 75));
        proof { lemma_paint_step(fb0, mid, drawn, border); }
        let ghost drawn = drawn.push(border);
        let ghost mid = *fb;
        self.render_overlays(fb, cx, cw, vp_y);
        proof {
            lemma_paint_seq(fb0, mid, drawn, self.overlays_scene(cx as int, cw as int, vp_y as int));
            assert(drawn + self.overlays_scene(cx as int, cw as int, vp_y as int) =~= self.scene_spec(fb0.width as int,
                fb0.height as int, cx as int, cy as int, cw as int, ch as int, match game {
                    Some(g) => Some(g@),
                    None => None,
                }));
        }
    }
}

/// A running game of `neurodoom` (`ClassicEngine`) with a map loaded.
/// Opaque: nothing of the game's state is claimed.
#[verifier::external_body]
pub struct Engine {
    e: neurodoom::ClassicEngine,
}

/// Whether `neurodoom::ClassicEngine::new` starts the map named `map` from
/// the game data `wad`.
pub uninterp spec fn engine_loads(wad: Seq<u8>, map: Seq<char>) -> bool;

/// Loads the map named `map` from the game data `wad` into a new engine
/// (`ClassicEngine::new`). Claimed: whether it succeeds is a function of
/// the data and the name alone (`engine_loads`); the engine is opaque.
#[verifier::external_body]
fn new_engine(wad: &[u8], map: &str) -> (e: Option<Engine>)
    ensures
        e is Some == engine_loads(wad@, map@),
{
    match neurodoom::ClassicEngine::new(wad, map) {
        Ok(e) => Some(Engine { e }),
        Err(_) => None,
    }
}

/// Runs one game tick of `engine` with the local player's input `input`
/// (`DoomEngine::tick_single` for player 0: the moves, the turn, the attack
/// and use buttons and the weapon slot). Nothing is claimed of the game.
#[verifier::external_body]
fn engine_tick(engine: &mut Engine, input: TickInput) {
    let (forward, side, turn, attack, use_, weapon) = input;
    let mut a = neurodoom::PlayerAction::default();
    a.forward_move = forward;
    a.side_move = side;
    a.angle_turn = turn;
    a.buttons.set(neurodoom::Button::Attack, attack);
    a.buttons.set(neurodoom::Button::Use, use_);
    a.weapon_select = weapon;
    engine.e.tick_single(neurodoom::PeerId(0), a);
}

/// The picture of the engine's last tick (`DoomEngine::framebuffer`).
/// Claimed: 320 by 200 pixels of four bytes, the size its renderer
/// allocates and keeps; the pixels themselves are not claimed.
#[verifier::external_body]
fn engine_picture(engine: &Engine) -> (p: &[u8])
    ensures
        p@.len() == 256000,
{
    engine.e.framebuffer()
}

/// The input the game bench holds for each of its ticks: forward at 25,
/// turning by 500.
pub open spec fn bench_input() -> TickInput {
    (25i8, 0i8, 500i16, false, false, 0u8)
}

impl Engine {
    /// The game of map `map` (as typed) from the game data `wad`, when
    /// `neurodoom` can start it.
    pub fn open(wad: &[u8], map: &[char]) -> (e: Option<Engine>)
        ensures
            e is Some == engine_loads(wad@, map@),
    {
        let name = string_from_chars(map);
        new_engine(wad, name.as_str())
    }

    /// Runs one game tick with `input`.
    pub fn tick(&mut self, input: TickInput) {
        engine_tick(self, input);
    }

    /// Runs the bench's 70 game ticks (two seconds of play), each with
    /// `bench_input()`.
    pub fn run_bench(&mut self) {
        let input: TickInput = (25, 0, 500, false, false, 0);
        assert(input == bench_input());
        let mut i: usize = 0;
        while i < 70
            invariant
                i <= 70,
            decreases 70 - i,
        {
            engine_tick(self, input);
            i = i + 1;
        }
    }

    /// The picture of the last tick: 320 by 200 pixels, four bytes each.
    pub fn picture(&self) -> (p: &[u8])
        ensures
            p@.len() == 256000,
    {
        engine_picture(self)
    }
}

/// Runs the game tick `input` gave, if any, on the engine, if there is one.
pub fn run_tick(engine: &mut Option<Engine>, input: Option<TickInput>)
    ensures
        (*final(engine)) is Some == (*old(engine)) is Some,
{
    match (engine, input) {
        (Some(e), Some(i)) => engine_tick(e, i),
        _ => {},
    }
}

impl DoomApp {
    /// Loads the map that `name` picks (ignoring case; the first map for an
    /// unknown name) from the game data `wad`: on success the new game
    /// replaces the one in `engine`; either way the window records the
    /// outcome (see `loaded_from`).
    pub fn load_map(&mut self, engine: &mut Option<Engine>, wad: &[u8], name: &[char])
        requires
            old(self).wf(),
        ensures
            final(self).wf(),
            final(self).loaded_from(*old(self), map_index(name@), engine_loads(wad@, map_name(map_index(name@)))),
            engine_loads(wad@, map_name(map_index(name@))) ==> (*final(engine)) is Some,
            !engine_loads(wad@, map_name(map_index(name@))) ==> *final(engine) == *old(engine),
    {
        let idx = find_map(name);
        let map = map_name_of(idx);
        match Engine::open(wad, map.as_slice()) {
            Some(e) => {
                *engine = Some(e);
                self.finish_load(idx, true);
            },
            None => {
                self.finish_load(idx, false);
            },
        }
    }

    /// The window on the first map with its game, loaded from `wad` (the
    /// game is missing when `neurodoom` cannot start that map).
    pub fn launch(wad: &[u8]) -> (r: (DoomApp, Option<Engine>))
        ensures
            r.0.wf(),
            r.0.has_engine == engine_loads(wad@, map_name(0)),
            r.1 is Some == engine_loads(wad@, map_name(0)),
            r.0.controls.current_map_idx == 0,
            r.0.status_msg is None,
    {
        let map = map_name_of(0);
        let engine = Engine::open(wad, map.as_slice());
        let loaded = engine.is_some();
        (Self::new(loaded), engine)
    }

    /// Advances the window by a timer tick (see `on_tick`) and runs the game
    /// tick it gives on `engine`; says whether to redraw.
    pub fn tick_game(&mut self, engine: &mut Option<Engine>) -> (redraw: bool)
        requires
            old(self).wf(),
        ensures
            final(self).wf(),
            final(self).has_engine == old(self).has_engine,
            (*final(engine)) is Some == (*old(engine)) is Some,
            old(self).controls.is_paused ==> !redraw && *final(self) == *old(self),
            !old(self).controls.is_paused ==> {
                let acc = old(self).controls.tick_acc + 35;
                &&& redraw == (acc >= 100)
                &&& acc < 100 ==> final(self).controls == (DoomControls { tick_acc: acc as usize, ..old(self).controls })
                    && final(self).status_msg == old(self).status_msg
                &&& acc >= 100 ==> {
                    let c = DoomControls { tick_acc: (acc - 100) as usize, ..old(self).controls };
                    &&& final(self).controls == stepped_controls(c)
                    &&& status_view(final(self).status_msg) == stepped_status(status_view(old(self).status_msg))
                }
            },
    {
        let (redraw, input) = self.on_tick();
        run_tick(engine, input);
        redraw
    }
}

} // verus!
