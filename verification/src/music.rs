//! The music player: the MP3 player's controls, and an 8-bit tune player
//! that steps through note tables on the PC speaker.
use vstd::prelude::*;
use crate::input::DecodedKey;
use crate::mp3::{decayed, decay_bars, Mp3Player, Mp3Track};
use crate::speaker::{divisor_for, set_muted, SpeakerCommand, SpeakerState};
use crate::chars::{append_chars, append_str, chars_of, format_padded, zero_pad};
use crate::color::{pack_argb, Color};
use crate::framebuffer::Framebuffer;
use crate::mp3::ChannelMode;
use crate::palette;
use crate::render::{clipped, drawn_over, inner, modest, near};
use crate::scene::{
    add_fill, add_label, add_shape, add_text, clip_to, half, half_of, paint, painted, scene_ok, sfill, shapes_view, stext,
    Shape, ShapeV,
};
use crate::text::{decimal_digits, format_u64};

verus! {

pub const REST: u32 = 0;
pub const NOTE_C4: u32 = 261;
pub const NOTE_D4: u32 = 293;
pub const NOTE_E4: u32 = 329;
pub const NOTE_F4: u32 = 349;
pub const NOTE_G4: u32 = 392;
pub const NOTE_GS4: u32 = 415;
pub const NOTE_A4: u32 = 440;
pub const NOTE_AS4: u32 = 466;
pub const NOTE_B4: u32 = 493;
pub const NOTE_C5: u32 = 523;
pub const NOTE_CS5: u32 = 554;
pub const NOTE_D5: u32 = 587;
pub const NOTE_DS5: u32 = 622;
pub const NOTE_E5: u32 = 659;
pub const NOTE_F5: u32 = 698;
pub const NOTE_G5: u32 = 784;
pub const NOTE_A5: u32 = 880;
pub const NOTE_B5: u32 = 987;

/// Timer ticks per note-length unit.
pub const TICKS_PER_UNIT: u16 = 5;

/// A tune: title, artist and its notes as (frequency in Hz, length in units).
pub struct Track {
    pub title: &'static str,
    pub artist: &'static str,
    pub notes: Vec<(u32, u16)>,
}

/// Which player is in front.
#[derive(Debug, Clone, Copy, PartialEq, Eq, Structural)]
pub enum PlayerMode {
    Mp3,
    Chiptune,
}

/// What the host must do on a timer tick.
#[derive(Debug, Clone, Copy, PartialEq, Eq, Structural)]
pub enum TickWork {
    /// Nothing more: redraw when `changed`; program the speaker with
    /// `speaker` if given.
    Done { changed: bool, speaker: Option<SpeakerCommand> },
    /// Run up to `frames` MP3 player steps (while the player plays and, with
    /// the codec, while the codec has room), then call `finish_tick`.
    Mp3Frames { frames: u32 },
}

/// The four bundled tunes.
pub fn chiptune_tracks() -> (ts: Vec<Track>)
    ensures
        ts@.len() == 4,
        forall|i: int| 0 <= i < 4 ==> #[trigger] ts@[i].notes@.len() > 0,
        forall|i: int, j: int| 0 <= i < 4 && 0 <= j < ts@[i].notes@.len() ==> #[trigger] ts@[i].notes@[j].1 <= 6,
{
    let tetris = vec![
        (NOTE_E5, 4u16), (NOTE_B4, 2), (NOTE_C5, 2), (NOTE_D5, 4), (NOTE_C5, 2), (NOTE_B4, 2),
        (NOTE_A4, 4), (NOTE_A4, 2), (NOTE_C5, 2), (NOTE_E5, 4), (NOTE_D5, 2), (NOTE_C5, 2),
        (NOTE_B4, 6), (NOTE_C5, 2), (NOTE_D5, 4), (NOTE_E5, 4),
        (NOTE_C5, 4), (NOTE_A4, 4), (NOTE_A4, 6), (REST, 2),
        (NOTE_D5, 4), (NOTE_F5, 2), (NOTE_A5, 4), (NOTE_G5, 2), (NOTE_F5, 2),
        (NOTE_E5, 6), (NOTE_C5, 2), (NOTE_E5, 4), (NOTE_D5, 2), (NOTE_C5, 2),
        (NOTE_B4, 4), (NOTE_B4, 2),
    ];
    let fur_elise = vec![
        (NOTE_E5, 2u16), (NOTE_DS5, 2), (NOTE_E5, 2), (NOTE_DS5, 2), (NOTE_E5, 2), (NOTE_B4, 2),
        (NOTE_D5, 2), (NOTE_C5, 2), (NOTE_A4, 4), (REST, 1),
        (NOTE_C4, 2), (NOTE_E4, 2), (NOTE_A4, 2), (NOTE_B4, 4), (REST, 1),
        (NOTE_E4, 2), (NOTE_GS4, 2), (NOTE_B4, 2), (NOTE_C5, 4), (REST, 1),
        (NOTE_E4, 2), (NOTE_E5, 2), (NOTE_DS5, 2), (NOTE_E5, 2), (NOTE_DS5, 2),
        (NOTE_E5, 2), (NOTE_B4, 2), (NOTE_D5, 2),
    ];
    let mario = vec![
        (NOTE_E5, 2u16), (REST, 1), (NOTE_E5, 2), (REST, 2), (NOTE_E5, 2), (REST, 2),
        (NOTE_C5, 2), (NOTE_E5, 4), (NOTE_G5, 6), (REST, 4), (NOTE_G4, 6), (REST, 4),
        (NOTE_C5, 4), (REST, 2), (NOTE_G4, 4), (REST, 2), (NOTE_E4, 4), (REST, 2),
        (NOTE_A4, 3), (NOTE_B4, 3), (NOTE_AS4, 2), (NOTE_A4, 3), (NOTE_G4, 3),
        (NOTE_E5, 3), (NOTE_G5, 3), (NOTE_A5, 4),
    ];
    let cyberpunk = vec![
        (NOTE_A4, 3u16), (NOTE_C5, 3), (NOTE_E5, 3), (NOTE_A5, 4),
        (NOTE_G5, 3), (NOTE_E5, 3), (NOTE_D5, 3), (NOTE_C5, 3),
        (NOTE_F4, 3), (NOTE_A4, 3), (NOTE_C5, 3), (NOTE_F5, 4),
        (NOTE_E5, 3), (NOTE_C5, 3), (NOTE_A4, 3), (NOTE_G4, 3),
        (NOTE_D4, 3), (NOTE_F4, 3), (NOTE_A4, 3), (NOTE_D5, 4),
        (NOTE_E5, 4), (NOTE_GS4, 3), (NOTE_B4, 3), (NOTE_E5, 6),
    ];
    vec![
        Track { title: "Korobeiniki (Tetris)", artist: "Russian Folk / Hirokazu Tanaka", notes: tetris },
        Track { title: "Fur Elise", artist: "Ludwig van Beethoven", notes: fur_elise },
        Track { title: "Super Mario Bros Theme", artist: "Koji Kondo", notes: mario },
        Track { title: "Mouros Synth Anthem", artist: "Atahan Bahadir", notes: cyberpunk },
    ]
}

/// A chiptune level bar one step lower, but at least 4.
pub open spec fn sunk(h: u8) -> u8 {
    if h > 5 { (h - 1) as u8 } else { 4 }
}

/// The level bars when a note of `freq` Hz starts at animation phase
/// `phase`: a base height from the frequency plus a moving wave, at most 44.
pub open spec fn note_bars(freq: u32, phase: u8) -> Seq<u8> {
    Seq::new(16, |i: int| {
        let h = (freq % 30) + 12 + ((i + phase) % 6) * 4;
        (if h < 44 { h } else { 44 }) as u8
    })
}

/// The music player's state.
pub struct MusicApp {
    pub mode: PlayerMode,
    pub mp3_player: Mp3Player,
    pub mp3_tick_acc: u32,
    pub chiptune_tracks: Vec<Track>,
    pub chiptune_track: usize,
    pub chiptune_is_playing: bool,
    pub note_idx: usize,
    pub note_ticks_remaining: u16,
    pub total_ticks_played: usize,
    pub chiptune_viz_heights: [u8; 16],
    pub anim_phase: u8,
}

impl MusicApp {
    /// The invariant: both players point at a track of theirs, every tune has
    /// notes of at most 6 units, and the timer accumulator and the
    /// animation phase stay in range.
    pub open spec fn wf(&self) -> bool {
        &&& self.mp3_player.wf()
        &&& self.chiptune_tracks@.len() > 0
        &&& self.chiptune_track < self.chiptune_tracks@.len()
        &&& forall|i: int| 0 <= i < self.chiptune_tracks@.len() ==> #[trigger] self.chiptune_tracks@[i].notes@.len() > 0
        &&& forall|i: int, j: int| 0 <= i < self.chiptune_tracks@.len() && 0 <= j < self.chiptune_tracks@[i].notes@.len()
            ==> #[trigger] self.chiptune_tracks@[i].notes@[j].1 <= 6
        &&& self.mp3_tick_acc < 261
        &&& self.anim_phase < 32
    }

    /// The player in MP3 mode, stopped, over the MP3 files `mp3_tracks` and
    /// the bundled tunes.
    pub fn new(mp3_tracks: Vec<Mp3Track>) -> (app: MusicApp)
        ensures
            app.wf(),
            app.mode == PlayerMode::Mp3,
            app.mp3_player.tracks@ == mp3_tracks@,
            !app.mp3_player.is_playing,
            app.mp3_player.current_track == 0,
            app.mp3_tick_acc == 0,
            app.chiptune_tracks@.len() == 4,
            app.chiptune_track == 0,
            !app.chiptune_is_playing,
            app.note_idx == 0,
            app.note_ticks_remaining == 0,
            app.total_ticks_played == 0,
            app.chiptune_viz_heights@ == Seq::new(16, |i: int| 6u8),
            app.anim_phase == 0,
    {
        let app = MusicApp {
            mode: PlayerMode::Mp3,
            mp3_player: Mp3Player::new(mp3_tracks),
            mp3_tick_acc: 0,
            chiptune_tracks: chiptune_tracks(),
            chiptune_track: 0,
            chiptune_is_playing: false,
            note_idx: 0,
            note_ticks_remaining: 0,
            total_ticks_played: 0,
            chiptune_viz_heights: [6u8; 16],
            anim_phase: 0,
        };
        assert(app.chiptune_viz_heights@ =~= Seq::new(16, |i: int| 6u8));
        app
    }

    /// Whether the player in front is playing.
    pub open spec fn playing(&self) -> bool {
        match self.mode {
            PlayerMode::Mp3 => self.mp3_player.is_playing,
            PlayerMode::Chiptune => self.chiptune_is_playing,
        }
    }

    /// Whether the player in front is playing.
    pub fn is_playing(&self) -> (b: bool)
        ensures
            b == self.playing(),
    {
        match self.mode {
            PlayerMode::Mp3 => self.mp3_player.is_playing,
            PlayerMode::Chiptune => self.chiptune_is_playing,
        }
    }

    /// Starts the player in front (in MP3 mode the host then starts the
    /// codec and fills its buffer).
    pub fn play(&mut self)
        ensures
            old(self).wf() ==> final(self).wf(),
            final(self).playing(),
            final(self).mode == old(self).mode,
            final(self).chiptune_tracks == old(self).chiptune_tracks,
            final(self).chiptune_track == old(self).chiptune_track,
            final(self).note_idx == old(self).note_idx,
            final(self).note_ticks_remaining == old(self).note_ticks_remaining,
            final(self).total_ticks_played == old(self).total_ticks_played,
            final(self).chiptune_viz_heights == old(self).chiptune_viz_heights,
            final(self).anim_phase == old(self).anim_phase,
            final(self).mp3_tick_acc == old(self).mp3_tick_acc,
            final(self).mp3_player.tracks == old(self).mp3_player.tracks,
            final(self).mp3_player.current_track == old(self).mp3_player.current_track,
            final(self).mp3_player.byte_offset == old(self).mp3_player.byte_offset,
            old(self).mode == PlayerMode::Chiptune ==> final(self).mp3_player == old(self).mp3_player,
            old(self).mode == PlayerMode::Mp3 ==> final(self).chiptune_is_playing == old(self).chiptune_is_playing,
    {
        match self.mode {
            PlayerMode::Mp3 => self.mp3_player.play(),
            PlayerMode::Chiptune => self.chiptune_is_playing = true,
        }
    }

    /// Pauses the player in front and silences the speaker.
    pub fn pause(&mut self, speaker: &mut SpeakerState) -> (cmd: SpeakerCommand)
        ensures
            old(self).wf() ==> final(self).wf(),
            !final(self).playing(),
            final(speaker).current_freq == 0,
            final(speaker).muted == old(speaker).muted,
            cmd == SpeakerCommand::Silence,
            final(self).mode == old(self).mode,
            final(self).chiptune_tracks == old(self).chiptune_tracks,
            final(self).chiptune_track == old(self).chiptune_track,
            final(self).note_idx == old(self).note_idx,
            final(self).note_ticks_remaining == old(self).note_ticks_remaining,
            final(self).anim_phase == old(self).anim_phase,
            final(self).mp3_player.tracks == old(self).mp3_player.tracks,
            final(self).mp3_player.current_track == old(self).mp3_player.current_track,
            final(self).mp3_player.byte_offset == old(self).mp3_player.byte_offset,
    {
        match self.mode {
            PlayerMode::Mp3 => self.mp3_player.pause(),
            PlayerMode::Chiptune => self.chiptune_is_playing = false,
        }
        speaker.mute()
    }

    /// Stops the player in front, rewinding it, and silences the speaker.
    pub fn stop(&mut self, speaker: &mut SpeakerState) -> (cmd: SpeakerCommand)
        ensures
            old(self).wf() ==> final(self).wf(),
            !final(self).playing(),
            final(speaker).current_freq == 0,
            final(speaker).muted == old(speaker).muted,
            cmd == SpeakerCommand::Silence,
            final(self).mode == old(self).mode,
            final(self).chiptune_tracks == old(self).chiptune_tracks,
            final(self).chiptune_track == old(self).chiptune_track,
            final(self).anim_phase == old(self).anim_phase,
            final(self).mp3_tick_acc == old(self).mp3_tick_acc,
            final(self).chiptune_viz_heights == old(self).chiptune_viz_heights,
            final(self).mp3_player.tracks == old(self).mp3_player.tracks,
            final(self).mp3_player.current_track == old(self).mp3_player.current_track,
            old(self).mode == PlayerMode::Chiptune ==> {
                &&& final(self).note_idx == 0
                &&& final(self).note_ticks_remaining == 0
                &&& final(self).total_ticks_played == 0
                &&& final(self).mp3_player == old(self).mp3_player
            },
            old(self).mode == PlayerMode::Mp3 ==> {
                &&& final(self).note_idx == old(self).note_idx
                &&& final(self).note_ticks_remaining == old(self).note_ticks_remaining
                &&& final(self).total_ticks_played == old(self).total_ticks_played
                &&& final(self).chiptune_is_playing == old(self).chiptune_is_playing
                &&& final(self).mp3_player.current_frame == 0
                &&& final(self).mp3_player.byte_offset == if old(self).mp3_player.current_track < old(self).mp3_player.tracks@.len() {
                    old(self).mp3_player.start_of(old(self).mp3_player.current_track as int)
                } else {
                    0
                }
            },
    {
        match self.mode {
            PlayerMode::Mp3 => self.mp3_player.stop(),
            PlayerMode::Chiptune => {
                self.chiptune_is_playing = false;
                self.note_idx = 0;
                self.note_ticks_remaining = 0;
                self.total_ticks_played = 0;
            },
        }
        speaker.mute()
    }

    /// The next track of the player in front; a tune restarts from its
    /// beginning and plays.
    pub fn next_track(&mut self, speaker: &mut SpeakerState)
        requires
            old(self).wf(),
            old(self).mode == PlayerMode::Mp3 ==> old(self).mp3_player.tracks@.len() > 0,
        ensures
            final(speaker).muted == old(speaker).muted,
            final(self).wf(),
            final(self).mode == old(self).mode,
            final(self).mp3_player.tracks == old(self).mp3_player.tracks,
            final(self).chiptune_tracks == old(self).chiptune_tracks,
            old(self).mode == PlayerMode::Mp3 ==> {
                &&& final(self).mp3_player.current_track
                    == (old(self).mp3_player.current_track + 1) % (old(self).mp3_player.tracks@.len() as int)
                &&& final(self).mp3_player.is_playing == old(self).mp3_player.is_playing
                &&& final(self).chiptune_track == old(self).chiptune_track
            },
            old(self).mode == PlayerMode::Chiptune ==> {
                &&& final(self).chiptune_track == (old(self).chiptune_track + 1) % (old(self).chiptune_tracks@.len() as int)
                &&& final(self).chiptune_is_playing
                &&& final(self).note_idx == 0
                &&& final(self).note_ticks_remaining == 0
                &&& final(self).total_ticks_played == 0
                &&& final(speaker).current_freq == 0
            },
    {
        match self.mode {
            PlayerMode::Mp3 => self.mp3_player.next_track(),
            PlayerMode::Chiptune => {
                let n = self.chiptune_tracks.len();
                self.chiptune_track = (self.chiptune_track + 1) % n;
                self.stop(speaker);
                self.play();
            },
        }
    }

    /// The previous track of the player in front; a tune restarts from its
    /// beginning and plays.
    pub fn prev_track(&mut self, speaker: &mut SpeakerState)
        requires
            old(self).wf(),
            old(self).mode == PlayerMode::Mp3 ==> old(self).mp3_player.tracks@.len() > 0,
        ensures
            final(speaker).muted == old(speaker).muted,
            final(self).wf(),
            final(self).mode == old(self).mode,
            final(self).mp3_player.tracks == old(self).mp3_player.tracks,
            final(self).chiptune_tracks == old(self).chiptune_tracks,
            old(self).mode == PlayerMode::Mp3 ==> {
                &&& final(self).mp3_player.current_track == if old(self).mp3_player.current_track == 0 {
                    (old(self).mp3_player.tracks@.len() - 1) as usize
                } else {
                    (old(self).mp3_player.current_track - 1) as usize
                }
                &&& final(self).mp3_player.is_playing == old(self).mp3_player.is_playing
                &&& final(self).chiptune_track == old(self).chiptune_track
            },
            old(self).mode == PlayerMode::Chiptune ==> {
                &&& final(self).chiptune_track == if old(self).chiptune_track == 0 {
                    (old(self).chiptune_tracks@.len() - 1) as usize
                } else {
                    (old(self).chiptune_track - 1) as usize
                }
                &&& final(self).chiptune_is_playing
                &&& final(self).note_idx == 0
                &&& final(self).note_ticks_remaining == 0
                &&& final(self).total_ticks_played == 0
                &&& final(speaker).current_freq == 0
            },
    {
        match self.mode {
            PlayerMode::Mp3 => self.mp3_player.prev_track(),
            PlayerMode::Chiptune => {
                if self.chiptune_track == 0 {
                    self.chiptune_track = self.chiptune_tracks.len() - 1;
                } else {
                    self.chiptune_track = self.chiptune_track - 1;
                }
                self.stop(speaker);
                self.play();
            },
        }
    }

    /// Switches between the MP3 and the tune player: the one in front stops
    /// and is rewound, and the other plays if the first was playing (and
    /// keeps its own state otherwise).
    pub fn toggle_mode(&mut self, speaker: &mut SpeakerState)
        requires
            old(self).wf(),
        ensures
            final(speaker).muted == old(speaker).muted,
            final(self).wf(),
            final(self).mode == if old(self).mode == PlayerMode::Mp3 { PlayerMode::Chiptune } else { PlayerMode::Mp3 },
            final(self).playing() == (old(self).playing() || if old(self).mode == PlayerMode::Mp3 {
                old(self).chiptune_is_playing
            } else {
                old(self).mp3_player.is_playing
            }),
            final(self).chiptune_track == old(self).chiptune_track,
            final(self).mp3_player.current_track == old(self).mp3_player.current_track,
            final(self).mp3_player.tracks == old(self).mp3_player.tracks,
            final(self).chiptune_tracks == old(self).chiptune_tracks,
            old(self).mode == PlayerMode::Mp3 ==> {
                &&& !final(self).mp3_player.is_playing
                &&& final(self).mp3_player.current_frame == 0
                &&& final(self).mp3_player.byte_offset == if old(self).mp3_player.current_track < old(self).mp3_player.tracks@.len() {
                    old(self).mp3_player.start_of(old(self).mp3_player.current_track as int)
                } else {
                    0
                }
                &&& final(self).chiptune_is_playing == (old(self).mp3_player.is_playing || old(self).chiptune_is_playing)
                &&& final(self).note_idx == old(self).note_idx
                &&& final(self).note_ticks_remaining == old(self).note_ticks_remaining
                &&& final(self).total_ticks_played == old(self).total_ticks_played
            },
            old(self).mode == PlayerMode::Chiptune ==> {
                &&& !final(self).chiptune_is_playing
                &&& final(self).note_idx == 0
                &&& final(self).note_ticks_remaining == 0
                &&& final(self).total_ticks_played == 0
                &&& final(self).mp3_player.is_playing == (old(self).chiptune_is_playing || old(self).mp3_player.is_playing)
                &&& final(self).mp3_player.byte_offset == old(self).mp3_player.byte_offset
            },
    {
        let was_playing = self.is_playing();
        self.stop(speaker);
        self.mode = match self.mode {
            PlayerMode::Mp3 => PlayerMode::Chiptune,
            PlayerMode::Chiptune => PlayerMode::Mp3,
        };
        if was_playing {
            self.play();
        }
    }

    /// The window title.
    pub fn title(&self) -> (t: &'static str)
        ensures
            t@ == if self.mode == PlayerMode::Mp3 { "Mouros MP3 & Hi-Fi Player"@ } else { "Mouros 8-Bit Chiptune Player"@ },
    {
        match self.mode {
            PlayerMode::Mp3 => "Mouros MP3 & Hi-Fi Player",
            PlayerMode::Chiptune => "Mouros 8-Bit Chiptune Player",
        }
    }
}

/// The player's buttons (and the keys standing for them).
#[derive(Debug, Clone, Copy, PartialEq, Eq, Structural)]
pub enum MusicButton {
    PlayPause,
    Stop,
    Prev,
    Next,
    Mute,
    Mode,
}

/// The button a key stands for: Space play/pause, S stop, N next,
/// P previous, M mute, Tab or T mode.
pub open spec fn key_button(key: DecodedKey) -> Option<MusicButton> {
    match key {
        DecodedKey::Unicode(c) => {
            if c == ' ' { Some(MusicButton::PlayPause) }
            else if c == 's' || c == 'S' { Some(MusicButton::Stop) }
            else if c == 'n' || c == 'N' { Some(MusicButton::Next) }
            else if c == 'p' || c == 'P' { Some(MusicButton::Prev) }
            else if c == 'm' || c == 'M' { Some(MusicButton::Mute) }
            else if c == '\t' || c == 't' || c == 'T' { Some(MusicButton::Mode) }
            else { None }
        },
        DecodedKey::RawKey(_) => None,
    }
}

/// The button under the client-area point `x`, `y` (the row of buttons
/// spans heights 138 to 162).
pub open spec fn button_at(x: int, y: int) -> Option<MusicButton> {
    if 138 <= y <= 162 {
        if 14 <= x <= 58 { Some(MusicButton::PlayPause) }
        else if 62 <= x <= 104 { Some(MusicButton::Stop) }
        else if 108 <= x <= 150 { Some(MusicButton::Prev) }
        else if 154 <= x <= 196 { Some(MusicButton::Next) }
        else if 200 <= x <= 254 { Some(MusicButton::Mute) }
        else if 256 <= x <= 348 { Some(MusicButton::Mode) }
        else { None }
    } else {
        None
    }
}

/// The playlist row under client-area height `y` (rows 18 high from 180
/// down to 255), if the click is not on a button.
pub open spec fn row_at(x: int, y: int) -> Option<int> {
    if button_at(x, y) is None && 180 <= y <= 255 { Some((y - 180) / 18) } else { None }
}

/// What pressing `b` did to the player (`o` before, `n` after) and to the
/// speaker's mute switch.
pub open spec fn pressed(b: MusicButton, o: MusicApp, n: MusicApp, os: SpeakerState, ns: SpeakerState) -> bool {
    match b {
        MusicButton::PlayPause => n.mode == o.mode && n.playing() == !o.playing() && ns.muted == os.muted,
        MusicButton::Stop => n.mode == o.mode && !n.playing() && ns.current_freq == 0 && ns.muted == os.muted,
        MusicButton::Next => n.mode == o.mode && ns.muted == os.muted && (o.mode == PlayerMode::Mp3 ==>
            n.mp3_player.current_track == (o.mp3_player.current_track + 1) % (o.mp3_player.tracks@.len() as int))
            && (o.mode == PlayerMode::Chiptune ==> n.chiptune_track == (o.chiptune_track + 1) % (o.chiptune_tracks@.len() as int)
            && n.chiptune_is_playing),
        MusicButton::Prev => n.mode == o.mode && ns.muted == os.muted && (o.mode == PlayerMode::Mp3 ==>
            n.mp3_player.current_track == (if o.mp3_player.current_track == 0 { (o.mp3_player.tracks@.len() - 1) as usize } else { (o.mp3_player.current_track - 1) as usize }))
            && (o.mode == PlayerMode::Chiptune ==> n.chiptune_track == (if o.chiptune_track == 0 { (o.chiptune_tracks@.len() - 1) as usize } else { (o.chiptune_track - 1) as usize })
            && n.chiptune_is_playing),
        MusicButton::Mute => *&n == *&o && ns.muted == !os.muted && ns.current_freq == (if os.muted { os.current_freq } else { 0 }),
        MusicButton::Mode => n.mode != o.mode && ns.muted == os.muted
            && n.chiptune_track == o.chiptune_track && n.mp3_player.current_track == o.mp3_player.current_track,
    }
}

impl MusicApp {
    /// Presses button `b`.
    pub fn press(&mut self, b: MusicButton, speaker: &mut SpeakerState)
        requires
            old(self).wf(),
            old(self).mp3_player.tracks@.len() > 0,
        ensures
            final(self).wf(),
            final(self).mp3_player.tracks == old(self).mp3_player.tracks,
            final(self).chiptune_tracks == old(self).chiptune_tracks,
            pressed(b, *old(self), *final(self), *old(speaker), *final(speaker)),
    {
        match b {
            MusicButton::PlayPause => {
                if self.is_playing() {
                    self.pause(speaker);
                } else {
                    self.play();
                }
            },
            MusicButton::Stop => {
                self.stop(speaker);
            },
            MusicButton::Prev => { self.prev_track(speaker); },
            MusicButton::Next => { self.next_track(speaker); },
            MusicButton::Mute => {
                let m = speaker.muted;
                set_muted(speaker, !m);
            },
            MusicButton::Mode => { self.toggle_mode(speaker); },
        }
    }

    /// Reacts to a key: presses the button it stands for, if any, and says
    /// which.
    pub fn on_key(&mut self, key: DecodedKey, speaker: &mut SpeakerState) -> (b: Option<MusicButton>)
        requires
            old(self).wf(),
            old(self).mp3_player.tracks@.len() > 0,
        ensures
            final(self).wf(),
            b == key_button(key),
            match b {
                Some(btn) => pressed(btn, *old(self), *final(self), *old(speaker), *final(speaker)),
                None => *final(self) == *old(self) && *final(speaker) == *old(speaker),
            },
    {
        let b: Option<MusicButton> = match key {
            DecodedKey::Unicode(c) => {
                if c == ' ' { Some(MusicButton::PlayPause) }
                else if c == 's' || c == 'S' { Some(MusicButton::Stop) }
                else if c == 'n' || c == 'N' { Some(MusicButton::Next) }
                else if c == 'p' || c == 'P' { Some(MusicButton::Prev) }
                else if c == 'm' || c == 'M' { Some(MusicButton::Mute) }
                else if c == '\t' || c == 't' || c == 'T' { Some(MusicButton::Mode) }
                else { None }
            },
            DecodedKey::RawKey(_) => None,
        };
        if let Some(btn) = b {
            self.press(btn, speaker);
        }
        b
    }

    /// Reacts to a left click at `x`, `y` in the client area: a button is
    /// pressed; a click on a playlist row selects that track and plays it
    /// (a tune from its start).
    pub fn on_mouse_click(&mut self, x: isize, y: isize, left: bool, speaker: &mut SpeakerState) -> (b: Option<MusicButton>)
        requires
            old(self).wf(),
            old(self).mp3_player.tracks@.len() > 0,
        ensures
            final(self).wf(),
            b == if left { button_at(x as int, y as int) } else { None },
            match b {
                Some(btn) => pressed(btn, *old(self), *final(self), *old(speaker), *final(speaker)),
                None => match (left, row_at(x as int, y as int)) {
                    (true, Some(r)) => match old(self).mode {
                        PlayerMode::Mp3 => if r < old(self).mp3_player.tracks@.len() {
                            &&& final(self).mp3_player.current_track == r
                            &&& final(self).mp3_player.is_playing
                            &&& final(self).mp3_player.byte_offset == old(self).mp3_player.start_of(r)
                            &&& final(self).mode == old(self).mode
                        } else {
                            *final(self) == *old(self)
                        },
                        PlayerMode::Chiptune => if r < old(self).chiptune_tracks@.len() {
                            &&& final(self).chiptune_track == r
                            &&& final(self).chiptune_is_playing
                            &&& final(self).note_idx == 0
                            &&& final(self).mode == old(self).mode
                        } else {
                            *final(self) == *old(self)
                        },
                    },
                    _ => *final(self) == *old(self) && *final(speaker) == *old(speaker),
                },
            },
    {
        if !left {
            return None;
        }
        let b: Option<MusicButton> = if y >= 138 && y <= 162 {
            if x >= 14 && x <= 58 { Some(MusicButton::PlayPause) }
            else if x >= 62 && x <= 104 { Some(MusicButton::Stop) }
            else if x >= 108 && x <= 150 { Some(MusicButton::Prev) }
            else if x >= 154 && x <= 196 { Some(MusicButton::Next) }
            else if x >= 200 && x <= 254 { Some(MusicButton::Mute) }
            else if x >= 256 && x <= 348 { Some(MusicButton::Mode) }
            else { None }
        } else {
            None
        };
        if let Some(btn) = b {
            self.press(btn, speaker);
            return b;
        }
        if y >= 180 && y <= 255 {
            let idx = ((y - 180) / 18) as usize;
            match self.mode {
                PlayerMode::Mp3 => {
                    if idx < self.mp3_player.tracks.len() {
                        self.mp3_player.set_track(idx);
                        self.mp3_player.play();
                    }
                },
                PlayerMode::Chiptune => {
                    if idx < self.chiptune_tracks.len() {
                        self.chiptune_track = idx;
                        self.stop(speaker);
                        self.play();
                    }
                },
            }
        }
        None
    }

    /// A tune tick: a stopped tune lowers its bars; otherwise, when the
    /// current note is over, the next note starts (from the first after the
    /// last), lasting 5 ticks per unit, sounding on the speaker and setting
    /// the bars; during a note its countdown runs and every other bar sinks.
    fn chiptune_tick(&mut self, speaker: &mut SpeakerState) -> (r: (bool, Option<SpeakerCommand>))
        requires
            old(self).wf(),
            old(self).mode == PlayerMode::Chiptune,
            old(self).total_ticks_played < usize::MAX,
        ensures
            final(self).wf(),
            final(self).mode == old(self).mode,
            final(self).chiptune_tracks == old(self).chiptune_tracks,
            final(self).chiptune_track == old(self).chiptune_track,
            final(self).chiptune_is_playing == old(self).chiptune_is_playing,
            final(self).mp3_player == old(self).mp3_player,
            final(self).mp3_tick_acc == old(self).mp3_tick_acc,
            final(self).anim_phase == old(self).anim_phase,
            final(speaker).muted == old(speaker).muted,
            !old(self).chiptune_is_playing ==> {
                &&& r.0 == exists|i: int| 0 <= i < 16 && #[trigger] old(self).chiptune_viz_heights@[i] > 2
                &&& r.1 is None
                &&& forall|i: int| 0 <= i < 16 ==> #[trigger] final(self).chiptune_viz_heights@[i] == decayed(old(self).chiptune_viz_heights@[i])
                &&& final(self).note_idx == old(self).note_idx
                &&& final(self).note_ticks_remaining == old(self).note_ticks_remaining
                &&& *final(speaker) == *old(speaker)
            },
            old(self).chiptune_is_playing && old(self).note_ticks_remaining == 0 ==> {
                let notes = old(self).chiptune_tracks@[old(self).chiptune_track as int].notes@;
                let idx = if old(self).note_idx >= notes.len() { 0 } else { old(self).note_idx as int };
                let (freq, units) = notes[idx];
                &&& r.0
                &&& final(self).note_idx == idx + 1
                &&& final(self).note_ticks_remaining == units * 5
                &&& final(self).total_ticks_played == if old(self).note_idx >= notes.len() { 0 } else { old(self).total_ticks_played }
                &&& final(self).chiptune_viz_heights@ == note_bars(freq, old(self).anim_phase)
                &&& r.1 == Some(if freq == 0 || old(speaker).muted { SpeakerCommand::Silence } else { SpeakerCommand::Tone { divisor: divisor_for(freq) } })
                &&& final(speaker).current_freq == if freq == 0 || old(speaker).muted { 0 } else { freq }
            },
            old(self).chiptune_is_playing && old(self).note_ticks_remaining > 0 ==> {
                &&& r.0
                &&& r.1 is None
                &&& final(self).note_idx == old(self).note_idx
                &&& final(self).note_ticks_remaining == old(self).note_ticks_remaining - 1
                &&& final(self).total_ticks_played == old(self).total_ticks_played + 1
                &&& forall|i: int| 0 <= i < 16 ==> #[trigger] final(self).chiptune_viz_heights@[i] == if i % 2 == old(self).anim_phase % 2 {
                    sunk(old(self).chiptune_viz_heights@[i])
                } else {
                    old(self).chiptune_viz_heights@[i]
                }
                &&& *final(speaker) == *old(speaker)
            },
    {
        if !self.chiptune_is_playing {
            let changed = decay_bars(&mut self.chiptune_viz_heights);
            return (changed, None);
        }
        let ct = self.chiptune_track;
        let len = self.chiptune_tracks[ct].notes.len();
        if self.note_ticks_remaining == 0 {
            if self.note_idx >= len {
                self.note_idx = 0;
                self.total_ticks_played = 0;
            }
            let (freq, dur) = self.chiptune_tracks[ct].notes[self.note_idx];
            assert(dur <= 6);
            self.note_ticks_remaining = dur * 5;
            let cmd = speaker.play_tone(freq);
            self.note_idx = self.note_idx + 1;
            let base_h: u8 = ((freq % 30) + 12) as u8;
            let phase = self.anim_phase;
            let mut bars = self.chiptune_viz_heights;
            let mut i: usize = 0;
            while i < 16
                invariant
                    i <= 16,
                    phase < 32,
                    base_h == (freq % 30) + 12,
                    bars@.len() == 16,
                    forall|j: int| 0 <= j < i ==> #[trigger] bars@[j] == note_bars(freq, phase)[j],
                decreases 16 - i,
            {
                let wave: u8 = ((i as u8 + phase) % 6) * 4;
                let h = base_h + wave;
                bars[i] = if h < 44 { h } else { 44 };
                i = i + 1;
            }
            self.chiptune_viz_heights = bars;
            assert(self.chiptune_viz_heights@ =~= note_bars(freq, phase));
            (true, Some(cmd))
        } else {
            self.note_ticks_remaining = self.note_ticks_remaining - 1;
            self.total_ticks_played = self.total_ticks_played + 1;
            let parity = (self.anim_phase % 2) as usize;
            let ghost before = self.chiptune_viz_heights@;
            let mut bars = self.chiptune_viz_heights;
            let mut i: usize = 0;
            while i < 16
                invariant
                    i <= 16,
                    parity < 2,
                    before.len() == 16,
                    bars@.len() == 16,
                    forall|j: int| 0 <= j < i ==> #[trigger] bars@[j] == if j % 2 == parity {
                        sunk(before[j])
                    } else {
                        before[j]
                    },
                    forall|j: int| i <= j < 16 ==> #[trigger] bars@[j] == before[j],
                decreases 16 - i,
            {
                if i % 2 == parity {
                    let h = bars[i];
                    let lowered = if h > 0 { h - 1 } else { 0 };
                    bars[i] = if lowered > 4 { lowered } else { 4 };
                }
                i = i + 1;
            }
            self.chiptune_viz_heights = bars;
            (true, None)
        }
    }

    /// A timer tick: the animation phase moves on; the tune player does its
    /// tick; the MP3 player asks for up to 8 frames when the codec plays, and
    /// otherwise for the frames due at one frame per 2.61 ticks.
    pub fn on_tick(&mut self, speaker: &mut SpeakerState, codec: bool) -> (work: TickWork)
        requires
            old(self).wf(),
            old(self).total_ticks_played < usize::MAX,
        ensures
            final(self).wf(),
            final(self).anim_phase == (old(self).anim_phase + 1) % 32,
            final(self).mode == old(self).mode,
            final(self).mp3_player == old(self).mp3_player,
            old(self).mode == PlayerMode::Mp3 ==> {
                &&& *final(speaker) == *old(speaker)
                &&& if codec {
                    work == (TickWork::Mp3Frames { frames: 8 }) && final(self).mp3_tick_acc == old(self).mp3_tick_acc
                } else {
                    let acc = old(self).mp3_tick_acc + 100;
                    &&& work == (TickWork::Mp3Frames { frames: if acc >= 261 { 1 } else { 0 } })
                    &&& final(self).mp3_tick_acc == if acc >= 261 { acc - 261 } else { acc }
                }
            },
            old(self).mode == PlayerMode::Chiptune ==> work is Done,
    {
        self.anim_phase = (self.anim_phase + 1) % 32;
        match self.mode {
            PlayerMode::Mp3 => {
                if codec {
                    TickWork::Mp3Frames { frames: 8 }
                } else {
                    self.mp3_tick_acc = self.mp3_tick_acc + 100;
                    let mut frames: u32 = 0;
                    if self.mp3_tick_acc >= 261 {
                        self.mp3_tick_acc = self.mp3_tick_acc - 261;
                        frames = 1;
                    }
                    TickWork::Mp3Frames { frames }
                }
            },
            PlayerMode::Chiptune => {
                let (changed, cmd) = self.chiptune_tick(speaker);
                TickWork::Done { changed, speaker: cmd }
            },
        }
    }

    /// Ends an MP3 tick after `frames_done` player steps, `stepped_changed`
    /// saying whether any of them asked for a redraw: with the codec a redraw
    /// is due every third phase when frames were decoded; a stopped player
    /// lowers its bars.
    pub fn finish_tick(&mut self, codec: bool, frames_done: u32, stepped_changed: bool) -> (changed: bool)
        requires
            old(self).wf(),
        ensures
            final(self).wf(),
            final(self).mode == old(self).mode,
            final(self).mp3_player.tracks == old(self).mp3_player.tracks,
            final(self).mp3_player.current_track == old(self).mp3_player.current_track,
            final(self).mp3_player.is_playing == old(self).mp3_player.is_playing,
            final(self).mp3_player.byte_offset == old(self).mp3_player.byte_offset,
            final(self).anim_phase == old(self).anim_phase,
            old(self).mp3_player.is_playing ==> final(self).mp3_player.viz_heights == old(self).mp3_player.viz_heights,
            !old(self).mp3_player.is_playing ==> forall|i: int| 0 <= i < 16
                ==> #[trigger] final(self).mp3_player.viz_heights@[i] == decayed(old(self).mp3_player.viz_heights@[i]),
            changed == ((if codec { frames_done > 0 && old(self).anim_phase % 3 == 0 } else { stepped_changed })
                || (!old(self).mp3_player.is_playing && exists|i: int| 0 <= i < 16 && #[trigger] old(self).mp3_player.viz_heights@[i] > 2)),
    {
        let mut changed = if codec { frames_done > 0 && self.anim_phase % 3 == 0 } else { stepped_changed };
        if !self.mp3_player.is_playing {
            let moved = decay_bars(&mut self.mp3_player.viz_heights);
            changed = changed || moved;
        }
        changed
    }
}

/// A 3D push button at `(x, y)`, `w` by `h`, with its label `t` (at most
/// 4096 characters of it) centred in black (a Windows 98 button).
pub open spec fn retro_btn(x: int, y: int, w: int, h: int, t: Seq<char>) -> Seq<ShapeV> {
    let l = clip_to(t, 0x1000);
    seq![
        ShapeV::Button { x, y, w, h, pressed: false },
        stext(x + half(w - 8 * l.len()), y + half(h - 8), l, palette::BLACK)
    ]
}

/// Adds `retro_btn(x, y, w, h, text@)`.
fn add_retro_button(s: &mut Vec<Shape>, x: isize, y: isize, w: usize, h: usize, text: &str)
    requires
        near(x as int),
        near(y as int),
        modest(w as int),
        modest(h as int),
    ensures
        shapes_view(final(s)@) == shapes_view(old(s)@) + retro_btn(x as int, y as int, w as int, h as int, text@),
        scene_ok(shapes_view(old(s)@)) ==> scene_ok(shapes_view(final(s)@)),
{
    let ghost before = shapes_view(s@);
    add_shape(s, Shape::Button { x, y, w, h, pressed: false });
    let t = chars_of(text);
    let t = clipped(t.as_slice(), 0x1000);
    let lx = x + half_of(w as isize - (t.len() * 8) as isize);
    let ly = y + half_of(h as isize - 8);
    add_text(s, lx, ly, t, palette::BLACK);
    assert(shapes_view(s@) =~= before + retro_btn(x as int, y as int, w as int, h as int, text@));
}

/// The filled part of a `width`-wide progress bar at `done` of `total`:
/// in proportion, and full when past the end.
pub open spec fn filled_width(width: int, done: int, total: int) -> int {
    if done <= total { (width * done) / total } else { width }
}

/// The filled part of a `width`-wide progress bar at `done` of `total`, as
/// `filled_width` says.
fn progress_width(width: usize, done: usize, total: usize) -> (w: usize)
    requires
        total > 0,
        width <= 0x1_0000,
    ensures
        w <= width,
        w == filled_width(width as int, done as int, total as int),
{
    if done <= total {
        assert(width as int * done as int <= u128::MAX) by (nonlinear_arith)
            requires width <= 0x1_0000, done <= usize::MAX, usize::MAX <= u64::MAX;
        let p = width as u128 * done as u128;
        let q = p / total as u128;
        assert(q <= width) by (nonlinear_arith)
            requires p == width as int * done as int, q == p as int / total as int, done <= total, total > 0;
        q as usize
    } else {
        width
    }
}

/// `mm:ss` of `s` seconds (the minutes at least two digits).
pub open spec fn clock_text(s: u32) -> Seq<char> {
    zero_pad(decimal_digits((s / 60) as nat), 2) + ":"@ + zero_pad(decimal_digits((s % 60) as nat), 2)
}

/// Appends `clock_text(s)`.
fn append_clock(l: &mut Vec<char>, s: u32)
    ensures
        final(l)@ == old(l)@ + clock_text(s),
{
    let m = format_padded((s / 60) as u64, 2);
    append_chars(l, m.as_slice());
    append_str(l, ":");
    let sec = format_padded((s % 60) as u64, 2);
    append_chars(l, sec.as_slice());
}

/// The color of level bar `i`: green, then yellow, then red.
pub open spec fn bar_color(i: int) -> u32 {
    if i < 5 {
        pack_argb(255, 34, 197, 94)
    } else if i < 11 {
        pack_argb(255, 234, 179, 8)
    } else {
        pack_argb(255, 239, 68, 68)
    }
}

/// The playing position of an MP3 track in seconds: 1152 samples a frame,
/// kept to 32 bits, and 0 when the rate is unknown.
pub open spec fn position_seconds(frame: int, rate: u32) -> u32 {
    if rate > 0 {
        let v = frame * 1152 / (rate as int);
        if v <= u32::MAX { v as u32 } else { u32::MAX }
    } else {
        0
    }
}

impl MusicApp {
    /// The title on the display: the MP3 track's title tag (else its file
    /// name), or the tune's title.
    pub open spec fn now_title(&self) -> Seq<char> {
        match self.mode {
            PlayerMode::Mp3 => {
                let t = self.mp3_player.tracks@[self.mp3_player.current_track as int];
                match t.metadata.title {
                    Some(s) => s@,
                    None => t.filename@,
                }
            },
            PlayerMode::Chiptune => self.chiptune_tracks@[self.chiptune_track as int].title@,
        }
    }

    /// The line under the title: the MP3 track's artist (else `Unknown
    /// Artist`) and ` - ` and the album when there is one, or the tune's
    /// artist.
    pub open spec fn now_artist(&self) -> Seq<char> {
        match self.mode {
            PlayerMode::Mp3 => {
                let t = self.mp3_player.tracks@[self.mp3_player.current_track as int];
                (match t.metadata.artist {
                    Some(a) => a@,
                    None => "Unknown Artist"@,
                }) + match t.metadata.album {
                    Some(al) => " - "@ + al@,
                    None => Seq::empty(),
                }
            },
            PlayerMode::Chiptune => self.chiptune_tracks@[self.chiptune_track as int].artist@,
        }
    }

    /// The display at the top: the face, the black sunken card, the title
    /// and artist cut to what fits (at least 8 characters), and the state
    /// (muted, playing or paused).
    pub open spec fn display_scene(&self, bx: int, by: int, bw: int, bh: int, sp: SpeakerState) -> Seq<ShapeV> {
        let card_w = bw - 16;
        let room = if card_w >= 110 { (card_w - 110) / 8 } else { 0 };
        let mc = if room > 8 { room } else { 8 };
        let green = pack_argb(255, 52, 211, 153);
        let state = if sp.muted {
            stext(bx + 8 + card_w - 76, by + 9, "[MUTED]"@, pack_argb(255, 239, 68, 68))
        } else if self.playing() {
            stext(bx + 8 + card_w - 76, by + 9, "[PLAYING]"@, green)
        } else {
            stext(bx + 8 + card_w - 76, by + 9, "[PAUSED]"@, pack_argb(255, 251, 191, 36))
        };
        seq![
            sfill(bx, by, bw, bh, palette::RETRO_FACE),
            sfill(bx + 8, by + 6, card_w, 38, palette::BLACK),
            ShapeV::Sunken { x: bx + 8, y: by + 6, w: card_w, h: 38 },
            stext(bx + 16, by + 9, clip_to(self.now_title(), mc), green),
            stext(bx + 16, by + 25, clip_to(self.now_artist(), mc), pack_argb(255, 148, 163, 184)),
            state
        ]
    }

    /// The stream line: for an MP3 track its rate, bitrate and channels and,
    /// when known, the dominant pitch right-aligned; for the tunes the
    /// synthesizer's name and the speaker's current tone.
    pub open spec fn info_scene(&self, bx: int, by: int, bw: int, sp: SpeakerState) -> Seq<ShapeV> {
        match self.mode {
            PlayerMode::Mp3 => {
                let t = self.mp3_player.tracks@[self.mp3_player.current_track as int];
                let info = decimal_digits((t.info.sample_rate / 1000) as nat) + "k/"@
                    + decimal_digits(t.info.bitrate_kbps as nat) + "k "@
                    + match t.info.channels {
                        ChannelMode::Stereo => "Stereo"@,
                        ChannelMode::Mono => "Mono"@,
                    };
                let f = self.mp3_player.dominant_freq;
                let pitch = clip_to("Pitch: "@ + decimal_digits(f as nat) + " Hz"@, 64);
                seq![stext(bx + 12, by + 52, info, pack_argb(255, 45, 212, 191))] + if f > 0 {
                    seq![stext(bx + bw - 10 - 8 * pitch.len(), by + 52, pitch, pack_argb(255, 251, 191, 36))]
                } else {
                    Seq::empty()
                }
            },
            PlayerMode::Chiptune => {
                let f = sp.current_freq;
                let pitch = clip_to(decimal_digits(f as nat) + " Hz"@, 64);
                seq![stext(bx + 10, by + 52, "[8-BIT] PIT Ch2 Synthesizer"@, palette::BLACK)] + if f > 0 {
                    seq![stext(bx + bw - 10 - 8 * pitch.len(), by + 52, pitch, pack_argb(255, 180, 0, 0))]
                } else {
                    Seq::empty()
                }
            },
        }
    }

    /// The level of bar `i` of the player in front.
    pub open spec fn level(&self, i: int) -> u8 {
        match self.mode {
            PlayerMode::Mp3 => self.mp3_player.viz_heights@[i],
            PlayerMode::Chiptune => self.chiptune_viz_heights@[i],
        }
    }

    /// The width of a level bar in a client area `bw` wide: a sixteenth of
    /// the room, at least 4.
    pub open spec fn bar_width(bw: int) -> int {
        let viz_w = bw - 16;
        let usable = if viz_w >= 38 { viz_w - 38 } else { 0 };
        if usable / 16 > 4 { usable / 16 } else { 4 }
    }

    /// Where the first level bar starts: the sixteen bars, two pixels apart,
    /// centred in the meter, at least four pixels in.
    pub open spec fn bars_start(bx: int, bw: int) -> int {
        let centred = half((bw - 16) - (16 * Self::bar_width(bw) + 30));
        bx + 8 + if centred > 4 { centred } else { 4 }
    }

    /// Level bars `0..k`: each its level (between 2 and 30) high, standing
    /// on the meter's floor, colored by `bar_color`, with a white top line.
    pub open spec fn bars_upto(&self, bx: int, by: int, bw: int, k: int) -> Seq<ShapeV>
        decreases k,
    {
        if k <= 0 {
            Seq::empty()
        } else {
            let i = k - 1;
            let raw = self.level(i) as int;
            let capped = if raw < 30 { raw } else { 30 };
            let h = if capped > 2 { capped } else { 2 };
            let x = Self::bars_start(bx, bw) + i * (Self::bar_width(bw) + 2);
            let top = by + 62 + (38 - h - 4);
            self.bars_upto(bx, by, bw, k - 1) + seq![
                sfill(x, top, Self::bar_width(bw), h, bar_color(i)),
                sfill(x, top, Self::bar_width(bw), 1, palette::WHITE)
            ]
        }
    }

    /// The level meter: its black sunken well and the sixteen bars.
    pub open spec fn viz_scene(&self, bx: int, by: int, bw: int) -> Seq<ShapeV> {
        seq![
            sfill(bx + 8, by + 62, bw - 16, 38, palette::BLACK),
            ShapeV::Sunken { x: bx + 8, y: by + 62, w: bw - 16, h: 38 }
        ] + self.bars_upto(bx, by, bw, 16)
    }

    /// How far the player in front is, as the filled width of a `width`-wide
    /// bar and as text: for an MP3 track the frame over the frame count and
    /// `mm:ss/mm:ss`; for a tune the note over the note count and
    /// `Note n/total`.
    pub open spec fn position(&self, width: int) -> (int, Seq<char>) {
        match self.mode {
            PlayerMode::Mp3 => {
                let t = self.mp3_player.tracks@[self.mp3_player.current_track as int];
                let total = if t.info.total_frames > 1 { t.info.total_frames as int } else { 1 };
                let frame = self.mp3_player.current_frame as int;
                (filled_width(width, frame, total),
                    clock_text(position_seconds(frame, t.info.sample_rate)) + "/"@ + clock_text(t.info.duration_seconds))
            },
            PlayerMode::Chiptune => {
                let t = self.chiptune_tracks@[self.chiptune_track as int];
                let total = if t.notes@.len() > 1 { t.notes@.len() as int } else { 1 };
                let n = self.note_idx as int;
                (filled_width(width, n, total),
                    "Note "@ + decimal_digits(n as nat) + "/"@ + decimal_digits(total as nat))
            },
        }
    }

    /// The progress bar (white, in a sunken panel, the done part in navy)
    /// and the time under it.
    pub open spec fn progress_scene(&self, bx: int, by: int, bw: int) -> Seq<ShapeV> {
        let pos = self.position(bw - 16);
        seq![
            sfill(bx + 8, by + 106, bw - 16, 6, palette::WHITE),
            ShapeV::Panel { x: bx + 8, y: by + 106, w: bw - 16, h: 6 }
        ] + (if pos.0 > 0 { seq![sfill(bx + 8, by + 106, pos.0, 6, palette::RETRO_SELECTION)] } else { Seq::empty() })
            + seq![stext(bx + bw - 90, by + 114, pos.1, palette::BLACK)]
    }

    /// The six buttons: play or pause, stop, previous, next, mute or unmute,
    /// and the mode switch.
    pub open spec fn buttons_scene(&self, bx: int, by: int, sp: SpeakerState) -> Seq<ShapeV> {
        retro_btn(bx + 10, by + 128, 44, 22, if self.playing() { "Pause"@ } else { "Play"@ })
            + retro_btn(bx + 58, by + 128, 42, 22, "Stop"@)
            + retro_btn(bx + 104, by + 128, 42, 22, "Prev"@)
            + retro_btn(bx + 150, by + 128, 42, 22, "Next"@)
            + retro_btn(bx + 196, by + 128, 52, 22, if sp.muted { "Unmute"@ } else { "Mute"@ })
            + retro_btn(bx + 252, by + 128, 90, 22, match self.mode {
                PlayerMode::Mp3 => "Mode: MP3"@,
                PlayerMode::Chiptune => "Mode: 8-Bit"@,
            })
    }

    /// The number of tracks in the playlist of the player in front.
    pub open spec fn track_count(&self) -> int {
        match self.mode {
            PlayerMode::Mp3 => self.mp3_player.tracks@.len() as int,
            PlayerMode::Chiptune => self.chiptune_tracks@.len() as int,
        }
    }

    /// Playlist entry `k`: its number and title (for an MP3 track also its
    /// length), cut to `max_row` characters, white on a navy bar when it is
    /// the current one.
    pub open spec fn entry_shapes(&self, bx: int, by: int, box_w: int, max_row: int, k: int) -> Seq<ShapeV> {
        let row_y = by + 172 + 2 + 18 * k;
        let (is_cur, text) = match self.mode {
            PlayerMode::Mp3 => {
                let t = self.mp3_player.tracks@[k];
                (k == self.mp3_player.current_track,
                    decimal_digits((k + 1) as nat) + ". "@ + (match t.metadata.title {
                        Some(s) => s@,
                        None => t.filename@,
                    }) + " ("@ + clock_text(t.info.duration_seconds) + ")"@)
            },
            PlayerMode::Chiptune => (k == self.chiptune_track,
                decimal_digits((k + 1) as nat) + ". "@ + self.chiptune_tracks@[k].title@),
        };
        (if is_cur && box_w >= 4 { seq![sfill(bx + 10, row_y, box_w - 4, 16, palette::RETRO_SELECTION)] } else { Seq::empty() })
            + seq![stext(bx + 14, row_y + 1, clip_to(text, max_row), if is_cur { palette::WHITE } else { palette::BLACK })]
    }

    /// Playlist entries `0..k`.
    pub open spec fn entries_upto(&self, bx: int, by: int, box_w: int, max_row: int, k: int) -> Seq<ShapeV>
        decreases k,
    {
        if k <= 0 {
            Seq::empty()
        } else {
            self.entries_upto(bx, by, box_w, max_row, k - 1) + self.entry_shapes(bx, by, box_w, max_row, k - 1)
        }
    }

    /// How many playlist entries are shown in a box `box_h` high: those
    /// whose 18-pixel row fits, at most 4097.
    pub open spec fn shown_entries(&self, box_h: int) -> int {
        let fit = box_h / 18;
        let n = if self.track_count() < 0x1001 { self.track_count() } else { 0x1001 };
        if n < fit { n } else { fit }
    }

    /// The playlist: its heading, the white sunken box and the entries that
    /// fit.
    pub open spec fn playlist_scene(&self, bx: int, by: int, bw: int, bh: int) -> Seq<ShapeV> {
        let box_w = bw - 16;
        let box_h = if bh >= 178 { bh - 178 } else { 0 };
        let max_row = if box_w >= 16 && (box_w - 16) / 8 > 1 { (box_w - 16) / 8 } else { 1 };
        seq![
            stext(bx + 10, by + 156, "Playlist:"@, palette::BLACK),
            sfill(bx + 8, by + 172, box_w, box_h, palette::WHITE),
            ShapeV::Sunken { x: bx + 8, y: by + 172, w: box_w, h: box_h }
        ] + self.entries_upto(bx, by, box_w, max_row, self.shown_entries(box_h))
    }

    /// What the player shows in the client area at `(bx, by)`, `bw` by
    /// `bh`, with the speaker in state `sp`.
    pub open spec fn scene_spec(&self, bx: int, by: int, bw: int, bh: int, sp: SpeakerState) -> Seq<ShapeV> {
        self.display_scene(bx, by, bw, bh, sp) + self.info_scene(bx, by, bw, sp) + self.viz_scene(bx, by, bw)
            + self.progress_scene(bx, by, bw) + self.buttons_scene(bx, by, sp) + self.playlist_scene(bx, by, bw, bh)
    }
}


/// What the builders of a player's scene require of it and of the area.
pub open spec fn drawable(app: &MusicApp, bx: int, by: int, bw: int, bh: int) -> bool {
    &&& app.wf()
    &&& (app.mode == PlayerMode::Mp3 ==> app.mp3_player.tracks@.len() > 0)
    &&& inner(bx)
    &&& inner(by)
    &&& 16 <= bw <= 0x1_0000
    &&& bh <= 0x1_0000
}

impl MusicApp {
    /// Adds `display_scene`.
    fn add_display(&self, s: &mut Vec<Shape>, bx: isize, by: isize, bw: usize, bh: usize, speaker: &SpeakerState)
        requires
            drawable(self, bx as int, by as int, bw as int, bh as int),
            scene_ok(shapes_view(old(s)@)),
        ensures
            shapes_view(final(s)@) == shapes_view(old(s)@) + self.display_scene(bx as int, by as int, bw as int, bh as int, *speaker),
            scene_ok(shapes_view(final(s)@)),
    {
        let ghost before = shapes_view(s@);
        add_fill(s, bx, by, bw, bh, palette::RETRO_FACE);
        let card_x = bx + 8;
        let card_y = by + 6;
        let card_w = bw - 16;
        add_fill(s, card_x, card_y, card_w, 38, palette::BLACK);
        add_shape(s, Shape::Sunken { x: card_x, y: card_y, w: card_w, h: 38 });
        let (title, artist) = match self.mode {
            PlayerMode::Mp3 => {
                let t = &self.mp3_player.tracks[self.mp3_player.current_track];
                let title = chars_of(t.display_title());
                let mut sub = chars_of(t.display_artist());
                match &t.metadata.album {
                    Some(alb) => {
                        append_str(&mut sub, " - ");
                        append_str(&mut sub, alb.as_str());
                    },
                    None => {
                        assert(sub@ =~= sub@ + Seq::<char>::empty());
                    },
                }
                (title, sub)
            },
            PlayerMode::Chiptune => {
                let t = &self.chiptune_tracks[self.chiptune_track];
                (chars_of(t.title), chars_of(t.artist))
            },
        };
        assert(title@ == self.now_title() && artist@ =~= self.now_artist());
        let room = if card_w >= 110 { (card_w - 110) / 8 } else { 0 };
        let max_chars = if room > 8 { room } else { 8 };
        let green = Color::from_rgb(52, 211, 153).raw;
        add_text(s, card_x + 8, card_y + 3, clipped(title.as_slice(), max_chars), green);
        add_text(s, card_x + 8, card_y + 19, clipped(artist.as_slice(), max_chars), Color::from_rgb(148, 163, 184).raw);
        let sx = card_x + card_w as isize - 76;
        if speaker.muted {
            add_label(s, sx, card_y + 3, "[MUTED]", Color::from_rgb(239, 68, 68).raw);
        } else if self.is_playing() {
            add_label(s, sx, card_y + 3, "[PLAYING]", green);
        } else {
            add_label(s, sx, card_y + 3, "[PAUSED]", Color::from_rgb(251, 191, 36).raw);
        }
        assert(shapes_view(s@) =~= before + self.display_scene(bx as int, by as int, bw as int, bh as int, *speaker));
    }

    /// Adds `info_scene`.
    fn add_info(&self, s: &mut Vec<Shape>, bx: isize, by: isize, bw: usize, bh: usize, speaker: &SpeakerState)
        requires
            drawable(self, bx as int, by as int, bw as int, bh as int),
            scene_ok(shapes_view(old(s)@)),
        ensures
            shapes_view(final(s)@) == shapes_view(old(s)@) + self.info_scene(bx as int, by as int, bw as int, *speaker),
            scene_ok(shapes_view(final(s)@)),
    {
        let ghost before = shapes_view(s@);
        let info_y = by + 52;
        match self.mode {
            PlayerMode::Mp3 => {
                let t = &self.mp3_player.tracks[self.mp3_player.current_track];
                let mut info = format_u64((t.info.sample_rate / 1000) as u64);
                append_str(&mut info, "k/");
                let br = format_u64(t.info.bitrate_kbps as u64);
                append_chars(&mut info, br.as_slice());
                append_str(&mut info, "k ");
                match t.info.channels {
                    ChannelMode::Stereo => append_str(&mut info, "Stereo"),
                    ChannelMode::Mono => append_str(&mut info, "Mono"),
                }
                add_text(s, bx + 12, info_y, info, Color::from_rgb(45, 212, 191).raw);
                if self.mp3_player.dominant_freq > 0 {
                    let mut pitch = chars_of("Pitch: ");
                    let f = format_u64(self.mp3_player.dominant_freq as u64);
                    append_chars(&mut pitch, f.as_slice());
                    append_str(&mut pitch, " Hz");
                    let pitch = clipped(pitch.as_slice(), 64);
                    let px = bx + bw as isize - 10 - (pitch.len() * 8) as isize;
                    add_text(s, px, info_y, pitch, Color::from_rgb(251, 191, 36).raw);
                }
            },
            PlayerMode::Chiptune => {
                add_label(s, bx + 10, info_y, "[8-BIT] PIT Ch2 Synthesizer", palette::BLACK);
                let cur_f = speaker.current_freq;
                if cur_f > 0 {
                    let mut pitch = format_u64(cur_f as u64);
                    append_str(&mut pitch, " Hz");
                    let pitch = clipped(pitch.as_slice(), 64);
                    let px = bx + bw as isize - 10 - (pitch.len() * 8) as isize;
                    add_text(s, px, info_y, pitch, Color::from_rgb(180, 0, 0).raw);
                }
            },
        }
        assert(shapes_view(s@) =~= before + self.info_scene(bx as int, by as int, bw as int, *speaker));
    }

    /// Adds `viz_scene`.
    fn add_viz(&self, s: &mut Vec<Shape>, bx: isize, by: isize, bw: usize, bh: usize)
        requires
            drawable(self, bx as int, by as int, bw as int, bh as int),
            scene_ok(shapes_view(old(s)@)),
        ensures
            shapes_view(final(s)@) == shapes_view(old(s)@) + self.viz_scene(bx as int, by as int, bw as int),
            scene_ok(shapes_view(final(s)@)),
    {
        let ghost before = shapes_view(s@);
        let viz_y = by + 62;
        let viz_w = bw - 16;
        add_fill(s, bx + 8, viz_y, viz_w, 38, palette::BLACK);
        add_shape(s, Shape::Sunken { x: bx + 8, y: viz_y, w: viz_w, h: 38 });
        let ghost head = shapes_view(s@);
        let usable_w = if viz_w >= 38 { viz_w - 38 } else { 0 };
        let bar_w: isize = if usable_w / 16 > 4 { (usable_w / 16) as isize } else { 4 };
        let total_viz_w: isize = 16 * bar_w + 30;
        let centred = half_of(viz_w as isize - total_viz_w);
        let start_x = bx + 8 + if centred > 4 { centred } else { 4 };
        let mut i: usize = 0;
        let mut bar_x = start_x;
        while i < 16
            invariant
                drawable(self, bx as int, by as int, bw as int, bh as int),
                viz_y == by + 62,
                bar_w == Self::bar_width(bw as int),
                4 <= bar_w <= 0x1000,
                start_x == Self::bars_start(bx as int, bw as int),
                -0x1_0000 <= centred <= 0x1_0000,
                start_x == bx + 8 + (if centred > 4 { centred } else { 4isize }),
                bar_x == start_x + i * (bar_w + 2),
                start_x <= bar_x <= start_x + 0x1002 * i,
                i <= 16,
                shapes_view(s@) == head + self.bars_upto(bx as int, by as int, bw as int, i as int),
                scene_ok(shapes_view(s@)),
            decreases 16 - i,
        {
            let raw_h = match self.mode {
                PlayerMode::Mp3 => self.mp3_player.viz_heights[i],
                PlayerMode::Chiptune => self.chiptune_viz_heights[i],
            };
            let capped = if raw_h < 30 { raw_h } else { 30 };
            let h: usize = if capped > 2 { capped as usize } else { 2 };
            let bar_top = viz_y + (38 - h as isize - 4);
            let bar_color = if i < 5 {
                Color::from_rgb(34, 197, 94)
            } else if i < 11 {
                Color::from_rgb(234, 179, 8)
            } else {
                Color::from_rgb(239, 68, 68)
            };
            add_fill(s, bar_x, bar_top, bar_w as usize, h, bar_color.raw);
            add_fill(s, bar_x, bar_top, bar_w as usize, 1, palette::WHITE);
            assert((i + 1) * (bar_w + 2) == i * (bar_w + 2) + bar_w + 2 && bar_w + 2 <= 0x1002) by (nonlinear_arith)
                requires 4 <= bar_w <= 0x1000;
            bar_x = bar_x + bar_w + 2;
            i = i + 1;
            assert(shapes_view(s@) =~= head + self.bars_upto(bx as int, by as int, bw as int, i as int));
        }
        assert(shapes_view(s@) =~= before + self.viz_scene(bx as int, by as int, bw as int));
    }

    /// The filled width and the text of `position(width)`.
    fn position_of(&self, width: usize) -> (r: (usize, Vec<char>))
        requires
            self.wf(),
            self.mode == PlayerMode::Mp3 ==> self.mp3_player.tracks@.len() > 0,
            width <= 0x1_0000,
        ensures
            r.0 <= width,
            (r.0 as int, r.1@) == self.position(width as int),
    {
        match self.mode {
            PlayerMode::Mp3 => {
                let t = &self.mp3_player.tracks[self.mp3_player.current_track];
                let total = if t.info.total_frames > 1 { t.info.total_frames } else { 1 };
                let frame = self.mp3_player.current_frame;
                let pw = progress_width(width, frame, total);
                let cur_s: u32 = if t.info.sample_rate > 0 {
                    let v = frame as u128 * 1152 / t.info.sample_rate as u128;
                    if v <= u32::MAX as u128 { v as u32 } else { u32::MAX }
                } else {
                    0
                };
                let mut txt: Vec<char> = Vec::new();
                append_clock(&mut txt, cur_s);
                append_str(&mut txt, "/");
                append_clock(&mut txt, t.info.duration_seconds);
                assert(txt@ =~= clock_text(cur_s) + "/"@ + clock_text(t.info.duration_seconds));
                (pw, txt)
            },
            PlayerMode::Chiptune => {
                let t = &self.chiptune_tracks[self.chiptune_track];
                let total = if t.notes.len() > 1 { t.notes.len() } else { 1 };
                let n = self.note_idx;
                let pw = progress_width(width, n, total);
                let mut txt = chars_of("Note ");
                append_chars(&mut txt, format_u64(n as u64).as_slice());
                append_str(&mut txt, "/");
                append_chars(&mut txt, format_u64(total as u64).as_slice());
                (pw, txt)
            },
        }
    }

    /// Adds `progress_scene`.
    fn add_progress(&self, s: &mut Vec<Shape>, bx: isize, by: isize, bw: usize, bh: usize)
        requires
            drawable(self, bx as int, by as int, bw as int, bh as int),
            scene_ok(shapes_view(old(s)@)),
        ensures
            shapes_view(final(s)@) == shapes_view(old(s)@) + self.progress_scene(bx as int, by as int, bw as int),
            scene_ok(shapes_view(final(s)@)),
    {
        let ghost before = shapes_view(s@);
        let bar_y = by + 106;
        add_fill(s, bx + 8, bar_y, bw - 16, 6, palette::WHITE);
        add_shape(s, Shape::Panel { x: bx + 8, y: bar_y, w: bw - 16, h: 6 });
        let (progress_w, time_str) = self.position_of(bw - 16);
        if progress_w > 0 {
            add_fill(s, bx + 8, bar_y, progress_w, 6, palette::RETRO_SELECTION);
        }
        add_text(s, bx + bw as isize - 90, by + 114, time_str, palette::BLACK);
        assert(shapes_view(s@) =~= before + self.progress_scene(bx as int, by as int, bw as int));
    }

    /// Adds `buttons_scene`.
    fn add_buttons(&self, s: &mut Vec<Shape>, bx: isize, by: isize, bw: usize, bh: usize, speaker: &SpeakerState)
        requires
            drawable(self, bx as int, by as int, bw as int, bh as int),
            scene_ok(shapes_view(old(s)@)),
        ensures
            shapes_view(final(s)@) == shapes_view(old(s)@) + self.buttons_scene(bx as int, by as int, *speaker),
            scene_ok(shapes_view(final(s)@)),
    {
        let ghost before = shapes_view(s@);
        let btn_y = by + 128;
        let play_txt = if self.is_playing() { "Pause" } else { "Play" };
        add_retro_button(s, bx + 10, btn_y, 44, 22, play_txt);
        add_retro_button(s, bx + 58, btn_y, 42, 22, "Stop");
        add_retro_button(s, bx + 104, btn_y, 42, 22, "Prev");
        add_retro_button(s, bx + 150, btn_y, 42, 22, "Next");
        let mute_txt = if speaker.muted { "Unmute" } else { "Mute" };
        add_retro_button(s, bx + 196, btn_y, 52, 22, mute_txt);
        let mode_lbl = match self.mode {
            PlayerMode::Mp3 => "Mode: MP3",
            PlayerMode::Chiptune => "Mode: 8-Bit",
        };
        add_retro_button(s, bx + 252, btn_y, 90, 22, mode_lbl);
        assert(shapes_view(s@) =~= before + self.buttons_scene(bx as int, by as int, *speaker));
    }

    /// Adds playlist entry `k`.
    fn add_entry(&self, s: &mut Vec<Shape>, bx: isize, by: isize, box_w: usize, max_row: usize, k: usize)
        requires
            self.wf(),
            inner(bx as int),
            inner(by as int),
            box_w <= 0x1_0000,
            k <= 0x1000,
            k < self.track_count(),
            scene_ok(shapes_view(old(s)@)),
        ensures
            shapes_view(final(s)@) == shapes_view(old(s)@) + self.entry_shapes(bx as int, by as int, box_w as int, max_row as int, k as int),
            scene_ok(shapes_view(final(s)@)),
    {
        let ghost before = shapes_view(s@);
        let row_y = by + 172 + 2 + k as isize * 18;
        let (is_cur, row) = match self.mode {
            PlayerMode::Mp3 => {
                let t = &self.mp3_player.tracks[k];
                let mut row = format_u64((k + 1) as u64);
                append_str(&mut row, ". ");
                append_str(&mut row, t.display_title());
                append_str(&mut row, " (");
                append_clock(&mut row, t.info.duration_seconds);
                append_str(&mut row, ")");
                (k == self.mp3_player.current_track, row)
            },
            PlayerMode::Chiptune => {
                let t = &self.chiptune_tracks[k];
                let mut row = format_u64((k + 1) as u64);
                append_str(&mut row, ". ");
                append_str(&mut row, t.title);
                (k == self.chiptune_track, row)
            },
        };
        if is_cur && box_w >= 4 {
            add_fill(s, bx + 10, row_y, box_w - 4, 16, palette::RETRO_SELECTION);
        }
        let name_col = if is_cur { palette::WHITE } else { palette::BLACK };
        add_text(s, bx + 14, row_y + 1, clipped(row.as_slice(), max_row), name_col);
        assert(shapes_view(s@) =~= before + self.entry_shapes(bx as int, by as int, box_w as int, max_row as int, k as int));
    }

    /// Adds `playlist_scene`.
    fn add_playlist(&self, s: &mut Vec<Shape>, bx: isize, by: isize, bw: usize, bh: usize)
        requires
            drawable(self, bx as int, by as int, bw as int, bh as int),
            scene_ok(shapes_view(old(s)@)),
        ensures
            shapes_view(final(s)@) == shapes_view(old(s)@) + self.playlist_scene(bx as int, by as int, bw as int, bh as int),
            scene_ok(shapes_view(final(s)@)),
    {
        let ghost before = shapes_view(s@);
        add_label(s, bx + 10, by + 156, "Playlist:", palette::BLACK);
        let box_h: usize = if bh >= 178 { bh - 178 } else { 0 };
        let box_w = bw - 16;
        add_fill(s, bx + 8, by + 172, box_w, box_h, palette::WHITE);
        add_shape(s, Shape::Sunken { x: bx + 8, y: by + 172, w: box_w, h: box_h });
        let ghost head = shapes_view(s@);
        let max_row = if box_w >= 16 && (box_w - 16) / 8 > 1 { (box_w - 16) / 8 } else { 1 };
        let count = match self.mode {
            PlayerMode::Mp3 => self.mp3_player.tracks.len(),
            PlayerMode::Chiptune => self.chiptune_tracks.len(),
        };
        let capped = if count < 0x1001 { count } else { 0x1001 };
        let fit = box_h / 18;
        let n = if capped < fit { capped } else { fit };
        let mut k: usize = 0;
        while k < n
            invariant
                drawable(self, bx as int, by as int, bw as int, bh as int),
                box_w == bw - 16,
                n == self.shown_entries(box_h as int),
                n <= 0x1001,
                n <= self.track_count(),
                max_row as int == (if box_w >= 16 && (box_w - 16) / 8 > 1 { (box_w - 16) / 8 } else { 1int }),
                k <= n,
                shapes_view(s@) == head + self.entries_upto(bx as int, by as int, box_w as int, max_row as int, k as int),
                scene_ok(shapes_view(s@)),
            decreases n - k,
        {
            self.add_entry(s, bx, by, box_w, max_row, k);
            k = k + 1;
            assert(shapes_view(s@) =~= head + self.entries_upto(bx as int, by as int, box_w as int, max_row as int, k as int));
        }
        assert(shapes_view(s@) =~= before + self.playlist_scene(bx as int, by as int, bw as int, bh as int));
    }

    /// Builds `scene_spec`.
    pub fn scene(&self, bx: isize, by: isize, bw: usize, bh: usize, speaker: &SpeakerState) -> (s: Vec<Shape>)
        requires
            self.wf(),
            self.mode == PlayerMode::Mp3 ==> self.mp3_player.tracks@.len() > 0,
            inner(bx as int),
            inner(by as int),
            16 <= bw <= 0x1_0000,
            bh <= 0x1_0000,
        ensures
            shapes_view(s@) == self.scene_spec(bx as int, by as int, bw as int, bh as int, *speaker),
            scene_ok(shapes_view(s@)),
    {
        let mut s: Vec<Shape> = Vec::new();
        assert(shapes_view(s@) =~= Seq::<ShapeV>::empty());
        self.add_display(&mut s, bx, by, bw, bh, speaker);
        self.add_info(&mut s, bx, by, bw, bh, speaker);
        self.add_viz(&mut s, bx, by, bw, bh);
        self.add_progress(&mut s, bx, by, bw, bh);
        self.add_buttons(&mut s, bx, by, bw, bh, speaker);
        self.add_playlist(&mut s, bx, by, bw, bh);
        assert(shapes_view(s@) =~= self.scene_spec(bx as int, by as int, bw as int, bh as int, *speaker));
        s
    }

    /// Draws the player into the client area at `(bx, by)`, `bw` by `bh`:
    /// exactly the pixels of `scene_spec` (the display with title, artist
    /// and state, the stream line, the 16 level bars, the progress bar and
    /// time, the buttons and the playlist).
    pub fn render(&self, fb: &mut Framebuffer, bx: isize, by: isize, bw: usize, bh: usize, speaker: &SpeakerState)
        requires
            old(fb).wf(),
            self.wf(),
            self.mode == PlayerMode::Mp3 ==> self.mp3_player.tracks@.len() > 0,
            inner(bx as int),
            inner(by as int),
            16 <= bw <= 0x1_0000,
            bh <= 0x1_0000,
        ensures
            drawn_over(*old(fb), *final(fb)),
            final(fb).backbuffer@ == painted(*old(fb), old(fb).backbuffer@,
                self.scene_spec(bx as int, by as int, bw as int, bh as int, *speaker)),
    {
        let s = self.scene(bx, by, bw, bh, speaker);
        paint(fb, s.as_slice());
    }
}

} // verus!
