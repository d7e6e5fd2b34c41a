//! The PC speaker: which tone it plays and whether it is muted, and the
//! programmable-timer settings a tone needs.
use vstd::prelude::*;

verus! {

/// The programmable interval timer's input clock, in Hz.
pub const PIT_FREQUENCY: u32 = 1193180;

/// What to do with the speaker hardware.
#[derive(Debug, Clone, Copy, PartialEq, Eq, Structural)]
pub enum SpeakerCommand {
    /// Switch the speaker off.
    Silence,
    /// Program timer channel 2 with `divisor` and switch the speaker on.
    Tone { divisor: u16 },
}

/// The speaker's state: the tone playing (0 for none) and the mute switch.
pub struct SpeakerState {
    pub current_freq: u32,
    pub muted: bool,
}

/// The timer divisor for a tone of `freq` Hz (the quotient kept to 16 bits).
pub open spec fn divisor_for(freq: u32) -> u16 {
    (1193180int / freq as int) as u16
}

impl SpeakerState {
    /// Silent and not muted.
    pub fn new() -> (s: SpeakerState)
        ensures
            s.current_freq == 0,
            !s.muted,
    {
        SpeakerState { current_freq: 0, muted: false }
    }

    /// Plays a tone of `freq` Hz, or falls silent for 0 Hz or when muted.
    pub fn play_tone(&mut self, freq: u32) -> (cmd: SpeakerCommand)
        ensures
            final(self).muted == old(self).muted,
            if freq == 0 || old(self).muted {
                final(self).current_freq == 0 && cmd == SpeakerCommand::Silence
            } else {
                final(self).current_freq == freq && cmd == (SpeakerCommand::Tone { divisor: divisor_for(freq) })
            },
    {
        if freq == 0 || self.muted {
            return self.mute();
        }
        self.current_freq = freq;
        let q = PIT_FREQUENCY / freq;
        SpeakerCommand::Tone { divisor: q as u16 }
    }

    /// Falls silent.
    pub fn mute(&mut self) -> (cmd: SpeakerCommand)
        ensures
            final(self).muted == old(self).muted,
            final(self).current_freq == 0,
            cmd == SpeakerCommand::Silence,
    {
        self.current_freq = 0;
        SpeakerCommand::Silence
    }
}

/// The tone playing, in Hz (0 for none).
pub fn get_current_frequency(s: &SpeakerState) -> (f: u32)
    ensures
        f == s.current_freq,
{
    s.current_freq
}

/// Sets the mute switch; muting also silences the speaker (the command is
/// `None` when the speaker is left as it is).
pub fn set_muted(s: &mut SpeakerState, muted: bool) -> (cmd: Option<SpeakerCommand>)
    ensures
        final(s).muted == muted,
        final(s).current_freq == if muted { 0 } else { old(s).current_freq },
        cmd == if muted { Some(SpeakerCommand::Silence) } else { None },
{
    s.muted = muted;
    if muted {
        Some(s.mute())
    } else {
        None
    }
}

/// Whether the speaker is muted.
pub fn is_muted(s: &SpeakerState) -> (m: bool)
    ensures
        m == s.muted,
{
    s.muted
}

/// Silences the speaker.
pub fn stop_tone(s: &mut SpeakerState) -> (cmd: SpeakerCommand)
    ensures
        final(s).muted == old(s).muted,
        final(s).current_freq == 0,
        cmd == SpeakerCommand::Silence,
{
    s.mute()
}

/// Plays a tone of `freq` Hz (the duration is not used).
pub fn beep(s: &mut SpeakerState, freq: u32, duration_ticks: u32) -> (cmd: SpeakerCommand)
    ensures
        final(s).muted == old(s).muted,
        if freq == 0 || old(s).muted {
            final(s).current_freq == 0 && cmd == SpeakerCommand::Silence
        } else {
            final(s).current_freq == freq && cmd == (SpeakerCommand::Tone { divisor: divisor_for(freq) })
        },
{
    s.play_tone(freq)
}

} // verus!
