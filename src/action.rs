//! What the engine asks of the outside world: calls on the tone generator,
//! pauses, persistence of the fingering table and messages to the player.

use vstd::prelude::*;

verus! {

/// Velocity of every note-on the engine emits.
pub const VELOCITY: i32 = 127;

/// The three modes of the instrument.
#[derive(Clone, Copy, Debug, PartialEq, Eq, Structural)]
pub enum Mode {
    Play,
    Control,
    Transpose,
}

/// One request to the outside world, performed in order.
#[derive(Clone, Copy, Debug, PartialEq, Eq, Structural)]
pub enum Action {
    /// Set the volume controller of the tone generator.
    Volume(i32),
    /// Start a note: note number and velocity.
    NoteOn(i32, i32),
    /// Stop a note.
    NoteOff(i32),
    /// A confirmation tone on the tone generator alone: note, velocity and
    /// length in milliseconds, after which the note is released.
    Tone(i32, i32, u32),
    /// Select the instrument program of the tone generator.
    ProgramChange(i32),
    /// Block for the given number of milliseconds.
    Pause(u32),
    /// Write the fingering table to its backing store now.
    Persist,
    /// A bitmask was recorded for the reference entry of the given index.
    Recorded(u32, usize),
    /// Recording now waits for the reference entry of the given index.
    NextTarget(usize),
    /// Recording went back to the reference entry of the given index.
    BackTo(usize),
    /// Every reference entry was visited: recording ended.
    RecordingDone,
    /// The fingering changed: blow to record this bitmask for the given entry.
    Prompt(u32, usize),
    /// The instrument entered the given mode.
    ModeChanged(Mode),
}

/// A short confirmation tone of `ms` milliseconds.
pub open spec fn beep_spec(note: i32, ms: u32) -> Seq<Action> {
    seq![Action::Tone(note, VELOCITY, ms)]
}

/// Appends a confirmation tone to `out`.
pub fn beep(out: &mut Vec<Action>, note: i32, ms: u32)
    ensures
        final(out)@ == old(out)@ + beep_spec(note, ms),
{
    out.push(Action::Tone(note, VELOCITY, ms));
    assert(out@ =~= old(out)@ + beep_spec(note, ms));
}

} // verus!
