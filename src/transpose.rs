//! Transpose mode: a fingering held long enough moves the transpose offset by
//! a half step, or sets it from a played note against a reference pitch.

use vstd::prelude::*;

use crate::action::{beep, beep_spec, Action};
use crate::notemap::{NoteMap, NoteMapView};

verus! {

/// The pitch a played note is measured against. High C lets soprano (High Bb,
/// -2), alto (Mid Eb, -9), tenor (Mid Bb, -14) and baritone (Low Eb, -21)
/// instruments reach it with their own written pitch.
pub const TRANSPOSE_REFERENCE: i32 = 84;

/// Fingering that raises the offset by a half step when it plays no note.
pub const HALF_STEP_UP_KEYS: u32 = 0x10000;

/// Fingering that lowers the offset by a half step when it plays no note.
pub const HALF_STEP_DOWN_KEYS: u32 = 0x400000;

/// Breath a played note needs to count as a direct transpose.
pub const DIRECT_VOLUME: i32 = 10;

/// Length of each confirmation tone, and of the pause between them.
pub const CONFIRM_BEEP_MS: u32 = 50;
pub const CONFIRM_GAP_MS: u32 = 100;

/// The command a tick's input asks for.
#[derive(Clone, Copy, Debug, PartialEq, Eq, Structural)]
pub enum TransposeCmd {
    HalfStepUp,
    HalfStepDown,
    Direct(i32),
    Idle,
}

/// `x` clamped to the range of `i32`.
pub open spec fn sat_i32(x: int) -> i32 {
    if x > i32::MAX {
        i32::MAX
    } else if x < i32::MIN {
        i32::MIN
    } else {
        x as i32
    }
}

/// The command of a fingering and volume against a table of concert pitches.
pub open spec fn cmd_of(key: u32, vol: i32, table: Map<u32, i32>) -> TransposeCmd {
    if table.contains_key(key) {
        if vol > DIRECT_VOLUME {
            TransposeCmd::Direct(table[key])
        } else {
            TransposeCmd::Idle
        }
    } else if key == HALF_STEP_UP_KEYS {
        TransposeCmd::HalfStepUp
    } else if key == HALF_STEP_DOWN_KEYS {
        TransposeCmd::HalfStepDown
    } else {
        TransposeCmd::Idle
    }
}

/// The offset a command sets, from the current offset.
pub open spec fn applied_offset(cmd: TransposeCmd, cur: i32) -> Option<i32> {
    match cmd {
        TransposeCmd::HalfStepUp => Some(sat_i32(cur + 1)),
        TransposeCmd::HalfStepDown => Some(sat_i32(cur - 1)),
        TransposeCmd::Direct(note) => Some(sat_i32(note - TRANSPOSE_REFERENCE)),
        TransposeCmd::Idle => None,
    }
}

/// The reference pitch, a pause, then the reference pitch moved by the offset.
pub open spec fn confirm_actions(offset: i32) -> Seq<Action> {
    beep_spec(TRANSPOSE_REFERENCE, CONFIRM_BEEP_MS) + seq![Action::Pause(CONFIRM_GAP_MS)]
        + beep_spec(sat_i32(TRANSPOSE_REFERENCE + offset), CONFIRM_BEEP_MS)
}

/// Abstract state of the transpose controller.
pub struct TransposeView {
    pub countdown_init: u32,
    pub cmd: TransposeCmd,
    pub countdown: u32,
    pub applied: bool,
}

/// One tick: a new command restarts the countdown; the same command counts it
/// down (never below zero) and, at zero, is applied once.
pub open spec fn transpose_step(t: TransposeView, nm: NoteMapView, key: u32, vol: i32) -> (
    TransposeView,
    NoteMapView,
    Seq<Action>,
) {
    let c = cmd_of(key, vol, nm.table);
    if c != t.cmd {
        (TransposeView { cmd: c, countdown: t.countdown_init, applied: false, ..t }, nm, seq![])
    } else {
        let cd: u32 = if t.countdown > 0 {
            (t.countdown - 1) as u32
        } else {
            0
        };
        if cd > 0 || t.applied {
            (TransposeView { countdown: cd, ..t }, nm, seq![])
        } else {
            let t1 = TransposeView { countdown: cd, applied: true, ..t };
            match applied_offset(c, nm.transpose) {
                Some(x) => (t1, NoteMapView { transpose: x, ..nm }, confirm_actions(x)),
                None => (t1, nm, seq![]),
            }
        }
    }
}

/// State after the same input is fed for `m` ticks.
pub open spec fn transpose_hold(t: TransposeView, nm: NoteMapView, key: u32, vol: i32, m: nat) -> (
    TransposeView,
    NoteMapView,
)
    decreases m,
{
    if m == 0 {
        (t, nm)
    } else {
        let (t1, nm1, _) = transpose_step(t, nm, key, vol);
        transpose_hold(t1, nm1, key, vol, (m - 1) as nat)
    }
}

proof fn lemma_hold_up(t: TransposeView, nm: NoteMapView, vol: i32, j: nat)
    requires
        t.cmd == TransposeCmd::HalfStepUp,
        t.applied ==> t.countdown == 0,
        !nm.table.contains_key(HALF_STEP_UP_KEYS),
    ensures
        transpose_hold(t, nm, HALF_STEP_UP_KEYS, vol, j).1.table == nm.table,
        transpose_hold(t, nm, HALF_STEP_UP_KEYS, vol, j).1.transpose == (if !t.applied && j >= 1
            && j >= t.countdown {
            sat_i32(nm.transpose + 1)
        } else {
            nm.transpose
        }),
    decreases j,
{
    if j > 0 {
        let (t1, nm1, _) = transpose_step(t, nm, HALF_STEP_UP_KEYS, vol);
        lemma_hold_up(t1, nm1, vol, (j - 1) as nat);
    }
}

/// Holding the half-step-up fingering (which plays no note) raises the offset
/// by one half step once the countdown has run out, and only once however
/// long it is held; before that the offset does not move. (At the largest
/// offset it stays put.)
pub proof fn law_half_step_once(t: TransposeView, nm: NoteMapView, vol: i32, m: nat)
    requires
        t.cmd != TransposeCmd::HalfStepUp,
        !nm.table.contains_key(HALF_STEP_UP_KEYS),
    ensures
        transpose_hold(t, nm, HALF_STEP_UP_KEYS, vol, m).1.transpose == (if m >= 2 && m
            > t.countdown_init {
            sat_i32(nm.transpose + 1)
        } else {
            nm.transpose
        }),
        m >= 2 && m > t.countdown_init && nm.transpose < i32::MAX ==> transpose_hold(
            t,
            nm,
            HALF_STEP_UP_KEYS,
            vol,
            m,
        ).1.transpose == nm.transpose + 1,
{
    if m > 0 {
        let (t1, nm1, _) = transpose_step(t, nm, HALF_STEP_UP_KEYS, vol);
        lemma_hold_up(t1, nm1, vol, (m - 1) as nat);
    }
}

/// `a + b` clamped to the range of `i32`.
fn add_clamped(a: i32, b: i32) -> (r: i32)
    ensures
        r == sat_i32(a + b),
{
    let s: i64 = a as i64 + b as i64;
    if s > i32::MAX as i64 {
        i32::MAX
    } else if s < i32::MIN as i64 {
        i32::MIN
    } else {
        s as i32
    }
}

/// The command of a fingering and volume (see `cmd_of`).
pub fn get_cmd(key: u32, vol: i32, notemap: &NoteMap) -> (r: TransposeCmd)
    ensures
        r == cmd_of(key, vol, notemap@.table),
{
    match notemap.get_untransposed(&key) {
        Some(note) => if vol > DIRECT_VOLUME {
            TransposeCmd::Direct(note)
        } else {
            TransposeCmd::Idle
        },
        None => if key == HALF_STEP_UP_KEYS {
            TransposeCmd::HalfStepUp
        } else if key == HALF_STEP_DOWN_KEYS {
            TransposeCmd::HalfStepDown
        } else {
            TransposeCmd::Idle
        },
    }
}

/// The Transpose-mode controller.
pub struct Transpose {
    countdown_init: u32,
    cmd: TransposeCmd,
    countdown: u32,
    applied: bool,
}

impl View for Transpose {
    type V = TransposeView;

    closed spec fn view(&self) -> TransposeView {
        TransposeView {
            countdown_init: self.countdown_init,
            cmd: self.cmd,
            countdown: self.countdown,
            applied: self.applied,
        }
    }
}

impl Transpose {
    /// A controller that applies a command held for `countdown_init` ticks
    /// after the tick that selected it.
    pub fn new(countdown_init: u32) -> (r: Transpose)
        ensures
            r@ == (TransposeView {
                countdown_init,
                cmd: TransposeCmd::Idle,
                countdown: 0,
                applied: false,
            }),
    {
        Transpose { countdown_init, cmd: TransposeCmd::Idle, countdown: 0, applied: false }
    }

    /// Feeds one tick (see `transpose_step`).
    pub fn process(&mut self, key: u32, vol: i32, notemap: &mut NoteMap) -> (r: Vec<Action>)
        ensures
            (final(self)@, final(notemap)@, r@) == transpose_step(old(self)@, old(notemap)@, key, vol),
            final(notemap).wf() == old(notemap).wf(),
    {
        let cur_cmd = get_cmd(key, vol, notemap);
        if cur_cmd != self.cmd {
            self.cmd = cur_cmd;
            self.countdown = self.countdown_init;
            self.applied = false;
            return Vec::new();
        }
        self.countdown = self.countdown.saturating_sub(1);
        if self.countdown > 0 || self.applied {
            return Vec::new();
        }
        let out = match self.cmd {
            TransposeCmd::HalfStepUp => Self::offset(1, notemap),
            TransposeCmd::HalfStepDown => Self::offset(-1, notemap),
            TransposeCmd::Direct(note) => Self::direct(note, notemap),
            TransposeCmd::Idle => Vec::new(),
        };
        self.applied = true;
        out
    }

    /// Sets the offset and sounds the confirmation tones.
    fn set_transpose(transpose: i32, notemap: &mut NoteMap) -> (r: Vec<Action>)
        ensures
            final(notemap)@ == (NoteMapView { transpose, ..old(notemap)@ }),
            final(notemap).wf() == old(notemap).wf(),
            r@ == confirm_actions(transpose),
    {
        notemap.set_transpose(transpose);
        let mut out: Vec<Action> = Vec::new();
        beep(&mut out, TRANSPOSE_REFERENCE, CONFIRM_BEEP_MS);
        out.push(Action::Pause(CONFIRM_GAP_MS));
        let moved = add_clamped(TRANSPOSE_REFERENCE, transpose);
        beep(&mut out, moved, CONFIRM_BEEP_MS);
        assert(out@ =~= confirm_actions(transpose));
        out
    }

    /// Moves the offset by a number of half steps.
    fn offset(offset: i32, notemap: &mut NoteMap) -> (r: Vec<Action>)
        ensures
            final(notemap)@ == (NoteMapView {
                transpose: sat_i32(old(notemap)@.transpose + offset),
                ..old(notemap)@
            }),
            final(notemap).wf() == old(notemap).wf(),
            r@ == confirm_actions(sat_i32(old(notemap)@.transpose + offset)),
    {
        let t = add_clamped(notemap.transpose(), offset);
        Self::set_transpose(t, notemap)
    }

    /// Sets the offset from a played note's distance to the reference pitch.
    fn direct(note: i32, notemap: &mut NoteMap) -> (r: Vec<Action>)
        ensures
            final(notemap)@ == (NoteMapView {
                transpose: sat_i32(note - TRANSPOSE_REFERENCE),
                ..old(notemap)@
            }),
            final(notemap).wf() == old(notemap).wf(),
            r@ == confirm_actions(sat_i32(note - TRANSPOSE_REFERENCE)),
    {
        let t = add_clamped(note, -TRANSPOSE_REFERENCE);
        Self::set_transpose(t, notemap)
    }
}

} // verus!
