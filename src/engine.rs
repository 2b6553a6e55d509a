//! The per-tick orchestration: volume, recording, the active mode's
//! sub-machine, note output in Play mode and the transitions between modes.

use vstd::prelude::*;

use crate::action::{beep, beep_spec, Action, Mode};
use crate::commands::{command_step, command_view_wf, Command, CommandKey, CommandView};
use crate::midinotes::{pitch_at, LOWEST_PITCH};
use crate::notemap::{record_spec, shifted, view_wf, NoteMap, NoteMapView, SUCK_THRESHOLD};
use crate::transpose::{transpose_step, Transpose, TransposeCmd, TransposeView};
use crate::trigger::{trigger_step, NoteTrigger};

verus! {

/// The chord that returns to Play mode: the three left palm keys.
pub const RELEASE_KEYS: u32 = 0x124;

/// Confirmation tone of the return to Play mode.
pub const RELEASE_NOTE: i32 = 70;

/// Confirmation tones of entering Control and Transpose mode.
pub const ENTER_NOTE: i32 = 71;
pub const TRANSPOSE_NOTE: i32 = 75;
pub const MODE_BEEP_MS: u32 = 50;
pub const MODE_GAP_MS: u32 = 20;

/// Abstract state of the engine.
pub struct EngineView {
    pub notemap: NoteMapView,
    pub mode: Mode,
    pub sounding: i32,
    pub cmd: CommandView,
    pub transpose: TransposeView,
    pub neg_countdown: u32,
    pub neg_init: u32,
    pub last_vol: i32,
}

pub open spec fn engine_view_wf(e: EngineView) -> bool {
    &&& view_wf(e.notemap)
    &&& e.sounding >= 0
    &&& command_view_wf(e.cmd)
}

/// The note a fingering plays under a table view.
pub open spec fn lookup(nm: NoteMapView, keys: u32) -> Option<i32> {
    if nm.table.contains_key(keys) {
        shifted(nm.table[keys] as int, nm.transpose as int)
    } else {
        None
    }
}

/// New countdown, and whether it reached zero on this tick: a suck counts
/// down (never below zero), anything else restarts it.
pub open spec fn countdown_step(cd: u32, init: u32, pressure: i32) -> (u32, bool) {
    if pressure < SUCK_THRESHOLD {
        if cd > 0 {
            ((cd - 1) as u32, cd == 1)
        } else {
            (0, false)
        }
    } else {
        (init, false)
    }
}

/// The mode a fired sustained suck leads to, from the fingering's concert pitch.
pub open spec fn suck_target(nm: NoteMapView, keys: u32) -> Mode {
    if nm.table.contains_key(keys) && nm.table[keys] == pitch_at(0) {
        Mode::Control
    } else if nm.table.contains_key(keys) && nm.table[keys] == pitch_at(1) {
        Mode::Transpose
    } else {
        Mode::Play
    }
}

/// Confirmation of entering a mode.
pub open spec fn enter_actions(m: Mode) -> Seq<Action> {
    match m {
        Mode::Control => beep_spec(ENTER_NOTE, MODE_BEEP_MS).push(Action::ModeChanged(Mode::Control)),
        Mode::Transpose => beep_spec(ENTER_NOTE, MODE_BEEP_MS) + seq![Action::Pause(MODE_GAP_MS)]
            + beep_spec(TRANSPOSE_NOTE, MODE_BEEP_MS).push(Action::ModeChanged(Mode::Transpose)),
        Mode::Play => seq![],
    }
}

/// Confirmation of the return to Play mode.
pub open spec fn release_actions() -> Seq<Action> {
    beep_spec(RELEASE_NOTE, MODE_BEEP_MS).push(Action::ModeChanged(Mode::Play))
}

/// Volume of a pressure: the breath, or zero for a suck.
pub open spec fn volume_of(pressure: i32) -> i32 {
    if pressure > 0 {
        pressure
    } else {
        0
    }
}

/// What every tick does first: report a changed volume, then run one step of
/// recording while it is on.
pub open spec fn engine_prelude(e: EngineView, keys: u32, pressure: i32) -> (EngineView, Seq<Action>) {
    let vol = volume_of(pressure);
    let a0: Seq<Action> = if e.last_vol != vol {
        seq![Action::Volume(vol)]
    } else {
        seq![]
    };
    let (nm1, a1) = if e.notemap.recording {
        record_spec(e.notemap, keys, pressure)
    } else {
        (e.notemap, seq![])
    };
    (EngineView { notemap: nm1, last_vol: vol, ..e }, a0 + a1)
}

/// A tick in Control or Transpose mode: the mode's sub-machine, then the
/// release chord returns to Play mode.
pub open spec fn engine_sub(e: EngineView, keys: u32, vol: i32) -> (EngineView, Seq<Action>) {
    let (e2, a2) = if e.mode == Mode::Control {
        let (c, a) = command_step(e.cmd, keys);
        (EngineView { cmd: c, ..e }, a)
    } else {
        let (t, nm, a) = transpose_step(e.transpose, e.notemap, keys, vol);
        (EngineView { transpose: t, notemap: nm, ..e }, a)
    };
    if keys == RELEASE_KEYS {
        (EngineView { mode: Mode::Play, ..e2 }, a2 + release_actions())
    } else {
        (e2, a2)
    }
}

/// A tick in Play mode: the fingering's note goes to the trigger, and a
/// sustained suck on a mode fingering changes mode.
pub open spec fn engine_play(e: EngineView, keys: u32, pressure: i32) -> (EngineView, Seq<Action>) {
    let (s3, a3) = trigger_step(e.sounding, lookup(e.notemap, keys), volume_of(pressure));
    let (cd, fired) = countdown_step(e.neg_countdown, e.neg_init, pressure);
    let target = if fired {
        suck_target(e.notemap, keys)
    } else {
        Mode::Play
    };
    (EngineView { sounding: s3, neg_countdown: cd, mode: target, ..e }, a3 + enter_actions(target))
}

/// One tick of the engine on a key bitmask and a pressure.
pub open spec fn engine_step(e: EngineView, keys: u32, pressure: i32) -> (EngineView, Seq<Action>) {
    let (e1, a) = engine_prelude(e, keys, pressure);
    let (e2, b) = if e.mode != Mode::Play {
        engine_sub(e1, keys, volume_of(pressure))
    } else {
        engine_play(e1, keys, pressure)
    };
    (e2, a + b)
}

/// State after the same input is fed for `m` ticks.
pub open spec fn engine_hold(e: EngineView, keys: u32, pressure: i32, m: nat) -> EngineView
    decreases m,
{
    if m == 0 {
        e
    } else {
        engine_hold(engine_step(e, keys, pressure).0, keys, pressure, (m - 1) as nat)
    }
}

proof fn lemma_suck_hold(e: EngineView, keys: u32, pressure: i32, m: nat)
    requires
        e.mode == Mode::Play,
        pressure < SUCK_THRESHOLD,
        e.notemap.table.contains_key(keys),
        e.notemap.table[keys] == LOWEST_PITCH,
        m <= e.neg_countdown,
    ensures
        engine_hold(e, keys, pressure, m).mode == (if m > 0 && m == e.neg_countdown {
            Mode::Control
        } else {
            Mode::Play
        }),
    decreases m,
{
    if m > 0 {
        let e1 = engine_step(e, keys, pressure).0;
        assert(e1.notemap.table == e.notemap.table);
        if m > 1 {
            lemma_suck_hold(e1, keys, pressure, (m - 1) as nat);
        } else {
            assert(engine_hold(e1, keys, pressure, 0) == e1);
        }
    }
}

/// Sustained-suck debounce: in Play mode with a restarted countdown, sucking
/// on the fingering of the list's lowest note leaves Play mode only once the
/// suck has lasted the whole countdown, and then enters Control mode.
pub proof fn law_sustained_suck(e: EngineView, keys: u32, pressure: i32, m: nat)
    requires
        e.mode == Mode::Play,
        e.neg_countdown == e.neg_init,
        pressure < SUCK_THRESHOLD,
        e.notemap.table.contains_key(keys),
        e.notemap.table[keys] == LOWEST_PITCH,
        m <= e.neg_init,
    ensures
        engine_hold(e, keys, pressure, m).mode == (if m > 0 && m == e.neg_init {
            Mode::Control
        } else {
            Mode::Play
        }),
{
    lemma_suck_hold(e, keys, pressure, m);
}

/// The instrument: a fingering table and the state of every mode.
pub struct Engine {
    notemap: NoteMap,
    mode: Mode,
    trigger: NoteTrigger,
    cmd: Command,
    transpose: Transpose,
    neg_countdown: u32,
    neg_init: u32,
    last_vol: i32,
}

impl View for Engine {
    type V = EngineView;

    closed spec fn view(&self) -> EngineView {
        EngineView {
            notemap: self.notemap@,
            mode: self.mode,
            sounding: self.trigger.sounding_spec(),
            cmd: self.cmd@,
            transpose: self.transpose@,
            neg_countdown: self.neg_countdown,
            neg_init: self.neg_init,
            last_vol: self.last_vol,
        }
    }
}

impl Engine {
    pub open spec fn wf(&self) -> bool {
        engine_view_wf(self@)
    }

    /// An engine in Play mode, silent, over `notemap`, with the program
    /// `prog_number` selected; a transpose command applies after
    /// `transpose_ticks` ticks and a mode change needs a suck of `suck_ticks`.
    pub fn new(notemap: NoteMap, prog_number: i32, transpose_ticks: u32, suck_ticks: u32) -> (r:
        Engine)
        requires
            notemap.wf(),
        ensures
            r.wf(),
            r@.notemap == notemap@,
            r@.mode == Mode::Play,
            r@.sounding == 0,
            r@.cmd == (CommandView {
                prog_number,
                last_key: CommandKey::Unmapped,
                pending: None,
                digits: seq![],
            }),
            r@.transpose == (TransposeView {
                countdown_init: transpose_ticks,
                cmd: TransposeCmd::Idle,
                countdown: 0,
                applied: false,
            }),
            r@.neg_countdown == suck_ticks,
            r@.neg_init == suck_ticks,
            r@.last_vol == 0,
    {
        Engine {
            notemap,
            mode: Mode::Play,
            trigger: NoteTrigger::new(),
            cmd: Command::new(prog_number),
            transpose: Transpose::new(transpose_ticks),
            neg_countdown: suck_ticks,
            neg_init: suck_ticks,
            last_vol: 0,
        }
    }

    pub fn mode(&self) -> (r: Mode)
        ensures
            r == self@.mode,
    {
        self.mode
    }

    pub fn notemap(&self) -> (r: &NoteMap)
        ensures
            r@ == self@.notemap,
    {
        &self.notemap
    }

    /// The note that sounds, 0 for silence.
    pub fn sounding(&self) -> (r: i32)
        ensures
            r == self@.sounding,
    {
        self.trigger.sounding()
    }

    pub fn command(&self) -> (r: &Command)
        ensures
            r@ == self@.cmd,
    {
        &self.cmd
    }

    /// Feeds one tick's key bitmask and pressure (see `engine_step`).
    pub fn tick(&mut self, keys: u32, pressure: i32) -> (r: Vec<Action>)
        requires
            old(self).wf(),
        ensures
            final(self).wf(),
            (final(self)@, r@) == engine_step(old(self)@, keys, pressure),
    {
        let vol: i32 = if pressure > 0 {
            pressure
        } else {
            0
        };
        let mut out = self.tick_prelude(keys, pressure);
        let mut rest = if self.mode != Mode::Play {
            self.tick_sub(keys, vol)
        } else {
            self.tick_play(keys, pressure)
        };
        out.append(&mut rest);
        out
    }

    fn tick_prelude(&mut self, keys: u32, pressure: i32) -> (r: Vec<Action>)
        requires
            old(self).wf(),
        ensures
            final(self).wf(),
            (final(self)@, r@) == engine_prelude(old(self)@, keys, pressure),
    {
        let vol: i32 = if pressure > 0 {
            pressure
        } else {
            0
        };
        let mut out: Vec<Action> = Vec::new();
        if self.last_vol != vol {
            out.push(Action::Volume(vol));
        }
        self.last_vol = vol;
        let ghost a0 = out@;
        if self.notemap.is_recording() {
            let mut rec = self.notemap.record(keys, pressure);
            out.append(&mut rec);
        }
        let ghost a1 = out@.skip(a0.len() as int);
        assert(out@ =~= a0 + a1);
        out
    }

    fn tick_sub(&mut self, keys: u32, vol: i32) -> (r: Vec<Action>)
        requires
            old(self).wf(),
        ensures
            final(self).wf(),
            (final(self)@, r@) == engine_sub(old(self)@, keys, vol),
    {
        let mut out = if self.mode == Mode::Control {
            self.cmd.process(keys)
        } else {
            self.transpose.process(keys, vol, &mut self.notemap)
        };
        let ghost a2 = out@;
        if keys == RELEASE_KEYS {
            beep(&mut out, RELEASE_NOTE, MODE_BEEP_MS);
            out.push(Action::ModeChanged(Mode::Play));
            self.mode = Mode::Play;
            assert(out@ =~= a2 + release_actions());
        }
        out
    }

    fn tick_play(&mut self, keys: u32, pressure: i32) -> (r: Vec<Action>)
        requires
            old(self).wf(),
            old(self)@.mode == Mode::Play,
        ensures
            final(self).wf(),
            (final(self)@, r@) == engine_play(old(self)@, keys, pressure),
    {
        let vol: i32 = if pressure > 0 {
            pressure
        } else {
            0
        };
        let desired = self.notemap.get(&keys);
        let mut out = self.trigger.process(desired, vol);
        let mut fired = false;
        if pressure < SUCK_THRESHOLD {
            if self.neg_countdown > 0 {
                self.neg_countdown -= 1;
                fired = self.neg_countdown == 0;
            }
        } else {
            self.neg_countdown = self.neg_init;
        }
        let ghost a3 = out@;
        if fired {
            let concert = self.notemap.get_untransposed(&keys);
            if concert == Some(LOWEST_PITCH) {
                beep(&mut out, ENTER_NOTE, MODE_BEEP_MS);
                out.push(Action::ModeChanged(Mode::Control));
                self.mode = Mode::Control;
                assert(out@ =~= a3 + enter_actions(Mode::Control));
            } else if concert == Some(LOWEST_PITCH + 1) {
                beep(&mut out, ENTER_NOTE, MODE_BEEP_MS);
                out.push(Action::Pause(MODE_GAP_MS));
                beep(&mut out, TRANSPOSE_NOTE, MODE_BEEP_MS);
                out.push(Action::ModeChanged(Mode::Transpose));
                self.mode = Mode::Transpose;
                assert(out@ =~= a3 + enter_actions(Mode::Transpose));
            }
        }
        assert(out@ =~= a3 + enter_actions(self.mode));
        out
    }
}

} // verus!
