//! Monophonic note sequencing: turns the desired note and the breath volume
//! of each tick into note-on and note-off events, never letting two notes
//! sound at once.

use vstd::prelude::*;

use crate::action::{Action, VELOCITY};

verus! {

/// Events and new sounding note for one input, from sounding note `s`.
///
/// A desired note that differs from the sounding one starts (if positive)
/// while breath flows, after the sounding note is released under a muted
/// volume; a desired note of zero or less is silence; no desired note keeps
/// what sounds. Without breath the sounding note is released.
pub open spec fn trigger_step(s: i32, desired: Option<i32>, volume: i32) -> (i32, Seq<Action>) {
    if volume <= 0 {
        if s > 0 {
            (0, seq![Action::NoteOff(s)])
        } else {
            (s, seq![])
        }
    } else if desired is Some && desired->0 != s {
        let n = desired->0;
        let release = if s > 0 {
            seq![Action::Volume(0), Action::NoteOff(s), Action::Volume(volume)]
        } else {
            seq![]
        };
        if n > 0 {
            (n, release.push(Action::NoteOn(n, VELOCITY)))
        } else {
            (0, release)
        }
    } else {
        (s, seq![])
    }
}

/// Sounding note after a stream of events from sounding note `cur`, or `None`
/// where a note starts while another sounds or a note stops that does not sound.
pub open spec fn monophonic_replay(cur: int, events: Seq<Action>) -> Option<int>
    decreases events.len(),
{
    if events.len() == 0 {
        Some(cur)
    } else {
        let rest = events.drop_first();
        match events[0] {
            Action::NoteOn(n, _) => if cur == 0 && n > 0 {
                monophonic_replay(n as int, rest)
            } else {
                None
            },
            Action::NoteOff(n) => if cur > 0 && n == cur {
                monophonic_replay(0, rest)
            } else {
                None
            },
            _ => monophonic_replay(cur, rest),
        }
    }
}

/// Final sounding note and all events of a run of inputs from sounding note `s`.
pub open spec fn trigger_run(s: i32, inputs: Seq<(Option<i32>, i32)>) -> (i32, Seq<Action>)
    decreases inputs.len(),
{
    if inputs.len() == 0 {
        (s, seq![])
    } else {
        let (s1, out1) = trigger_step(s, inputs[0].0, inputs[0].1);
        let (s2, out2) = trigger_run(s1, inputs.drop_first());
        (s2, out1 + out2)
    }
}

/// Replaying two streams one after the other is replaying their concatenation.
pub proof fn lemma_replay_concat(cur: int, x: Seq<Action>, y: Seq<Action>)
    ensures
        monophonic_replay(cur, x + y) == (match monophonic_replay(cur, x) {
            Some(c) => monophonic_replay(c, y),
            None => None,
        }),
    decreases x.len(),
{
    if x.len() == 0 {
        assert(x + y =~= y);
    } else {
        assert((x + y).drop_first() =~= x.drop_first() + y);
        match x[0] {
            Action::NoteOn(n, _) => lemma_replay_concat(n as int, x.drop_first(), y),
            Action::NoteOff(n) => lemma_replay_concat(0, x.drop_first(), y),
            _ => lemma_replay_concat(cur, x.drop_first(), y),
        }
    }
}

/// The events of one input are well sequenced from the sounding note.
pub proof fn lemma_step_monophonic(s: i32, desired: Option<i32>, volume: i32)
    requires
        s >= 0,
    ensures
        trigger_step(s, desired, volume).0 >= 0,
        monophonic_replay(s as int, trigger_step(s, desired, volume).1) == Some(
            trigger_step(s, desired, volume).0 as int,
        ),
{
    reveal_with_fuel(monophonic_replay, 5);
    let (s1, out) = trigger_step(s, desired, volume);
    let n = desired->0;
    if volume > 0 && desired is Some && n != s && s > 0 {
        let release = seq![Action::Volume(0), Action::NoteOff(s), Action::Volume(volume)];
        assert(release.drop_first().drop_first() =~= seq![Action::Volume(volume)]);
        assert(release.push(Action::NoteOn(n, VELOCITY)).drop_first() =~= seq![
            Action::NoteOff(s),
            Action::Volume(volume),
            Action::NoteOn(n, VELOCITY),
        ]);
        assert(seq![Action::NoteOff(s), Action::Volume(volume), Action::NoteOn(n, VELOCITY)].drop_first()
            =~= seq![Action::Volume(volume), Action::NoteOn(n, VELOCITY)]);
        assert(seq![Action::Volume(volume), Action::NoteOn(n, VELOCITY)].drop_first() =~= seq![
            Action::NoteOn(n, VELOCITY),
        ]);
        assert(seq![Action::NoteOn(n, VELOCITY)].drop_first() =~= Seq::<Action>::empty());
        assert(release.drop_first() =~= seq![Action::NoteOff(s), Action::Volume(volume)]);
        assert(seq![Action::Volume(volume)].drop_first() =~= Seq::<Action>::empty());
    } else if volume > 0 && desired is Some && n != s && n > 0 {
        assert(seq![].push(Action::NoteOn(n, VELOCITY)) =~= seq![Action::NoteOn(n, VELOCITY)]);
        assert(seq![Action::NoteOn(n, VELOCITY)].drop_first() =~= Seq::<Action>::empty());
    } else if volume <= 0 && s > 0 {
        assert(seq![Action::NoteOff(s)].drop_first() =~= Seq::<Action>::empty());
    }
}

/// Monophony: whatever inputs a trigger is fed, starting from silence or a
/// sounding note, no note starts while another sounds and only the sounding
/// note is ever released; the events leave the trigger's own sounding note.
pub proof fn law_monophony(start: i32, inputs: Seq<(Option<i32>, i32)>)
    requires
        start >= 0,
    ensures
        trigger_run(start, inputs).0 >= 0,
        monophonic_replay(start as int, trigger_run(start, inputs).1) == Some(
            trigger_run(start, inputs).0 as int,
        ),
    decreases inputs.len(),
{
    if inputs.len() > 0 {
        let (s1, out1) = trigger_step(start, inputs[0].0, inputs[0].1);
        lemma_step_monophonic(start, inputs[0].0, inputs[0].1);
        law_monophony(s1, inputs.drop_first());
        let (s2, out2) = trigger_run(s1, inputs.drop_first());
        lemma_replay_concat(start as int, out1, out2);
    }
}

/// Tracks the one note that sounds (0 for silence).
pub struct NoteTrigger {
    sounding: i32,
}

impl NoteTrigger {
    pub closed spec fn sounding_spec(&self) -> i32 {
        self.sounding
    }

    pub open spec fn wf(&self) -> bool {
        self.sounding_spec() >= 0
    }

    pub fn new() -> (r: NoteTrigger)
        ensures
            r.sounding_spec() == 0,
            r.wf(),
    {
        NoteTrigger { sounding: 0 }
    }

    /// The note that sounds, 0 for silence.
    pub fn sounding(&self) -> (r: i32)
        ensures
            r == self.sounding_spec(),
    {
        self.sounding
    }

    /// Feeds a run of inputs in order (see `trigger_run`); the events form a
    /// monophonic stream that leaves the new sounding note.
    pub fn process_all(&mut self, inputs: &Vec<(Option<i32>, i32)>) -> (r: Vec<Action>)
        requires
            old(self).wf(),
        ensures
            final(self).wf(),
            (final(self).sounding_spec(), r@) == trigger_run(old(self).sounding_spec(), inputs@),
            monophonic_replay(old(self).sounding_spec() as int, r@) == Some(
                final(self).sounding_spec() as int,
            ),
    {
        let ghost s0 = self.sounding_spec();
        let mut out: Vec<Action> = Vec::new();
        let mut i: usize = 0;
        proof {
            assert(inputs@.skip(0) =~= inputs@);
            assert(out@ + trigger_run(s0, inputs@).1 =~= trigger_run(s0, inputs@).1);
        }
        while i < inputs.len()
            invariant
                self.wf(),
                i <= inputs@.len(),
                trigger_run(s0, inputs@) == (
                    trigger_run(self.sounding_spec(), inputs@.skip(i as int)).0,
                    out@ + trigger_run(self.sounding_spec(), inputs@.skip(i as int)).1,
                ),
            decreases inputs@.len() - i,
        {
            let ghost s = self.sounding_spec();
            let ghost rest = inputs@.skip(i as int);
            let (desired, volume) = inputs[i];
            let mut step = self.process(desired, volume);
            proof {
                assert(rest.drop_first() =~= inputs@.skip(i + 1));
                assert(rest[0] == inputs@[i as int]);
                let (s2, out2) = trigger_run(self.sounding_spec(), inputs@.skip(i + 1));
                assert(out@ + trigger_run(s, rest).1 =~= out@ + step@ + out2);
            }
            out.append(&mut step);
            i += 1;
        }
        proof {
            assert(inputs@.skip(i as int) =~= Seq::<(Option<i32>, i32)>::empty());
            assert(out@ + Seq::<Action>::empty() =~= out@);
            law_monophony(s0, inputs@);
        }
        out
    }

    /// Feeds one tick's desired note and volume (see `trigger_step`).
    pub fn process(&mut self, desired: Option<i32>, volume: i32) -> (r: Vec<Action>)
        requires
            old(self).wf(),
        ensures
            final(self).wf(),
            (final(self).sounding_spec(), r@) == trigger_step(old(self).sounding_spec(), desired, volume),
    {
        let mut out: Vec<Action> = Vec::new();
        if volume <= 0 {
            if self.sounding > 0 {
                out.push(Action::NoteOff(self.sounding));
                self.sounding = 0;
            }
            return out;
        }
        if let Some(n) = desired {
            if n != self.sounding {
                if self.sounding > 0 {
                    out.push(Action::Volume(0));
                    out.push(Action::NoteOff(self.sounding));
                    out.push(Action::Volume(volume));
                }
                if n > 0 {
                    out.push(Action::NoteOn(n, VELOCITY));
                    self.sounding = n;
                } else {
                    self.sounding = 0;
                }
            }
        }
        proof {
            let ghost s = old(self).sounding_spec();
            let ghost n = desired->0;
            if desired is Some && n != s && s > 0 {
                if n > 0 {
                    assert(out@ =~= seq![Action::Volume(0), Action::NoteOff(s), Action::Volume(volume)].push(Action::NoteOn(n, VELOCITY)));
                } else {
                    assert(out@ =~= seq![Action::Volume(0), Action::NoteOff(s), Action::Volume(volume)]);
                }
            } else if desired is Some && n != s && n > 0 {
                assert(out@ =~= seq![].push(Action::NoteOn(n, VELOCITY)));
            } else {
                assert(out@ =~= seq![]);
            }
        }
        out
    }
}

} // verus!
