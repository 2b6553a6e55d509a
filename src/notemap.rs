//! The fingering table: a map from key bitmask to concert pitch, the transpose
//! offset applied on lookup, its text form, and the interactive protocol that
//! records fingerings against the reference note list.

use std::collections::BTreeMap;

use vstd::prelude::*;

use crate::action::Action;
use crate::midinotes::{self, index_of_pitch, name_at, pitch_at, NOTE_COUNT};

verus! {

broadcast use vstd::laws_cmp::group_laws_cmp, vstd::std_specs::btree::group_btree_axioms;

/// Breath above this records the current fingering.
pub const BLOW_THRESHOLD: i32 = 10;

/// Suck below this steps back or skips while recording.
pub const SUCK_THRESHOLD: i32 = -10;

/// Guard pause after a recorded fingering, in milliseconds.
pub const RECORD_GUARD_MS: u32 = 250;

/// Guard pause after a suck while recording, in milliseconds.
pub const BACK_GUARD_MS: u32 = 1000;

/// The text that serde_json writes for a table (pretty-printed JSON object
/// whose keys are the decimal bitmasks).
pub uninterp spec fn pretty_json(m: Map<u32, i32>) -> Seq<char>;

/// The table that serde_json reads from a text, if it reads one.
pub uninterp spec fn parsed_table(s: Seq<char>) -> Option<Map<u32, i32>>;

/// Relies on serde_json::to_string_pretty for the text of the table (it
/// fails only on a failing `Serialize` impl or a non-string map key, and a
/// `u32` key is written as a quoted decimal), and on serde_json::from_str
/// reading that text back as the same table.
#[verifier::external_body]
fn encode_table(m: &BTreeMap<u32, i32>) -> (r: Option<String>)
    ensures
        r is Some,
        r matches Some(s) ==> s@ == pretty_json(m@) && parsed_table(s@) == Some(m@),
{
    serde_json::to_string_pretty(m).ok()
}

/// Relies on serde_json::from_str to read a table from its text.
#[verifier::external_body]
fn decode_table(s: &str) -> (r: Option<BTreeMap<u32, i32>>)
    ensures
        match parsed_table(s@) {
            Some(m) => r matches Some(t) && t@ == m,
            None => r is None,
        },
{
    serde_json::from_str(s).ok()
}

/// The table held by a text: what it parses to, or the empty table.
pub open spec fn loaded_table(s: Seq<char>) -> Map<u32, i32> {
    match parsed_table(s) {
        Some(m) => m,
        None => Map::empty(),
    }
}

/// Round trip: the text that `save` returns for a table (by its ensures, the
/// pretty JSON of the table, which reads back as the table) loads, through
/// `generate`, as exactly that table.
pub proof fn law_save_reload(table: Map<u32, i32>, text: Seq<char>)
    requires
        text == pretty_json(table),
        parsed_table(text) == Some(table),
    ensures
        loaded_table(text) == table,
{
}

/// `v + t` where it fits an `i32`.
pub open spec fn shifted(v: int, t: int) -> Option<i32> {
    if i32::MIN <= v + t <= i32::MAX {
        Some((v + t) as i32)
    } else {
        None
    }
}

/// Abstract state of a fingering table.
pub struct NoteMapView {
    pub table: Map<u32, i32>,
    pub transpose: i32,
    pub recording: bool,
    pub index: int,
    pub last_keys: u32,
    pub last_recorded: u32,
    pub advance: bool,
}

pub struct NoteMap {
    recording: bool,
    recording_index: usize,
    last_keys: u32,
    last_recorded: u32,
    record_next: bool,
    notemap: BTreeMap<u32, i32>,
    pub transpose: i32,
}

impl View for NoteMap {
    type V = NoteMapView;

    closed spec fn view(&self) -> NoteMapView {
        NoteMapView {
            table: self.notemap@,
            transpose: self.transpose,
            recording: self.recording,
            index: self.recording_index as int,
            last_keys: self.last_keys,
            last_recorded: self.last_recorded,
            advance: self.record_next,
        }
    }
}

/// The recording index always designates an entry of the reference list.
pub open spec fn view_wf(v: NoteMapView) -> bool {
    0 <= v.index < NOTE_COUNT
}

/// Blowing on a fingering not recorded last stores it for the current entry.
pub open spec fn record_blow(v: NoteMapView, keys: u32, pressure: i32) -> (NoteMapView, Seq<Action>) {
    if pressure > BLOW_THRESHOLD && v.last_recorded != keys {
        (
            NoteMapView {
                table: v.table.insert(keys, pitch_at(v.index) as i32),
                last_recorded: keys,
                advance: true,
                ..v
            },
            seq![Action::Recorded(keys, v.index as usize), Action::Persist, Action::Pause(RECORD_GUARD_MS)],
        )
    } else {
        (v, seq![])
    }
}

/// An armed advance moves to the next entry, or ends recording after the last.
pub open spec fn record_advance(v: NoteMapView) -> (NoteMapView, Seq<Action>) {
    if !v.advance {
        (v, seq![])
    } else if v.index + 1 == NOTE_COUNT {
        (NoteMapView { recording: false, index: 0, advance: false, ..v }, seq![Action::RecordingDone])
    } else {
        (
            NoteMapView { index: v.index + 1, advance: false, ..v },
            seq![Action::NextTarget((v.index + 1) as usize)],
        )
    }
}

/// A suck steps back one entry with keys held, or arms a skip with none.
pub open spec fn record_suck(v: NoteMapView, keys: u32, pressure: i32) -> (NoteMapView, Seq<Action>) {
    if pressure >= SUCK_THRESHOLD {
        (v, seq![])
    } else if keys == 0 {
        (NoteMapView { advance: true, ..v }, seq![Action::Pause(BACK_GUARD_MS)])
    } else if v.index > 0 {
        (
            NoteMapView { index: v.index - 1, ..v },
            seq![Action::BackTo((v.index - 1) as usize), Action::Pause(BACK_GUARD_MS)],
        )
    } else {
        (v, seq![Action::Pause(BACK_GUARD_MS)])
    }
}

/// A new fingering at neutral pressure is announced to the player.
pub open spec fn record_prompt(v: NoteMapView, keys: u32, pressure: i32) -> (NoteMapView, Seq<Action>) {
    if keys == v.last_keys {
        (v, seq![])
    } else if SUCK_THRESHOLD < pressure < BLOW_THRESHOLD {
        (NoteMapView { last_keys: keys, ..v }, seq![Action::Prompt(keys, v.index as usize)])
    } else {
        (NoteMapView { last_keys: keys, ..v }, seq![])
    }
}

/// One tick of the recording protocol: blow, advance, suck, prompt, in turn.
pub open spec fn record_spec(v: NoteMapView, keys: u32, pressure: i32) -> (NoteMapView, Seq<Action>) {
    let (v1, a1) = record_blow(v, keys, pressure);
    let (v2, a2) = record_advance(v1);
    let (v3, a3) = record_suck(v2, keys, pressure);
    let (v4, a4) = record_prompt(v3, keys, pressure);
    (v4, a1 + a2 + a3 + a4)
}

impl NoteMap {
    pub open spec fn wf(&self) -> bool {
        view_wf(self@)
    }

    /// The table held by `contents` (empty where it does not parse), with the
    /// given transpose offset and recording off.
    pub fn generate(contents: &str, transpose: i32) -> (r: NoteMap)
        ensures
            r.wf(),
            r@.table == loaded_table(contents@),
            r@.transpose == transpose,
            !r@.recording,
            r@.index == 0,
            r@.last_keys == 0,
            r@.last_recorded == 0,
            !r@.advance,
    {
        let notemap = match decode_table(contents) {
            Some(t) => t,
            None => BTreeMap::new(),
        };
        NoteMap {
            recording: false,
            recording_index: 0,
            last_keys: 0,
            last_recorded: 0,
            record_next: false,
            notemap,
            transpose,
        }
    }

    /// An empty table with the given transpose offset and recording off, for
    /// an instrument whose table cannot be read.
    pub fn empty(transpose: i32) -> (r: NoteMap)
        ensures
            r.wf(),
            r@.table == Map::<u32, i32>::empty(),
            r@.transpose == transpose,
            !r@.recording,
            r@.index == 0,
            r@.last_keys == 0,
            r@.last_recorded == 0,
            !r@.advance,
    {
        NoteMap {
            recording: false,
            recording_index: 0,
            last_keys: 0,
            last_recorded: 0,
            record_next: false,
            notemap: BTreeMap::new(),
            transpose,
        }
    }

    /// The text form of the table, to be written to the backing store.
    pub fn save(&self) -> (r: String)
        ensures
            r@ == pretty_json(self@.table),
            parsed_table(r@) == Some(self@.table),
    {
        match encode_table(&self.notemap) {
            Some(s) => s,
            None => String::new(),
        }
    }

    /// The note a fingering plays: its concert pitch plus the transpose offset.
    pub fn get(&self, key: &u32) -> (r: Option<i32>)
        ensures
            r == (if self@.table.contains_key(*key) {
                shifted(self@.table[*key] as int, self@.transpose as int)
            } else {
                None
            }),
    {
        match self.notemap.get(key) {
            Some(v) => {
                let sum: i64 = *v as i64 + self.transpose as i64;
                if i32::MIN as i64 <= sum && sum <= i32::MAX as i64 {
                    Some(sum as i32)
                } else {
                    None
                }
            },
            None => None,
        }
    }

    /// The concert pitch stored for a fingering.
    pub fn get_untransposed(&self, key: &u32) -> (r: Option<i32>)
        ensures
            r == (if self@.table.contains_key(*key) {
                Some(self@.table[*key])
            } else {
                None
            }),
    {
        match self.notemap.get(key) {
            Some(v) => Some(*v),
            None => None,
        }
    }

    /// The reference name of a played note, after removing the transpose offset.
    pub fn get_name(&self, note: &i32) -> (r: Option<&'static str>)
        ensures
            match index_of_pitch(*note - self@.transpose) {
                Some(i) => r matches Some(s) && s@ == name_at(i),
                None => r is None,
            },
    {
        let concert: i64 = *note as i64 - self.transpose as i64;
        if i32::MIN as i64 <= concert && concert <= i32::MAX as i64 {
            midinotes::get_name(concert as i32)
        } else {
            None
        }
    }

    pub fn start_recording(&mut self)
        ensures
            final(self)@ == (NoteMapView { recording: true, ..old(self)@ }),
            final(self).wf() == old(self).wf(),
    {
        self.recording = true;
    }

    pub fn is_recording(&self) -> (r: bool)
        ensures
            r == self@.recording,
    {
        self.recording
    }

    /// One tick of the recording protocol (see `record_spec`): returns the
    /// messages, pauses and persistence requests it makes, in order.
    pub fn record(&mut self, keys: u32, pressure: i32) -> (r: Vec<Action>)
        requires
            old(self).wf(),
        ensures
            final(self).wf(),
            (final(self)@, r@) == record_spec(old(self)@, keys, pressure),
    {
        let ghost v0 = self@;
        let mut out: Vec<Action> = Vec::new();
        if pressure > BLOW_THRESHOLD && self.last_recorded != keys {
            let pitch = midinotes::note_pitch(self.recording_index);
            self.insert(keys, pitch);
            self.last_recorded = keys;
            out.push(Action::Recorded(keys, self.recording_index));
            out.push(Action::Persist);
            out.push(Action::Pause(RECORD_GUARD_MS));
            self.record_next = true;
        }
        let ghost v1 = self@;
        let ghost a1 = out@;
        assert((v1, a1) == record_blow(v0, keys, pressure));

        if self.record_next {
            self.recording_index += 1;
            self.record_next = false;
            if self.recording_index == NOTE_COUNT {
                self.recording = false;
                self.recording_index = 0;
                out.push(Action::RecordingDone);
            } else {
                out.push(Action::NextTarget(self.recording_index));
            }
        }
        let ghost v2 = self@;
        let ghost a2 = out@.skip(a1.len() as int);
        assert(out@ =~= a1 + a2);
        assert((v2, a2) == record_advance(v1));

        if pressure < SUCK_THRESHOLD {
            if self.recording_index > 0 && keys > 0 {
                self.recording_index -= 1;
                out.push(Action::BackTo(self.recording_index));
            }
            if keys == 0 {
                self.record_next = true;
            }
            out.push(Action::Pause(BACK_GUARD_MS));
        }
        let ghost v3 = self@;
        let ghost a3 = out@.skip((a1.len() + a2.len()) as int);
        assert(out@ =~= a1 + a2 + a3);
        assert((v3, a3) == record_suck(v2, keys, pressure));

        if keys != self.last_keys {
            if pressure < BLOW_THRESHOLD && pressure > SUCK_THRESHOLD {
                out.push(Action::Prompt(keys, self.recording_index));
            }
            self.last_keys = keys;
        }
        let ghost a4 = out@.skip((a1.len() + a2.len() + a3.len()) as int);
        assert(out@ =~= a1 + a2 + a3 + a4);
        assert((self@, a4) == record_prompt(v3, keys, pressure));
        out
    }

    /// The transpose offset.
    pub fn transpose(&self) -> (r: i32)
        ensures
            r == self@.transpose,
    {
        self.transpose
    }

    /// Replaces the transpose offset.
    pub fn set_transpose(&mut self, transpose: i32)
        ensures
            final(self)@ == (NoteMapView { transpose, ..old(self)@ }),
            final(self).wf() == old(self).wf(),
    {
        self.transpose = transpose;
    }

    /// Stores `value` as the concert pitch of fingering `key`.
    pub fn insert(&mut self, key: u32, value: i32)
        ensures
            final(self)@ == (NoteMapView { table: old(self)@.table.insert(key, value), ..old(self)@ }),
            final(self).wf() == old(self).wf(),
    {
        self.notemap.insert(key, value);
    }

    /// Forgets fingering `key`.
    pub fn remove(&mut self, key: &u32)
        ensures
            final(self)@ == (NoteMapView { table: old(self)@.table.remove(*key), ..old(self)@ }),
            final(self).wf() == old(self).wf(),
    {
        self.notemap.remove(key);
    }
}

} // verus!
