use haxo::action::Action;
use haxo::midinotes::{get_name, note_name, note_pitch, NOTE_COUNT};
use haxo::notemap::NoteMap;

#[test]
fn update() {
    let mut notemap = NoteMap::generate("{}", 0);
    notemap.insert(1234567, 66);
    let text = notemap.save();
    let notemap2 = NoteMap::generate(&text, 0);
    assert_eq!(notemap2.get(&1234567), Some(66));
    notemap.remove(&1234567);
    let text = notemap.save();
    let notemap2 = NoteMap::generate(&text, 0);
    assert_eq!(notemap2.get(&1234567), None);
}

#[test]
fn save_writes_pretty_json() {
    let mut notemap = NoteMap::generate("{}", 0);
    notemap.insert(528, 58);
    notemap.insert(512, 59);
    assert_eq!(notemap.save(), "{\n  \"512\": 59,\n  \"528\": 58\n}");
}

#[test]
fn save_reload_keeps_every_entry() {
    let mut notemap = NoteMap::generate("{}", 3);
    let pairs = [(0u32, 0i32), (528, 58), (656548352, 46), (u32::MAX, -1), (7, i32::MIN)];
    for (k, v) in pairs {
        notemap.insert(k, v);
    }
    let text = notemap.save();
    let reloaded = NoteMap::generate(&text, 3);
    for (k, v) in pairs {
        assert_eq!(reloaded.get_untransposed(&k), Some(v));
    }
    assert_eq!(reloaded.get_untransposed(&1), None);
    assert_eq!(reloaded.save(), text);
}

#[test]
fn generate_reads_table_text() {
    let notemap = NoteMap::generate("{\"528\": 58, \"8192\": 60}", 0);
    assert_eq!(notemap.get_untransposed(&528), Some(58));
    assert_eq!(notemap.get_untransposed(&8192), Some(60));
    assert_eq!(notemap.get_untransposed(&512), None);
    assert!(!notemap.is_recording());
}

#[test]
fn generate_corrupt_text_is_empty() {
    let notemap = NoteMap::generate("not json at all", -14);
    assert_eq!(notemap.get(&528), None);
    assert_eq!(notemap.transpose(), -14);
    let notemap = NoteMap::generate("", 0);
    assert_eq!(notemap.get_untransposed(&0), None);
}

#[test]
fn empty_table() {
    let notemap = NoteMap::empty(-14);
    assert_eq!(notemap.get(&0), None);
    assert_eq!(notemap.transpose(), -14);
    assert!(!notemap.is_recording());
    assert_eq!(notemap.save(), "{}");
}

#[test]
fn transposed_lookup() {
    let notemap = NoteMap::generate("{\"528\": 58}", -14);
    assert_eq!(notemap.get(&528), Some(44));
    assert_eq!(notemap.get_untransposed(&528), Some(58));
    assert_eq!(notemap.get(&529), None);
}

#[test]
fn lookup_that_overflows_plays_nothing() {
    let mut notemap = NoteMap::generate("{}", i32::MAX);
    notemap.insert(1, 5);
    assert_eq!(notemap.get(&1), None);
    notemap.set_transpose(-5);
    assert_eq!(notemap.get(&1), Some(0));
}

#[test]
fn name_of_transposed_note() {
    let notemap = NoteMap::generate("{}", -14);
    assert_eq!(notemap.get_name(&44), Some("Low Bb"));
    assert_eq!(notemap.get_name(&(90 - 14)), Some("High F#"));
    assert_eq!(notemap.get_name(&43), None);
    assert_eq!(notemap.get_name(&i32::MAX), None);
}

#[test]
fn reference_list_names() {
    assert_eq!(get_name(58), Some("Low Bb"));
    assert_eq!(get_name(59), Some("Low B"));
    assert_eq!(get_name(72), Some("Mid C"));
    assert_eq!(get_name(90), Some("High F#"));
    assert_eq!(get_name(57), None);
    assert_eq!(get_name(91), None);
    assert_eq!(NOTE_COUNT, 33);
    assert_eq!(note_pitch(26), 84);
    assert_eq!(note_name(26), "High C");
}

#[test]
fn recording_first_note() {
    let mut notemap = NoteMap::generate("{}", 0);
    notemap.start_recording();
    assert!(notemap.is_recording());
    let out = notemap.record(528, 15);
    assert_eq!(notemap.get_untransposed(&528), Some(58));
    assert_eq!(
        out,
        vec![
            Action::Recorded(528, 0),
            Action::Persist,
            Action::Pause(250),
            Action::NextTarget(1),
        ]
    );
    let text = notemap.save();
    assert_eq!(NoteMap::generate(&text, 0).get_untransposed(&528), Some(58));
    // the next blow on another fingering records the second entry
    let out = notemap.record(512, 15);
    assert_eq!(notemap.get_untransposed(&512), Some(59));
    assert_eq!(out[0], Action::Recorded(512, 1));
    assert_eq!(out[3], Action::NextTarget(2));
}

#[test]
fn recording_same_fingering_twice_is_ignored() {
    let mut notemap = NoteMap::generate("{}", 0);
    notemap.start_recording();
    notemap.record(528, 15);
    let out = notemap.record(528, 15);
    assert_eq!(out, vec![]);
    assert_eq!(notemap.get_untransposed(&528), Some(58));
}

#[test]
fn recording_suck_goes_back_or_skips() {
    let mut notemap = NoteMap::generate("{}", 0);
    notemap.start_recording();
    notemap.record(528, 15);
    // suck with keys held: back to the first entry
    let out = notemap.record(528, -15);
    assert_eq!(out, vec![Action::BackTo(0), Action::Pause(1000)]);
    // blowing a new fingering records an alternate for the first entry
    notemap.record(544, 15);
    assert_eq!(notemap.get_untransposed(&544), Some(58));
    // suck with no keys arms a skip, taken on the next tick
    let out = notemap.record(0, -15);
    assert_eq!(out, vec![Action::Pause(1000)]);
    let out = notemap.record(0, 0);
    assert_eq!(out, vec![Action::NextTarget(2)]);
}

#[test]
fn recording_ends_after_last_entry() {
    let mut notemap = NoteMap::generate("{}", 0);
    notemap.start_recording();
    for i in 0..NOTE_COUNT {
        let out = notemap.record(i as u32 + 1, 15);
        if i + 1 == NOTE_COUNT {
            assert!(out.contains(&Action::RecordingDone));
        }
    }
    assert!(!notemap.is_recording());
    assert_eq!(notemap.get_untransposed(&33), Some(90));
    assert_eq!(notemap.get_untransposed(&1), Some(58));
}

#[test]
fn recording_prompts_on_neutral_fingering_change() {
    let mut notemap = NoteMap::generate("{}", 0);
    notemap.start_recording();
    assert_eq!(notemap.record(512, 0), vec![Action::Prompt(512, 0)]);
    assert_eq!(notemap.record(512, 0), vec![]);
    assert_eq!(notemap.record(8192, 5), vec![Action::Prompt(8192, 0)]);
}
