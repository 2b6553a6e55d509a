use haxo::action::{Action, Mode};
use haxo::commands::{key2cmdkey, Command, CommandKey};
use haxo::engine::Engine;
use haxo::notemap::NoteMap;
use haxo::transpose::{get_cmd, Transpose, TransposeCmd};
use haxo::trigger::NoteTrigger;

const CHANGE_BANK: u32 = 0x10000;
const ENTER: u32 = 0x400000;
const DIGIT_1: u32 = 0x200;
const DIGIT_2: u32 = 0x2000;
const DIGIT_3: u32 = 0x20000;

/// Checks that no note starts while another sounds and only the sounding note stops.
fn assert_monophonic(events: &[Action]) {
    let mut sounding = 0;
    for e in events {
        match *e {
            Action::NoteOn(n, _) => {
                assert_eq!(sounding, 0, "note {} started over {}", n, sounding);
                sounding = n;
            }
            Action::NoteOff(n) => {
                assert_eq!(n, sounding);
                sounding = 0;
            }
            _ => {}
        }
    }
}

#[test]
fn trigger_first_note_and_change() {
    let mut t = NoteTrigger::new();
    assert_eq!(t.process(Some(60), 20), vec![Action::NoteOn(60, 127)]);
    assert_eq!(t.sounding(), 60);
    assert_eq!(t.process(Some(60), 30), vec![]);
    assert_eq!(
        t.process(Some(62), 30),
        vec![Action::Volume(0), Action::NoteOff(60), Action::Volume(30), Action::NoteOn(62, 127)]
    );
    assert_eq!(t.process(None, 30), vec![]);
    assert_eq!(t.sounding(), 62);
    assert_eq!(t.process(Some(64), 0), vec![Action::NoteOff(62)]);
    assert_eq!(t.sounding(), 0);
    assert_eq!(t.process(None, 0), vec![]);
}

#[test]
fn trigger_silence_note_releases() {
    let mut t = NoteTrigger::new();
    t.process(Some(60), 20);
    assert_eq!(
        t.process(Some(0), 20),
        vec![Action::Volume(0), Action::NoteOff(60), Action::Volume(20)]
    );
    assert_eq!(t.sounding(), 0);
    assert_eq!(t.process(Some(-1), 20), vec![]);
}

#[test]
fn trigger_monophonic_stream() {
    let mut t = NoteTrigger::new();
    let inputs = [
        (Some(60), 10),
        (Some(62), 12),
        (None, 12),
        (Some(62), 0),
        (Some(64), 5),
        (Some(0), 5),
        (Some(65), 5),
        (Some(-1), 3),
        (Some(67), 9),
        (None, -4),
        (Some(67), 9),
        (Some(69), 9),
    ];
    let mut all = Vec::new();
    for (n, v) in inputs {
        all.extend(t.process(n, v));
    }
    assert_monophonic(&all);
    assert_eq!(all.iter().filter(|e| matches!(e, Action::NoteOn(..))).count(), 7);
    let mut batch = NoteTrigger::new();
    assert_eq!(batch.process_all(&inputs.to_vec()), all);
    assert_eq!(batch.sounding(), t.sounding());
}

#[test]
fn command_keys() {
    assert_eq!(key2cmdkey(CHANGE_BANK), CommandKey::ChangeBank);
    assert_eq!(key2cmdkey(ENTER), CommandKey::Enter);
    assert_eq!(key2cmdkey(DIGIT_3), CommandKey::Digit(3));
    assert_eq!(key2cmdkey(0x10), CommandKey::Digit(0));
    assert_eq!(key2cmdkey(0), CommandKey::Unmapped);
    assert_eq!(key2cmdkey(0x124), CommandKey::Unmapped);
}

#[test]
fn command_types_program_number() {
    let mut c = Command::new(67);
    for k in [CHANGE_BANK, DIGIT_1, DIGIT_2, DIGIT_3] {
        assert_eq!(c.process(k), vec![]);
    }
    assert!(c.is_armed());
    assert_eq!(c.value(), 123);
    let out = c.process(ENTER);
    assert_eq!(out[0], Action::ProgramChange(123));
    assert_eq!(c.prog_number(), 123);
    assert!(!c.is_armed());
}

#[test]
fn command_ignores_repeats_and_extra_digits() {
    let mut c = Command::new(0);
    c.process(CHANGE_BANK);
    c.process(DIGIT_1);
    c.process(DIGIT_1);
    assert_eq!(c.value(), 1);
    for k in [0, DIGIT_1, DIGIT_2, 0, DIGIT_2, DIGIT_1, DIGIT_3] {
        c.process(k);
    }
    // only four digits are kept
    assert_eq!(c.value(), 1122);
    c.process(ENTER);
    // above the highest program the highest is chosen
    assert_eq!(c.prog_number(), 127);
}

#[test]
fn command_enter_without_command_does_nothing() {
    let mut c = Command::new(5);
    assert_eq!(c.process(DIGIT_1), vec![]);
    assert_eq!(c.process(ENTER), vec![]);
    assert_eq!(c.prog_number(), 5);
}

#[test]
fn transpose_command_of_input() {
    let notemap = NoteMap::generate("{\"8192\": 60}", 0);
    assert_eq!(get_cmd(8192, 11, &notemap), TransposeCmd::Direct(60));
    assert_eq!(get_cmd(8192, 10, &notemap), TransposeCmd::Idle);
    assert_eq!(get_cmd(0x10000, 0, &notemap), TransposeCmd::HalfStepUp);
    assert_eq!(get_cmd(0x400000, 50, &notemap), TransposeCmd::HalfStepDown);
    assert_eq!(get_cmd(3, 50, &notemap), TransposeCmd::Idle);
}

#[test]
fn transpose_half_step_applied_once() {
    let mut notemap = NoteMap::generate("{}", -14);
    let mut t = Transpose::new(5);
    for _ in 0..5 {
        assert_eq!(t.process(0x10000, 0, &mut notemap), vec![]);
        assert_eq!(notemap.transpose(), -14);
    }
    let out = t.process(0x10000, 0, &mut notemap);
    assert_eq!(notemap.transpose(), -13);
    assert_eq!(
        out,
        vec![Action::Tone(84, 127, 50), Action::Pause(100), Action::Tone(71, 127, 50)]
    );
    for _ in 0..20 {
        assert_eq!(t.process(0x10000, 0, &mut notemap), vec![]);
    }
    assert_eq!(notemap.transpose(), -13);
}

#[test]
fn transpose_half_step_down_after_release() {
    let mut notemap = NoteMap::generate("{}", 0);
    let mut t = Transpose::new(1);
    t.process(0x400000, 0, &mut notemap);
    t.process(0x400000, 0, &mut notemap);
    assert_eq!(notemap.transpose(), -1);
    t.process(0, 0, &mut notemap);
    t.process(0x400000, 0, &mut notemap);
    t.process(0x400000, 0, &mut notemap);
    assert_eq!(notemap.transpose(), -2);
}

#[test]
fn transpose_direct_from_played_note() {
    let mut notemap = NoteMap::generate("{\"8192\": 60}", 0);
    let mut t = Transpose::new(3);
    for _ in 0..4 {
        t.process(8192, 15, &mut notemap);
    }
    assert_eq!(notemap.transpose(), -24);
    assert_eq!(notemap.get(&8192), Some(36));
}

fn engine_with(table: &str, suck_ticks: u32) -> Engine {
    Engine::new(NoteMap::generate(table, 0), 67, 2, suck_ticks)
}

#[test]
fn engine_plays_fingering() {
    let mut e = engine_with("{\"528\": 58, \"512\": 59}", 5);
    assert_eq!(e.tick(528, 20), vec![Action::Volume(20), Action::NoteOn(58, 127)]);
    assert_eq!(e.sounding(), 58);
    assert_eq!(e.tick(528, 20), vec![]);
    assert_eq!(
        e.tick(512, 20),
        vec![Action::Volume(0), Action::NoteOff(58), Action::Volume(20), Action::NoteOn(59, 127)]
    );
    assert_eq!(e.tick(512, 0), vec![Action::Volume(0), Action::NoteOff(59)]);
    assert_eq!(e.mode(), Mode::Play);
}

#[test]
fn engine_sustained_suck_enters_control_once() {
    let mut e = engine_with("{\"528\": 58}", 5);
    for _ in 0..4 {
        e.tick(528, -20);
        assert_eq!(e.mode(), Mode::Play);
    }
    let out = e.tick(528, -20);
    assert_eq!(e.mode(), Mode::Control);
    assert_eq!(out.last(), Some(&Action::ModeChanged(Mode::Control)));
    // back to Play with the release chord; a continuing suck does not fire again
    e.tick(0x124, -20);
    assert_eq!(e.mode(), Mode::Play);
    for _ in 0..10 {
        e.tick(528, -20);
        assert_eq!(e.mode(), Mode::Play);
    }
}

#[test]
fn engine_short_suck_stays_in_play() {
    let mut e = engine_with("{\"528\": 58}", 5);
    for _ in 0..3 {
        for _ in 0..4 {
            e.tick(528, -20);
        }
        e.tick(528, 0);
        assert_eq!(e.mode(), Mode::Play);
    }
}

#[test]
fn engine_sustained_suck_on_low_b_enters_transpose() {
    let mut e = engine_with("{\"528\": 58, \"512\": 59}", 2);
    e.tick(512, -20);
    let out = e.tick(512, -20);
    assert_eq!(e.mode(), Mode::Transpose);
    assert_eq!(out.last(), Some(&Action::ModeChanged(Mode::Transpose)));
    // in Transpose mode no notes are played
    e.tick(528, 20);
    assert_eq!(e.sounding(), 0);
    e.tick(0x124, 0);
    assert_eq!(e.mode(), Mode::Play);
}

#[test]
fn engine_control_mode_changes_program() {
    let mut e = engine_with("{\"528\": 58}", 1);
    e.tick(528, -20);
    assert_eq!(e.mode(), Mode::Control);
    let mut out = Vec::new();
    for k in [CHANGE_BANK, DIGIT_1, DIGIT_2, ENTER] {
        out.extend(e.tick(k, 0));
    }
    assert!(out.contains(&Action::ProgramChange(12)));
    assert_eq!(e.command().prog_number(), 12);
    assert_eq!(e.sounding(), 0);
    let out = e.tick(0x124, 0);
    assert_eq!(out.last(), Some(&Action::ModeChanged(Mode::Play)));
}

#[test]
fn engine_records_while_playing() {
    let mut notemap = NoteMap::generate("{}", 0);
    notemap.start_recording();
    let mut e = Engine::new(notemap, 67, 2, 5);
    let out = e.tick(528, 15);
    assert!(out.contains(&Action::Persist));
    assert_eq!(e.notemap().get_untransposed(&528), Some(58));
}
