//! The reference note list: the named concert pitches that drive fingering
//! recording and reverse name lookups. Entry `i` has pitch `LOWEST_PITCH + i`.

use vstd::prelude::*;

verus! {

/// Number of entries in the reference note list.
pub const NOTE_COUNT: usize = 33;

/// Concert pitch of the first entry ("Low Bb").
pub const LOWEST_PITCH: i32 = 58;

/// Concert pitch of entry `i` of the reference list.
pub open spec fn pitch_at(i: int) -> int {
    LOWEST_PITCH + i
}

/// Display name of entry `i` of the reference list.
pub open spec fn name_at(i: int) -> Seq<char> {
    if i == 0 {
        "Low Bb"@
    } else if i == 1 {
        "Low B"@
    } else if i == 2 {
        "Low C"@
    } else if i == 3 {
        "Low C#"@
    } else if i == 4 {
        "Low D"@
    } else if i == 5 {
        "Low D#"@
    } else if i == 6 {
        "Low E"@
    } else if i == 7 {
        "Low F"@
    } else if i == 8 {
        "Low F#"@
    } else if i == 9 {
        "Low G"@
    } else if i == 10 {
        "Low Ab"@
    } else if i == 11 {
        "Low A"@
    } else if i == 12 {
        "Mid Bb"@
    } else if i == 13 {
        "Mid B"@
    } else if i == 14 {
        "Mid C"@
    } else if i == 15 {
        "Mid C#"@
    } else if i == 16 {
        "Mid D"@
    } else if i == 17 {
        "Mid D#"@
    } else if i == 18 {
        "Mid E"@
    } else if i == 19 {
        "Mid F"@
    } else if i == 20 {
        "Mid F#"@
    } else if i == 21 {
        "Mid G"@
    } else if i == 22 {
        "Mid Ab"@
    } else if i == 23 {
        "Mid A"@
    } else if i == 24 {
        "High Bb"@
    } else if i == 25 {
        "High B"@
    } else if i == 26 {
        "High C"@
    } else if i == 27 {
        "High C#"@
    } else if i == 28 {
        "High D"@
    } else if i == 29 {
        "High D#"@
    } else if i == 30 {
        "High E"@
    } else if i == 31 {
        "High F"@
    } else if i == 32 {
        "High F#"@
    } else {
        Seq::empty()
    }
}

/// Index of the entry whose pitch is `value`, if the list holds one.
pub open spec fn index_of_pitch(value: int) -> Option<int> {
    if LOWEST_PITCH <= value < LOWEST_PITCH + NOTE_COUNT {
        Some(value - LOWEST_PITCH)
    } else {
        None
    }
}

/// Concert pitch of entry `i`.
pub fn note_pitch(i: usize) -> (r: i32)
    requires
        i < NOTE_COUNT,
    ensures
        r == pitch_at(i as int),
{
    LOWEST_PITCH + i as i32
}

/// Display name of entry `i`.
pub fn note_name(i: usize) -> (r: &'static str)
    requires
        i < NOTE_COUNT,
    ensures
        r@ == name_at(i as int),
{
    match i {
        0 => "Low Bb",
        1 => "Low B",
        2 => "Low C",
        3 => "Low C#",
        4 => "Low D",
        5 => "Low D#",
        6 => "Low E",
        7 => "Low F",
        8 => "Low F#",
        9 => "Low G",
        10 => "Low Ab",
        11 => "Low A",
        12 => "Mid Bb",
        13 => "Mid B",
        14 => "Mid C",
        15 => "Mid C#",
        16 => "Mid D",
        17 => "Mid D#",
        18 => "Mid E",
        19 => "Mid F",
        20 => "Mid F#",
        21 => "Mid G",
        22 => "Mid Ab",
        23 => "Mid A",
        24 => "High Bb",
        25 => "High B",
        26 => "High C",
        27 => "High C#",
        28 => "High D",
        29 => "High D#",
        30 => "High E",
        31 => "High F",
        32 => "High F#",
        _ => "",
    }
}

/// Name of the reference entry whose concert pitch is `value`.
pub fn get_name(value: i32) -> (r: Option<&'static str>)
    ensures
        match index_of_pitch(value as int) {
            Some(i) => r matches Some(s) && s@ == name_at(i),
            None => r is None,
        },
{
    let mut i: usize = 0;
    while i < NOTE_COUNT
        invariant
            i <= NOTE_COUNT,
            value < LOWEST_PITCH || value >= LOWEST_PITCH + i,
        decreases NOTE_COUNT - i,
    {
        if note_pitch(i) == value {
            return Some(note_name(i));
        }
        i += 1;
    }
    None
}

} // verus!
