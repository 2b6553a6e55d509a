//! A built-in fingering table, for an instrument without a recorded one.

use std::collections::HashMap;

use vstd::prelude::*;

verus! {

broadcast use vstd::std_specs::hash::group_hash_axioms;

/// The built-in table: bitmask to note; 0 is silence and -1 the shutdown chord.
pub open spec fn default_fingerings() -> Map<u32, i32> {
    map![
        0u32 => 0i32,
        656548352u32 => 46i32,
        640819712u32 => 47i32,
        639771136u32 => 48i32,
        639836672u32 => 49i32,
        572662272u32 => 50i32,
        576856576u32 => 51i32,
        35791360u32 => 52i32,
        2236928u32 => 53i32,
        33694208u32 => 54i32,
        2499072u32 => 54i32,
        139776u32 => 55i32,
        143872u32 => 56i32,
        8704u32 => 57i32,
        33554944u32 => 58i32,
        544u32 => 58i32,
        2097664u32 => 58i32,
        8960u32 => 58i32,
        512u32 => 59i32,
        8192u32 => 60i32,
        528u32 => 60i32,
        71565856u32 => -1i32
    ]
}

pub fn generate() -> (r: HashMap<u32, i32>)
    ensures
        r@ == default_fingerings(),
{
    let mut notemap: HashMap<u32, i32> = HashMap::new();
    notemap.insert(0, 0); // silence
    notemap.insert(656548352, 46); // Bb
    notemap.insert(640819712, 47); // B
    notemap.insert(639771136, 48); // C
    notemap.insert(639836672, 49); // C#
    notemap.insert(572662272, 50); // D
    notemap.insert(576856576, 51); // Eb
    notemap.insert(35791360, 52); // E
    notemap.insert(2236928, 53); // F
    notemap.insert(33694208, 54); // F#
    notemap.insert(2499072, 54); // F#
    notemap.insert(139776, 55); // G
    notemap.insert(143872, 56); // G#
    notemap.insert(8704, 57); // A
    notemap.insert(33554944, 58); // Bb
    notemap.insert(544, 58); // Bb
    notemap.insert(2097664, 58); // Bb
    notemap.insert(8960, 58); // Bb
    notemap.insert(512, 59); // B
    notemap.insert(8192, 60); // C
    notemap.insert(528, 60); // C
    notemap.insert(71565856, -1); // shutdown
    assert(notemap@ =~= default_fingerings());
    notemap
}

} // verus!
