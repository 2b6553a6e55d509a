//! Key bitmasks: bit `n` is set while physical key `n` is pressed.

use vstd::prelude::*;

verus! {

/// Number of key positions a bitmask can hold.
pub const KEY_SLOTS: usize = 32;

/// Whether bit `n` of `x` is set (never, for `n` past the width).
pub open spec fn bit_set(x: u32, n: u8) -> bool {
    n < 32 && (x & (1u32 << n)) != 0
}

pub fn get_bit_at(input: u32, n: u8) -> (r: bool)
    ensures
        r == bit_set(input, n),
{
    if n < 32 {
        input & (1u32 << n) != 0
    } else {
        false
    }
}

/// Sets bit `n`, leaving every other bit as it was.
pub fn set_bit_at(output: &mut u32, n: u8)
    ensures
        n < 32 ==> bit_set(*final(output), n),
        forall|m: u8| m != n ==> bit_set(*final(output), m) == bit_set(*old(output), m),
        n >= 32 ==> *final(output) == *old(output),
{
    if n < 32 {
        let ghost x = *output;
        *output |= 1u32 << n;
        assert(forall|m: u8| m != n ==> bit_set(x | (1u32 << n), m) == bit_set(x, m)) by (bit_vector)
            requires
                n < 32,
        ;
        assert(bit_set(x | (1u32 << n), n)) by (bit_vector)
            requires
                n < 32,
        ;
    }
}

/// Clears bit `n`, leaving every other bit as it was.
pub fn clear_bit_at(output: &mut u32, n: u8)
    ensures
        !bit_set(*final(output), n),
        forall|m: u8| m != n ==> bit_set(*final(output), m) == bit_set(*old(output), m),
        n >= 32 ==> *final(output) == *old(output),
{
    if n < 32 {
        let ghost x = *output;
        *output &= !(1u32 << n);
        assert(forall|m: u8| m != n ==> bit_set(x & !(1u32 << n), m) == bit_set(x, m)) by (bit_vector)
            requires
                n < 32,
        ;
        assert(!bit_set(x & !(1u32 << n), n)) by (bit_vector)
            requires
                n < 32,
        ;
    }
}

/// The bitmask of a scan: bit `i` is set exactly when key `i` reads pressed.
pub fn scan_keys(pressed: &Vec<bool>) -> (r: u32)
    requires
        pressed@.len() <= KEY_SLOTS,
    ensures
        forall|i: u8| #[trigger] bit_set(r, i) == (i < pressed@.len() && pressed@[i as int]),
{
    let mut keymap: u32 = 0;
    let mut key_idx: usize = 0;
    assert(forall|m: u8| !bit_set(0u32, m)) by (bit_vector);
    while key_idx < pressed.len()
        invariant
            key_idx <= pressed@.len() <= KEY_SLOTS,
            forall|i: u8| #[trigger] bit_set(keymap, i) == (i < key_idx && pressed@[i as int]),
        decreases pressed@.len() - key_idx,
    {
        let is_pressed = pressed[key_idx];
        if get_bit_at(keymap, key_idx as u8) != is_pressed {
            if is_pressed {
                set_bit_at(&mut keymap, key_idx as u8);
            } else {
                clear_bit_at(&mut keymap, key_idx as u8);
            }
        }
        key_idx += 1;
    }
    keymap
}

} // verus!
