//! Choosing the sound card the tone generator plays through.

use vstd::prelude::*;

verus! {

/// Name of the instrument's own audio card.
pub const AUDIO_CARD_ID: &'static str = "MAX98357A";

pub open spec fn digit_char(d: int) -> char {
    if d == 0 {
        '0'
    } else if d == 1 {
        '1'
    } else if d == 2 {
        '2'
    } else if d == 3 {
        '3'
    } else if d == 4 {
        '4'
    } else if d == 5 {
        '5'
    } else if d == 6 {
        '6'
    } else if d == 7 {
        '7'
    } else if d == 8 {
        '8'
    } else {
        '9'
    }
}

/// Decimal digits of a natural number, without leading zeros.
pub open spec fn nat_text(n: nat) -> Seq<char>
    decreases n,
{
    if n < 10 {
        seq![digit_char(n as int)]
    } else {
        nat_text(n / 10).push(digit_char((n % 10) as int))
    }
}

/// Decimal text of an integer, with a leading minus sign when negative.
pub open spec fn int_text(n: int) -> Seq<char> {
    if n < 0 {
        seq!['-'] + nat_text((-n) as nat)
    } else {
        nat_text(n as nat)
    }
}

/// The device name of the card with the given index.
pub open spec fn device_name(index: i32) -> Seq<char> {
    seq!['h', 'w', ':'] + int_text(index as int)
}

/// The one-character text of a decimal digit.
fn digit_str(d: u32) -> (r: &'static str)
    requires
        d < 10,
    ensures
        r@ == seq![digit_char(d as int)],
{
    let r = match d {
        0 => "0",
        1 => "1",
        2 => "2",
        3 => "3",
        4 => "4",
        5 => "5",
        6 => "6",
        7 => "7",
        8 => "8",
        9 => "9",
        _ => "9",
    };
    proof {
        reveal_strlit("0");
        reveal_strlit("1");
        reveal_strlit("2");
        reveal_strlit("3");
        reveal_strlit("4");
        reveal_strlit("5");
        reveal_strlit("6");
        reveal_strlit("7");
        reveal_strlit("8");
        reveal_strlit("9");
    }
    assert(r@ =~= seq![digit_char(d as int)]);
    r
}

/// Appends the decimal digits of `n`.
fn append_nat(s: &mut String, n: u32)
    ensures
        final(s)@ == old(s)@ + nat_text(n as nat),
    decreases n,
{
    if n >= 10 {
        append_nat(s, n / 10);
    }
    s.append(digit_str(n % 10));
    assert(final(s)@ =~= old(s)@ + nat_text(n as nat));
}

/// Decimal text of `n`, with a minus sign when negative.
fn decimal(n: i32) -> (r: String)
    ensures
        r@ == int_text(n as int),
{
    if n < 0 {
        let mut s = String::from_str("-");
        proof {
            reveal_strlit("-");
        }
        let magnitude: u32 = (0 - n as i64) as u32;
        append_nat(&mut s, magnitude);
        assert(s@ =~= int_text(n as int));
        s
    } else {
        let mut s = String::new();
        append_nat(&mut s, n as u32);
        assert(s@ =~= int_text(n as int));
        s
    }
}

/// The device of the first card, in order, named `AUDIO_CARD_ID`, given each
/// card's index and name.
pub fn get_device(cards: &Vec<(i32, String)>) -> (r: Option<String>)
    ensures
        match r {
            Some(s) => exists|i: int|
                0 <= i < cards@.len() && cards@[i].1@ == AUDIO_CARD_ID@ && (forall|j: int|
                    0 <= j < i ==> cards@[j].1@ != AUDIO_CARD_ID@) && s@ == device_name(
                    cards@[i].0,
                ),
            None => forall|j: int| 0 <= j < cards@.len() ==> cards@[j].1@ != AUDIO_CARD_ID@,
        },
{
    let wanted = String::from_str(AUDIO_CARD_ID);
    let mut i: usize = 0;
    while i < cards.len()
        invariant
            i <= cards@.len(),
            wanted@ == AUDIO_CARD_ID@,
            forall|j: int| 0 <= j < i ==> cards@[j].1@ != AUDIO_CARD_ID@,
        decreases cards@.len() - i,
    {
        if cards[i].1 == wanted {
            let mut s = String::from_str("hw:");
            let digits = decimal(cards[i].0);
            s.append(digits.as_str());
            proof {
                reveal_strlit("hw:");
                assert(s@ =~= device_name(cards@[i as int].0));
            }
            return Some(s);
        }
        i += 1;
    }
    None
}

} // verus!
