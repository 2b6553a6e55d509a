//! Control mode: single keys type a decimal number that selects the
//! instrument program of the tone generator.
//!
//! Key layout: the change-bank key (bit 16) arms the command, the enter key
//! (bit 22) executes it. Digits 1 to 6 are the six main keys from the top
//! (bits 9, 13, 17, 21, 25, 29); digits 7, 8, 9 and 0 are the keys of bits 0,
//! 1, 3 and 4. Every other bitmask, chords included, is unmapped.

use vstd::prelude::*;

use crate::action::Action;

verus! {

/// Most digits a command keeps; later ones are dropped.
pub const MAX_DIGITS: usize = 4;

/// Highest program number of the tone generator.
pub const MAX_PROGRAM: i32 = 127;

/// Note, velocity, volume and length of the confirmation tone.
pub const CONFIRM_NOTE: i32 = 53;
pub const CONFIRM_LEVEL: i32 = 60;
pub const CONFIRM_MS: u32 = 100;

/// A logical command key.
#[derive(Clone, Copy, Debug, PartialEq, Eq, Structural)]
pub enum CommandKey {
    Digit(u8),
    ChangeBank,
    Enter,
    Unmapped,
}

/// A command waiting for its digits.
#[derive(Clone, Copy, Debug, PartialEq, Eq, Structural)]
pub enum CommandKind {
    ChangeBank,
}

/// The logical key of a raw bitmask.
pub open spec fn cmd_key_of(key: u32) -> CommandKey {
    if key == 0x10000 {
        CommandKey::ChangeBank
    } else if key == 0x400000 {
        CommandKey::Enter
    } else if key == 0x200 {
        CommandKey::Digit(1)
    } else if key == 0x2000 {
        CommandKey::Digit(2)
    } else if key == 0x20000 {
        CommandKey::Digit(3)
    } else if key == 0x200000 {
        CommandKey::Digit(4)
    } else if key == 0x2000000 {
        CommandKey::Digit(5)
    } else if key == 0x20000000 {
        CommandKey::Digit(6)
    } else if key == 0x1 {
        CommandKey::Digit(7)
    } else if key == 0x2 {
        CommandKey::Digit(8)
    } else if key == 0x8 {
        CommandKey::Digit(9)
    } else if key == 0x10 {
        CommandKey::Digit(0)
    } else {
        CommandKey::Unmapped
    }
}

/// The number that digits spell, most significant first.
pub open spec fn digits_value(d: Seq<u8>) -> nat
    decreases d.len(),
{
    if d.len() == 0 {
        0
    } else {
        digits_value(d.drop_last()) * 10 + d.last() as nat
    }
}

pub open spec fn pow10(n: nat) -> nat
    decreases n,
{
    if n == 0 {
        1
    } else {
        10 * pow10((n - 1) as nat)
    }
}

/// Abstract state of the command processor.
pub struct CommandView {
    pub prog_number: i32,
    pub last_key: CommandKey,
    pub pending: Option<CommandKind>,
    pub digits: Seq<u8>,
}

pub open spec fn command_view_wf(c: CommandView) -> bool {
    &&& c.digits.len() <= MAX_DIGITS
    &&& forall|i: int| 0 <= i < c.digits.len() ==> #[trigger] c.digits[i] < 10
}

/// Program selection and its confirmation tone.
pub open spec fn program_actions(p: i32) -> Seq<Action> {
    seq![
        Action::ProgramChange(p),
        Action::Volume(CONFIRM_LEVEL),
        Action::Tone(CONFIRM_NOTE, CONFIRM_LEVEL, CONFIRM_MS),
    ]
}

/// The program that a typed number selects.
pub open spec fn program_of(v: nat) -> i32 {
    if v > MAX_PROGRAM {
        MAX_PROGRAM
    } else {
        v as i32
    }
}

/// One tick of the command processor on a raw bitmask.
pub open spec fn command_step(c: CommandView, keys: u32) -> (CommandView, Seq<Action>) {
    let k = cmd_key_of(keys);
    let c1 = CommandView { last_key: k, ..c };
    if k == c.last_key {
        (c, seq![])
    } else {
        match k {
            CommandKey::ChangeBank => (
                CommandView { pending: Some(CommandKind::ChangeBank), digits: seq![], ..c1 },
                seq![],
            ),
            CommandKey::Digit(d) => if c.pending is Some && c.digits.len() < MAX_DIGITS {
                (CommandView { digits: c.digits.push(d), ..c1 }, seq![])
            } else {
                (c1, seq![])
            },
            CommandKey::Enter => if c.pending is Some {
                let p = program_of(digits_value(c.digits));
                (CommandView { prog_number: p, pending: None, ..c1 }, program_actions(p))
            } else {
                (c1, seq![])
            },
            CommandKey::Unmapped => (c1, seq![]),
        }
    }
}

/// The logical key of a raw bitmask.
pub fn key2cmdkey(key: u32) -> (r: CommandKey)
    ensures
        r == cmd_key_of(key),
{
    match key {
        0x10000 => CommandKey::ChangeBank,
        0x400000 => CommandKey::Enter,
        0x200 => CommandKey::Digit(1),
        0x2000 => CommandKey::Digit(2),
        0x20000 => CommandKey::Digit(3),
        0x200000 => CommandKey::Digit(4),
        0x2000000 => CommandKey::Digit(5),
        0x20000000 => CommandKey::Digit(6),
        0x1 => CommandKey::Digit(7),
        0x2 => CommandKey::Digit(8),
        0x8 => CommandKey::Digit(9),
        0x10 => CommandKey::Digit(0),
        _ => CommandKey::Unmapped,
    }
}

/// The Control-mode command processor.
pub struct Command {
    prog_number: i32,
    last_cmd_key: CommandKey,
    pending: Option<CommandKind>,
    digits: Vec<u8>,
}

impl View for Command {
    type V = CommandView;

    closed spec fn view(&self) -> CommandView {
        CommandView {
            prog_number: self.prog_number,
            last_key: self.last_cmd_key,
            pending: self.pending,
            digits: self.digits@,
        }
    }
}

impl Command {
    pub open spec fn wf(&self) -> bool {
        command_view_wf(self@)
    }

    /// A processor with no command armed and the given current program.
    pub fn new(prog_number: i32) -> (r: Command)
        ensures
            r.wf(),
            r@ == (CommandView {
                prog_number,
                last_key: CommandKey::Unmapped,
                pending: None,
                digits: seq![],
            }),
    {
        Command {
            prog_number,
            last_cmd_key: CommandKey::Unmapped,
            pending: None,
            digits: Vec::new(),
        }
    }

    /// The program last selected.
    pub fn prog_number(&self) -> (r: i32)
        ensures
            r == self@.prog_number,
    {
        self.prog_number
    }

    /// Whether a command waits for its digits.
    pub fn is_armed(&self) -> (r: bool)
        ensures
            r == self@.pending is Some,
    {
        self.pending.is_some()
    }

    /// The number the typed digits spell.
    pub fn value(&self) -> (r: u32)
        requires
            self.wf(),
        ensures
            r == digits_value(self@.digits),
    {
        let mut v: u32 = 0;
        let mut i: usize = 0;
        while i < self.digits.len()
            invariant
                self.wf(),
                i <= self.digits@.len(),
                v == digits_value(self.digits@.take(i as int)),
                v < pow10(i as nat),
            decreases self.digits@.len() - i,
        {
            let d = self.digits[i];
            proof {
                assert(self.digits@.take(i + 1).drop_last() =~= self.digits@.take(i as int));
                assert(d < 10);
                assert(pow10(1) == 10 && pow10(2) == 100 && pow10(3) == 1000) by {
                    reveal_with_fuel(pow10, 4);
                }
                assert(v < 1000);
                assert(pow10((i + 1) as nat) == pow10(i as nat) * 10);
                let a = v as int;
                let b = pow10(i as nat) as int;
                assert(a * 10 + d < b * 10) by (nonlinear_arith)
                    requires
                        a < b,
                        d < 10,
                ;
            }
            v = v * 10 + d as u32;
            i += 1;
        }
        assert(self.digits@.take(i as int) =~= self.digits@);
        v
    }

    /// Selects the program a typed value names and sounds the confirmation tone.
    fn change_program(&mut self, value: u32) -> (r: Vec<Action>)
        ensures
            final(self)@ == (CommandView { prog_number: program_of(value as nat), ..old(self)@ }),
            r@ == program_actions(program_of(value as nat)),
    {
        let p: i32 = if value > MAX_PROGRAM as u32 {
            MAX_PROGRAM
        } else {
            value as i32
        };
        self.prog_number = p;
        let mut out: Vec<Action> = Vec::new();
        out.push(Action::ProgramChange(p));
        out.push(Action::Volume(CONFIRM_LEVEL));
        out.push(Action::Tone(CONFIRM_NOTE, CONFIRM_LEVEL, CONFIRM_MS));
        assert(out@ =~= program_actions(p));
        out
    }

    /// Feeds one tick's raw bitmask (see `command_step`).
    pub fn process(&mut self, key: u32) -> (r: Vec<Action>)
        requires
            old(self).wf(),
        ensures
            final(self).wf(),
            (final(self)@, r@) == command_step(old(self)@, key),
    {
        let cmd_key = key2cmdkey(key);
        if cmd_key == self.last_cmd_key {
            return Vec::new();
        }
        self.last_cmd_key = cmd_key;
        match cmd_key {
            CommandKey::ChangeBank => {
                self.pending = Some(CommandKind::ChangeBank);
                self.digits = Vec::new();
                Vec::new()
            },
            CommandKey::Digit(d) => {
                if self.pending.is_some() && self.digits.len() < MAX_DIGITS {
                    self.digits.push(d);
                }
                Vec::new()
            },
            CommandKey::Enter => {
                if self.pending.is_some() {
                    let v = self.value();
                    self.pending = None;
                    self.change_program(v)
                } else {
                    Vec::new()
                }
            },
            CommandKey::Unmapped => Vec::new(),
        }
    }
}

} // verus!
