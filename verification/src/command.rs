//! Commands a client relays to the leader, and how they are read from
//! command-line arguments and applied to a brightness value.

use vstd::prelude::*;
use vstd::slice::slice_index_get;
use vstd::string::StrSliceExecFns;
use crate::percent::{add_brightness, apply_spec, clamp_percent, is_percent, set_spec};

verus! {

/// A single brightness command: raise by a delta, lower by a delta, or set
/// an absolute value. Immutable, single-use messages.
#[derive(Clone, Copy, Debug, PartialEq, Eq, Structural)]
pub enum Command {
    Increase(u8),
    Decrease(u8),
    SetAbsolute(u8),
}

/// What a command does to a current brightness percentage.
pub open spec fn command_apply_spec(current: int, cmd: Command) -> int {
    match cmd {
        Command::Increase(d) => apply_spec(current, d as int),
        Command::Decrease(d) => apply_spec(current, -(d as int)),
        Command::SetAbsolute(v) => set_spec(v as int),
    }
}

/// Applies a command to the current brightness percentage and returns the
/// new, always in-range, percentage.
pub fn apply_command(current: u8, cmd: Command) -> (r: u8)
    ensures
        r == command_apply_spec(current as int, cmd),
        is_percent(r as int),
{
    match cmd {
        Command::Increase(d) => add_brightness(current, d as i16),
        Command::Decrease(d) => add_brightness(current, -(d as i16)),
        Command::SetAbsolute(v) => clamp_percent(v),
    }
}

/// An ASCII decimal digit.
pub open spec fn is_digit_char(c: char) -> bool {
    48 <= c as int <= 57
}

/// The numeric value of a decimal digit character.
pub open spec fn digit_val(c: char) -> int {
    c as int - 48
}

/// Every character of the sequence is a decimal digit.
pub open spec fn all_digits(s: Seq<char>) -> bool {
    forall|i: int| 0 <= i < s.len() ==> is_digit_char(s[i])
}

/// The value of a sequence of decimal digits, most significant first.
pub open spec fn dec_value(s: Seq<char>) -> int
    decreases s.len(),
{
    if s.len() == 0 {
        0
    } else {
        dec_value(s.drop_last()) * 10 + digit_val(s.last())
    }
}

/// A percentage argument is a non-empty run of digits whose value is at
/// most 100; anything else is rejected.
pub open spec fn parse_percent_spec(s: Seq<char>) -> Option<u8> {
    if s.len() >= 1 && all_digits(s) && dec_value(s) <= 100 {
        Some(dec_value(s) as u8)
    } else {
        None
    }
}

/// `s` is the given three-character command word.
pub open spec fn is_word(s: Seq<char>, c0: char, c1: char, c2: char) -> bool {
    s.len() == 3 && s[0] == c0 && s[1] == c1 && s[2] == c2
}

/// How command-line arguments (program name already stripped) are read:
/// exactly `inc <0-100>`, `dec <0-100>` or `set <0-100>`.
pub open spec fn parse_args_spec(args: Seq<String>) -> Option<Command> {
    if args.len() != 2 {
        None
    } else {
        match parse_percent_spec(args[1]@) {
            None => None,
            Some(v) => if is_word(args[0]@, 'i', 'n', 'c') {
                Some(Command::Increase(v))
            } else if is_word(args[0]@, 'd', 'e', 'c') {
                Some(Command::Decrease(v))
            } else if is_word(args[0]@, 's', 'e', 't') {
                Some(Command::SetAbsolute(v))
            } else {
                None
            },
        }
    }
}

proof fn lemma_dec_value_nonneg(s: Seq<char>)
    requires
        all_digits(s),
    ensures
        dec_value(s) >= 0,
    decreases s.len(),
{
    if s.len() > 0 {
        assert(all_digits(s.drop_last()));
        lemma_dec_value_nonneg(s.drop_last());
    }
}

/// Appending digits never lowers the value of a digit string: the value of
/// any prefix bounds the whole from below.
proof fn lemma_dec_value_prefix(s: Seq<char>, i: int)
    requires
        0 <= i <= s.len(),
        all_digits(s),
    ensures
        dec_value(s.take(i)) <= dec_value(s),
    decreases s.len() - i,
{
    if i < s.len() {
        lemma_dec_value_prefix(s, i + 1);
        let t = s.take(i + 1);
        assert(t.drop_last() =~= s.take(i));
        assert(all_digits(s.take(i)));
        lemma_dec_value_nonneg(s.take(i));
        assert(is_digit_char(s[i]));
        assert(dec_value(t) == dec_value(s.take(i)) * 10 + digit_val(s[i]));
    } else {
        assert(s.take(i) =~= s);
    }
}

/// Reads a percentage argument: digits only, value at most 100.
fn parse_percent(s: &str) -> (r: Option<u8>)
    ensures
        r == parse_percent_spec(s@),
{
    let n = s.unicode_len();
    if n == 0 {
        return None;
    }
    let mut acc: u16 = 0;
    let mut i: usize = 0;
    while i < n
        invariant
            0 < n == s@.len(),
            i <= n,
            all_digits(s@.take(i as int)),
            acc as int == dec_value(s@.take(i as int)),
            acc <= 100,
        decreases n - i,
    {
        let c = s.get_char(i);
        let v: u32 = c as u32;
        if v < 48 || v > 57 {
            proof {
                assert(!is_digit_char(s@[i as int]));
            }
            return None;
        }
        let next: u16 = acc * 10 + ((v - 48) as u16);
        proof {
            let t = s@.take(i + 1);
            assert(t.drop_last() =~= s@.take(i as int));
            assert(t.last() == s@[i as int]);
            assert(all_digits(t));
        }
        if next > 100 {
            proof {
                if all_digits(s@) {
                    lemma_dec_value_prefix(s@, i + 1);
                }
            }
            return None;
        }
        acc = next;
        i = i + 1;
    }
    proof {
        assert(s@.take(n as int) =~= s@);
    }
    Some(acc as u8)
}

/// Tests whether a string is a given three-character command word.
fn word_is(s: &str, c0: char, c1: char, c2: char) -> (r: bool)
    ensures
        r == is_word(s@, c0, c1, c2),
{
    if s.unicode_len() != 3 {
        return false;
    }
    s.get_char(0) == c0 && s.get_char(1) == c1 && s.get_char(2) == c2
}

/// Reads one command from the command-line arguments that follow the
/// program name. Rejects anything but `inc <0-100>`, `dec <0-100>` and
/// `set <0-100>`.
pub fn parse_command_from_args(command: &[String]) -> (r: Option<Command>)
    ensures
        r == parse_args_spec(command@),
{
    if command.len() != 2 {
        return None;
    }
    let arg0: &String = slice_index_get(command, 0);
    let arg1: &String = slice_index_get(command, 1);
    let value = match parse_percent(arg1.as_str()) {
        Some(v) => v,
        None => {
            return None;
        },
    };
    if word_is(arg0.as_str(), 'i', 'n', 'c') {
        Some(Command::Increase(value))
    } else if word_is(arg0.as_str(), 'd', 'e', 'c') {
        Some(Command::Decrease(value))
    } else if word_is(arg0.as_str(), 's', 'e', 't') {
        Some(Command::SetAbsolute(value))
    } else {
        None
    }
}

} // verus!
