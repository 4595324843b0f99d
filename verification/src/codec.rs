//! The wire protocol between a client and the leader's command server.
//!
//! One message per connection, a structured encoding of [`Command`]: the
//! bytes `{"Inc":N}`, `{"Dec":N}` or `{"Set":N}`, where `N` is the decimal
//! value of the `u8` payload with no leading zeros, no sign and no spaces.
//! Exactly one byte string encodes each command, and the decoder accepts
//! nothing else: unknown tags, malformed numbers and out-of-range values are
//! rejected without effect.

use vstd::prelude::*;
use vstd::slice::slice_index_get;
use crate::command::Command;

verus! {

/// An ASCII decimal digit byte.
pub open spec fn is_digit_byte(b: u8) -> bool {
    48 <= b <= 57
}

/// The three-byte wire tag of a command.
pub open spec fn wire_tag(cmd: Command) -> Seq<u8> {
    match cmd {
        Command::Increase(_) => seq![73u8, 110u8, 99u8],  // "Inc"
        Command::Decrease(_) => seq![68u8, 101u8, 99u8],  // "Dec"
        Command::SetAbsolute(_) => seq![83u8, 101u8, 116u8],  // "Set"
    }
}

/// The payload value a command carries.
pub open spec fn cmd_value(cmd: Command) -> int {
    match cmd {
        Command::Increase(d) => d as int,
        Command::Decrease(d) => d as int,
        Command::SetAbsolute(v) => v as int,
    }
}

/// The canonical decimal digits of a value in `[0, 255]`: no leading zeros.
pub open spec fn digits_spec(v: int) -> Seq<u8> {
    if v < 10 {
        seq![(48 + v) as u8]
    } else if v < 100 {
        seq![(48 + v / 10) as u8, (48 + v % 10) as u8]
    } else {
        seq![(48 + v / 100) as u8, (48 + (v / 10) % 10) as u8, (48 + v % 10) as u8]
    }
}

/// The one byte string that encodes a command:
/// `{` `"` tag `"` `:` digits `}`.
pub open spec fn encode_spec(cmd: Command) -> Seq<u8> {
    seq![123u8, 34u8] + wire_tag(cmd) + seq![34u8, 58u8] + digits_spec(cmd_value(cmd))
        + seq![125u8]
}

/// Reads a canonical decimal number in `[0, 255]`: one to three digits, no
/// leading zero unless the number is 0 itself.
pub open spec fn canonical_digits(s: Seq<u8>) -> Option<int> {
    if s.len() == 1 && is_digit_byte(s[0]) {
        Some(s[0] - 48)
    } else if s.len() == 2 && 49 <= s[0] <= 57 && is_digit_byte(s[1]) {
        Some((s[0] - 48) * 10 + (s[1] - 48))
    } else if s.len() == 3 && 49 <= s[0] <= 57 && is_digit_byte(s[1]) && is_digit_byte(s[2]) {
        let v = (s[0] - 48) * 100 + (s[1] - 48) * 10 + (s[2] - 48);
        if v <= 255 {
            Some(v)
        } else {
            None
        }
    } else {
        None
    }
}

/// Strict decoding: the command whose canonical encoding is exactly `s`,
/// if there is one.
pub open spec fn decode_spec(s: Seq<u8>) -> Option<Command> {
    if !(9 <= s.len() <= 11) {
        None
    } else if s[0] != 123 || s[1] != 34 || s[5] != 34 || s[6] != 58 || s[s.len() - 1] != 125 {
        None
    } else {
        match canonical_digits(s.subrange(7, s.len() - 1)) {
            None => None,
            Some(v) => if s[2] == 73 && s[3] == 110 && s[4] == 99 {
                Some(Command::Increase(v as u8))
            } else if s[2] == 68 && s[3] == 101 && s[4] == 99 {
                Some(Command::Decrease(v as u8))
            } else if s[2] == 83 && s[3] == 101 && s[4] == 116 {
                Some(Command::SetAbsolute(v as u8))
            } else {
                None
            },
        }
    }
}

/// Every command survives the round trip: decoding its canonical encoding
/// yields the command back. With canonicity below, a byte string is accepted
/// exactly when it is the encoding of some command.
pub proof fn lemma_codec_round_trip(cmd: Command)
    ensures
        decode_spec(encode_spec(cmd)) == Some(cmd),
{
    let s = encode_spec(cmd);
    let v = cmd_value(cmd);
    assert(s.subrange(7, s.len() - 1) =~= digits_spec(v));
    assert(canonical_digits(digits_spec(v)) == Some(v));
}

/// The decoder accepts only canonical encodings: whatever byte string it
/// accepts as a command is that command's own encoding, byte for byte.
pub proof fn lemma_decode_canonical(s: Seq<u8>, cmd: Command)
    requires
        decode_spec(s) == Some(cmd),
    ensures
        s == encode_spec(cmd),
{
    let digits = s.subrange(7, s.len() - 1);
    let v = canonical_digits(digits)->Some_0;
    assert(digits_spec(v) =~= digits);
    assert(s =~= encode_spec(cmd));
}

/// Encodes a command as its canonical wire bytes.
pub fn encode_command(cmd: &Command) -> (out: Vec<u8>)
    ensures
        out@ == encode_spec(*cmd),
{
    let mut out: Vec<u8> = Vec::new();
    out.push(123);
    out.push(34);
    match cmd {
        Command::Increase(_) => {
            out.push(73);
            out.push(110);
            out.push(99);
        },
        Command::Decrease(_) => {
            out.push(68);
            out.push(101);
            out.push(99);
        },
        Command::SetAbsolute(_) => {
            out.push(83);
            out.push(101);
            out.push(116);
        },
    }
    out.push(34);
    out.push(58);
    let v: u8 = match cmd {
        Command::Increase(d) => *d,
        Command::Decrease(d) => *d,
        Command::SetAbsolute(d) => *d,
    };
    if v < 10 {
        out.push(48 + v);
    } else if v < 100 {
        out.push(48 + v / 10);
        out.push(48 + v % 10);
    } else {
        out.push(48 + v / 100);
        out.push(48 + (v / 10) % 10);
        out.push(48 + v % 10);
    }
    out.push(125);
    proof {
        assert(out@ =~= encode_spec(*cmd));
    }
    out
}

/// Decodes one wire message, strictly: returns the command whose canonical
/// encoding the payload is, and rejects every other byte string.
pub fn decode_command(payload: &[u8]) -> (r: Option<Command>)
    ensures
        r == decode_spec(payload@),
{
    let n = payload.len();
    if n < 9 || n > 11 {
        return None;
    }
    let b0 = *slice_index_get(payload, 0);
    let b1 = *slice_index_get(payload, 1);
    let b5 = *slice_index_get(payload, 5);
    let b6 = *slice_index_get(payload, 6);
    let blast = *slice_index_get(payload, n - 1);
    if b0 != 123 || b1 != 34 || b5 != 34 || b6 != 58 || blast != 125 {
        return None;
    }
    let d0 = *slice_index_get(payload, 7);
    let value: u16 = if n == 9 {
        if !(48 <= d0 && d0 <= 57) {
            proof {
                assert(canonical_digits(payload@.subrange(7, payload@.len() - 1)) is None);
            }
            return None;
        }
        (d0 - 48) as u16
    } else if n == 10 {
        let d1 = *slice_index_get(payload, 8);
        if !(49 <= d0 && d0 <= 57) || !(48 <= d1 && d1 <= 57) {
            proof {
                assert(canonical_digits(payload@.subrange(7, payload@.len() - 1)) is None);
            }
            return None;
        }
        (d0 - 48) as u16 * 10 + (d1 - 48) as u16
    } else {
        let d1 = *slice_index_get(payload, 8);
        let d2 = *slice_index_get(payload, 9);
        if !(49 <= d0 && d0 <= 57) || !(48 <= d1 && d1 <= 57) || !(48 <= d2 && d2 <= 57) {
            proof {
                assert(canonical_digits(payload@.subrange(7, payload@.len() - 1)) is None);
            }
            return None;
        }
        let v: u16 = (d0 - 48) as u16 * 100 + (d1 - 48) as u16 * 10 + (d2 - 48) as u16;
        if v > 255 {
            proof {
                assert(canonical_digits(payload@.subrange(7, payload@.len() - 1)) is None);
            }
            return None;
        }
        v
    };
    proof {
        assert(canonical_digits(payload@.subrange(7, payload@.len() - 1)) == Some(value as int));
    }
    let t0 = *slice_index_get(payload, 2);
    let t1 = *slice_index_get(payload, 3);
    let t2 = *slice_index_get(payload, 4);
    if t0 == 73 && t1 == 110 && t2 == 99 {
        Some(Command::Increase(value as u8))
    } else if t0 == 68 && t1 == 101 && t2 == 99 {
        Some(Command::Decrease(value as u8))
    } else if t0 == 83 && t1 == 101 && t2 == 116 {
        Some(Command::SetAbsolute(value as u8))
    } else {
        None
    }
}

} // verus!

