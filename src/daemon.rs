//! The line protocol of the device daemon: one command per line,
//! `power_on`, `power_off`, `set_color:R,G,B` or `set_brightness:B`.
use crate::text::{
    find_byte, first_index, parse_u8, parse_u8_at, trim_bounds, trimmed,
};
use vstd::prelude::*;
use vstd::string::StringSliceAdditionalSpecFns;

verus! {

/// A command of the daemon protocol.
#[derive(Debug, Clone, Copy, PartialEq, Eq)]
pub enum DaemonCommand {
    PowerOn,
    PowerOff,
    SetColor(u8, u8, u8),
    SetBrightness(u8),
}

/// Why a line is not a command.
#[derive(Debug, Clone, Copy, PartialEq, Eq)]
pub enum DaemonError {
    /// `set_color` without `:` and an argument.
    MissingColor,
    /// `set_brightness` without `:` and an argument.
    MissingBrightness,
    /// A color component is not a byte in decimal.
    InvalidColor,
    /// The brightness is not a byte in decimal.
    InvalidBrightness,
    /// A color with other than three components.
    ColorCount,
    /// A brightness above 100.
    BrightnessOutOfRange,
    /// An unknown command word, at these byte offsets of the line.
    Unknown(usize, usize),
}

/// The command word: the line up to its first `:`.
pub open spec fn command_word(t: Seq<u8>) -> Seq<u8> {
    t.take(first_index(t, 0x3a) as int)
}

/// The argument: what follows the first `:` up to the next one, if the line
/// has a `:`.
pub open spec fn argument(t: Seq<u8>) -> Option<Seq<u8>> {
    let k = first_index(t, 0x3a);
    if k < t.len() {
        let rest = t.skip(k + 1 as int);
        Some(rest.take(first_index(rest, 0x3a) as int))
    } else {
        None
    }
}

/// The values of a comma-separated list of bytes in decimal, each item
/// trimmed, or `None` if an item is not one.
pub open spec fn byte_list(a: Seq<u8>) -> Option<Seq<u8>>
    decreases a.len(),
{
    let k = first_index(a, 0x2c);
    match parse_u8(trimmed(a.take(k as int))) {
        None => None,
        Some(v) => if k >= a.len() {
            Some(seq![v])
        } else {
            match byte_list(a.skip(k + 1 as int)) {
                None => None,
                Some(rest) => Some(seq![v] + rest),
            }
        },
    }
}

pub open spec fn with_prefix(v: Seq<u8>, o: Option<Seq<u8>>) -> Option<Seq<u8>> {
    match o {
        None => None,
        Some(s) => Some(v + s),
    }
}

/// What a trimmed line asks for; `None` for an unknown command word.
pub open spec fn parsed_line(t: Seq<u8>) -> Option<Result<DaemonCommand, DaemonError>> {
    let w = command_word(t);
    if w == "power_on".spec_bytes() {
        Some(Ok(DaemonCommand::PowerOn))
    } else if w == "power_off".spec_bytes() {
        Some(Ok(DaemonCommand::PowerOff))
    } else if w == "set_color".spec_bytes() {
        Some(
            match argument(t) {
                None => Err(DaemonError::MissingColor),
                Some(a) => match byte_list(a) {
                    None => Err(DaemonError::InvalidColor),
                    Some(v) => if v.len() == 3 {
                        Ok(DaemonCommand::SetColor(v[0], v[1], v[2]))
                    } else {
                        Err(DaemonError::ColorCount)
                    },
                },
            },
        )
    } else if w == "set_brightness".spec_bytes() {
        Some(
            match argument(t) {
                None => Err(DaemonError::MissingBrightness),
                Some(a) => match parse_u8(trimmed(a)) {
                    None => Err(DaemonError::InvalidBrightness),
                    Some(v) => if v > 100 {
                        Err(DaemonError::BrightnessOutOfRange)
                    } else {
                        Ok(DaemonCommand::SetBrightness(v))
                    },
                },
            },
        )
    } else {
        None
    }
}

/// Whether `b[from..to]` is exactly `name`.
fn bytes_are(b: &[u8], from: usize, to: usize, name: &str) -> (r: bool)
    requires
        from <= to <= b@.len(),
    ensures
        r == (b@.subrange(from as int, to as int) == name.spec_bytes()),
{
    let n = name.as_bytes();
    if to - from != n.len() {
        return false;
    }
    let mut i: usize = 0;
    while i < n.len()
        invariant
            from <= to <= b@.len(),
            to - from == n@.len(),
            n@ == name.spec_bytes(),
            i <= n@.len(),
            forall|j: int| 0 <= j < i ==> b@[from + j] == n@[j],
        decreases n@.len() - i,
    {
        if b[from + i] != n[i] {
            proof {
                assert(b@.subrange(from as int, to as int)[i as int] != n@[i as int]);
            }
            return false;
        }
        i = i + 1;
    }
    proof {
        assert(b@.subrange(from as int, to as int) =~= n@);
    }
    true
}

/// The values of the comma-separated list `b[from..to]`.
fn byte_list_at(b: &[u8], from: usize, to: usize) -> (r: Option<Vec<u8>>)
    requires
        from <= to <= b@.len(),
    ensures
        match r {
            None => byte_list(b@.subrange(from as int, to as int)) is None,
            Some(v) => byte_list(b@.subrange(from as int, to as int)) == Some(v@),
        },
{
    let ghost whole = b@.subrange(from as int, to as int);
    let mut vals: Vec<u8> = Vec::new();
    let mut start = from;
    loop
        invariant_except_break
            byte_list(whole) == with_prefix(vals@, byte_list(b@.subrange(start as int, to as int))),
        invariant
            from <= start <= to <= b@.len(),
            whole == b@.subrange(from as int, to as int),
        ensures
            byte_list(whole) == Some(vals@),
        decreases to - start,
    {
        let ghost sub = b@.subrange(start as int, to as int);
        let k = find_byte(b, start, to, 0x2c);
        let (ts, te) = trim_bounds(b, start, k);
        proof {
            assert(sub.take(k - start) =~= b@.subrange(start as int, k as int));
        }
        match parse_u8_at(b, ts, te) {
            None => {
                return None;
            },
            Some(v) => {
                proof {
                    if k < to {
                        assert(sub.skip(k - start + 1) =~= b@.subrange(k + 1, to as int));
                        assert(vals@.push(v) =~= vals@ + seq![v]);
                        match byte_list(b@.subrange(k + 1, to as int)) {
                            None => {},
                            Some(rest) => {
                                assert(vals@ + (seq![v] + rest) =~= vals@.push(v) + rest);
                            },
                        }
                    } else {
                        assert(vals@ + seq![v] =~= vals@.push(v));
                    }
                }
                vals.push(v);
                if k == to {
                    break ;
                }
                start = k + 1;
            },
        }
    }
    Some(vals)
}

/// Parses one line of the daemon protocol. The line is trimmed of ASCII
/// whitespace; the command word runs up to the first `:` and the argument
/// from there to the next `:`. Color components and the brightness are
/// bytes in decimal, each trimmed; an invalid number is reported before a
/// wrong number of components.
pub fn parse_command(line: &str) -> (r: Result<DaemonCommand, DaemonError>)
    ensures
        ({
            let t = trimmed(line.spec_bytes());
            match parsed_line(t) {
                Some(x) => r == x,
                None => match r {
                    Err(DaemonError::Unknown(s, e)) => s <= e <= line.spec_bytes().len()
                        && line.spec_bytes().subrange(s as int, e as int) == command_word(t),
                    _ => false,
                },
            }
        }),
{
    let b = line.as_bytes();
    let (ts, te) = trim_bounds(b, 0, b.len());
    proof {
        assert(b@.subrange(0, b@.len() as int) =~= b@);
    }
    let ghost t = b@.subrange(ts as int, te as int);
    let k = find_byte(b, ts, te, 0x3a);
    proof {
        assert(command_word(t) =~= b@.subrange(ts as int, k as int));
    }
    let has_arg = k < te;
    let (a_start, a_end) = if has_arg {
        let e = find_byte(b, k + 1, te, 0x3a);
        proof {
            let rest = t.skip(k - ts + 1);
            assert(rest =~= b@.subrange(k + 1, te as int));
            assert(rest.take(e - (k + 1)) =~= b@.subrange(k + 1, e as int));
        }
        (k + 1, e)
    } else {
        (te, te)
    };
    if bytes_are(b, ts, k, "power_on") {
        Ok(DaemonCommand::PowerOn)
    } else if bytes_are(b, ts, k, "power_off") {
        Ok(DaemonCommand::PowerOff)
    } else if bytes_are(b, ts, k, "set_color") {
        if !has_arg {
            return Err(DaemonError::MissingColor);
        }
        match byte_list_at(b, a_start, a_end) {
            None => Err(DaemonError::InvalidColor),
            Some(v) => {
                if v.len() == 3 {
                    Ok(DaemonCommand::SetColor(v[0], v[1], v[2]))
                } else {
                    Err(DaemonError::ColorCount)
                }
            },
        }
    } else if bytes_are(b, ts, k, "set_brightness") {
        if !has_arg {
            return Err(DaemonError::MissingBrightness);
        }
        let (vs, ve) = trim_bounds(b, a_start, a_end);
        match parse_u8_at(b, vs, ve) {
            None => Err(DaemonError::InvalidBrightness),
            Some(v) => {
                if v > 100 {
                    Err(DaemonError::BrightnessOutOfRange)
                } else {
                    Ok(DaemonCommand::SetBrightness(v))
                }
            },
        }
    } else {
        Err(DaemonError::Unknown(ts, k))
    }
}

} // verus!
