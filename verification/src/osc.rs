//! Reduced OSC records: a message is one address path and a single
//! argument, either a 32-bit float or a string.
//!
//! Float arguments are carried as their IEEE-754 single-precision bit
//! patterns (`u32`), so that all reasoning stays on plain integers; the
//! process boundary turns bits back into floats when it encodes a packet
//! for the wire.

use vstd::prelude::*;
use vstd::string::*;

verus! {

/// A single OSC argument: a float (as its IEEE-754 bit pattern) or a string.
#[derive(Debug, PartialEq)]
pub enum MinOscArg {
    Float(u32),
    Str(String),
}

/// A reduced OSC message: one address path, one argument.
#[derive(Debug, PartialEq)]
pub struct MinOscMessage {
    pub path: String,
    pub arg: MinOscArg,
}

/// Mathematical image of a `MinOscArg`.
pub enum MinOscArgView {
    Float(u32),
    Str(Seq<char>),
}

/// Mathematical image of a `MinOscMessage`.
pub struct MinOscMessageView {
    pub path: Seq<char>,
    pub arg: MinOscArgView,
}

impl View for MinOscArg {
    type V = MinOscArgView;

    open spec fn view(&self) -> MinOscArgView {
        match self {
            MinOscArg::Float(bits) => MinOscArgView::Float(*bits),
            MinOscArg::Str(s) => MinOscArgView::Str(s@),
        }
    }
}

impl View for MinOscMessage {
    type V = MinOscMessageView;

    open spec fn view(&self) -> MinOscMessageView {
        MinOscMessageView { path: self.path@, arg: self.arg@ }
    }
}

impl Clone for MinOscArg {
    fn clone(&self) -> (res: Self)
        ensures
            res@ == self@,
    {
        match self {
            MinOscArg::Float(bits) => MinOscArg::Float(*bits),
            MinOscArg::Str(s) => MinOscArg::Str(s.clone()),
        }
    }
}

impl Clone for MinOscMessage {
    fn clone(&self) -> (res: Self)
        ensures
            res@ == self@,
    {
        MinOscMessage { path: self.path.clone(), arg: self.arg.clone() }
    }
}

impl Default for MinOscArg {
    /// The default argument is the string `"/"`.
    fn default() -> (res: Self)
        ensures
            res@ == MinOscArgView::Str("/"@),
    {
        MinOscArg::Str(String::from_str("/"))
    }
}

/// The IEEE-754 single-precision bit pattern of the small non-negative
/// integer `n` (a 7-bit MIDI code, hence `n < 256` suffices): zero maps to
/// the all-zero pattern, and otherwise the exponent field holds
/// `127 + floor(log2 n)` and the mantissa field the bits of `n` below its
/// leading one, left-aligned.  Every integer below 256 is exactly
/// representable, so this is the bit pattern of `n as f32`.
pub open spec fn f32_bits_of_code(n: int) -> int {
    if n <= 0 {
        0
    } else if n < 2 {
        127 * 0x800000 + (n - 1) * 0x800000
    } else if n < 4 {
        128 * 0x800000 + (n - 2) * 0x400000
    } else if n < 8 {
        129 * 0x800000 + (n - 4) * 0x200000
    } else if n < 16 {
        130 * 0x800000 + (n - 8) * 0x100000
    } else if n < 32 {
        131 * 0x800000 + (n - 16) * 0x80000
    } else if n < 64 {
        132 * 0x800000 + (n - 32) * 0x40000
    } else if n < 128 {
        133 * 0x800000 + (n - 64) * 0x20000
    } else if n < 256 {
        134 * 0x800000 + (n - 128) * 0x10000
    } else {
        0
    }
}

/// Bit pattern of `code as f32` for a MIDI code.
pub fn midi_code_bits(code: u8) -> (bits: u32)
    ensures
        bits == f32_bits_of_code(code as int),
{
    let n = code as u32;
    if n == 0 {
        0
    } else if n < 2 {
        127 * 0x800000 + (n - 1) * 0x800000
    } else if n < 4 {
        128 * 0x800000 + (n - 2) * 0x400000
    } else if n < 8 {
        129 * 0x800000 + (n - 4) * 0x200000
    } else if n < 16 {
        130 * 0x800000 + (n - 8) * 0x100000
    } else if n < 32 {
        131 * 0x800000 + (n - 16) * 0x80000
    } else if n < 64 {
        132 * 0x800000 + (n - 32) * 0x40000
    } else if n < 128 {
        133 * 0x800000 + (n - 64) * 0x20000
    } else {
        134 * 0x800000 + (n - 128) * 0x10000
    }
}

/// The views of a sequence of messages, in order.
pub open spec fn msgs_view(s: Seq<MinOscMessage>) -> Seq<MinOscMessageView> {
    Seq::new(s.len(), |i: int| s[i]@)
}

/// ASCII decimal digits of `n` without leading zeros; empty for `n <= 0`.
pub open spec fn dec_digits(n: int) -> Seq<u8>
    decreases n,
{
    if n <= 0 {
        seq![]
    } else {
        dec_digits(n / 10).push((48 + n % 10) as u8)
    }
}

/// ASCII decimal rendering of `n`; `"0"` for zero.
pub open spec fn dec_bytes(n: int) -> Seq<u8> {
    if n == 0 {
        seq![48u8]
    } else {
        dec_digits(n)
    }
}

/// The wire frame of `bs` from position `i` on: each byte rendered as its
/// decimal value, bytes joined by single spaces, the whole terminated by
/// `';'`.
pub open spec fn frame_from(bs: Seq<u8>, i: int) -> Seq<u8>
    decreases bs.len() - i,
{
    if i < 0 || i >= bs.len() {
        seq![59u8]
    } else {
        dec_bytes(bs[i] as int) + (if i + 1 < bs.len() {
            seq![32u8]
        } else {
            Seq::<u8>::empty()
        }) + frame_from(bs, i + 1)
    }
}

/// The line-oriented ASCII frame of an encoded packet: decimal byte
/// values separated by single spaces, terminated by `';'`.
pub open spec fn spec_frame(bs: Seq<u8>) -> Seq<u8> {
    frame_from(bs, 0)
}

/// Append the ASCII decimal rendering of `b` to `out`.
fn push_decimal(out: &mut Vec<u8>, b: u8)
    ensures
        final(out)@ == old(out)@ + dec_bytes(b as int),
{
    proof {
        reveal_with_fuel(dec_digits, 4);
    }
    if b >= 100 {
        out.push(48 + b / 100);
    }
    if b >= 10 {
        out.push(48 + (b / 10) % 10);
    }
    out.push(48 + b % 10);
    assert(out@ =~= old(out)@ + dec_bytes(b as int));
}

/// Render an encoded OSC packet in the target's line format: the decimal
/// value of each byte, single spaces between bytes, a `';'` record
/// terminator.
pub fn frame_packet(bytes: &Vec<u8>) -> (frame: Vec<u8>)
    ensures
        frame@ == spec_frame(bytes@),
{
    let mut out: Vec<u8> = Vec::new();
    let n = bytes.len();
    for i in 0..n
        invariant
            n == bytes@.len(),
            spec_frame(bytes@) == out@ + frame_from(bytes@, i as int),
    {
        let ghost prev = out@;
        push_decimal(&mut out, bytes[i]);
        if i + 1 < n {
            out.push(32);
        }
        proof {
            let sep: Seq<u8> = if i + 1 < bytes@.len() {
                seq![32u8]
            } else {
                Seq::<u8>::empty()
            };
            assert(frame_from(bytes@, i as int) == dec_bytes(bytes@[i as int] as int) + sep
                + frame_from(bytes@, i + 1));
            assert(out@ =~= prev + dec_bytes(bytes@[i as int] as int) + sep);
            assert(out@ + frame_from(bytes@, i + 1) =~= prev + frame_from(bytes@, i as int));
        }
    }
    out.push(59);
    assert(out@ =~= spec_frame(bytes@));
    out
}

} // verus!
