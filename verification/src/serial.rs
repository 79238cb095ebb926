//! Diagnostic text sink.
//!
//! Mainline code reports through a byte-oriented serial channel. The
//! writer here is the verified half of that channel: it formats text,
//! hexadecimal and decimal numbers into an output buffer whose exact
//! contents are pinned down by the contracts. Moving the buffered bytes
//! onto the physical transmit register is raw port I/O and stays outside
//! the library.

use vstd::prelude::*;
use vstd::string::StringSliceAdditionalSpecFns;

verus! {

/// Carriage return: lines on the diagnostic channel end with CR + LF.
pub const CR: u8 = 0x0D;

/// Line feed.
pub const LF: u8 = 0x0A;

/// The ASCII digit (lower case for 10..16) for one hexadecimal nibble.
/// Values 16 and above never arise from the writers below.
pub open spec fn hex_digit(n: u8) -> u8 {
    if n < 10 {
        (0x30 + n) as u8
    } else {
        (0x57 + n) as u8
    }
}

/// The two ASCII digits of one byte, high nibble first.
pub open spec fn hex_pair(b: u8) -> Seq<u8> {
    seq![hex_digit(b / 16), hex_digit(b % 16)]
}

/// The eight ASCII digits of a 32-bit value, most significant byte first.
pub open spec fn hex_quad(x: u32) -> Seq<u8> {
    hex_pair((x / 0x1000000) as u8) + hex_pair((x / 0x10000 % 0x100) as u8) + hex_pair(
        (x / 0x100 % 0x100) as u8,
    ) + hex_pair((x % 0x100) as u8)
}

/// The ASCII decimal digits of a number, most significant first, no
/// leading zeroes (a single `0` for zero).
pub open spec fn dec_digits(v: nat) -> Seq<u8>
    decreases v,
{
    if v < 10 {
        seq![(0x30 + v) as u8]
    } else {
        dec_digits(v / 10).push((0x30 + v % 10) as u8)
    }
}

/// Buffered writer for the diagnostic channel. Bytes written through the
/// methods below accumulate in order; its view is the byte sequence
/// produced so far.
pub struct SerialWriter {
    out: Vec<u8>,
}

impl View for SerialWriter {
    type V = Seq<u8>;

    closed spec fn view(&self) -> Seq<u8> {
        self.out@
    }
}

impl SerialWriter {
    /// A writer that has produced nothing yet.
    pub fn new() -> (w: SerialWriter)
        ensures
            w@ == Seq::<u8>::empty(),
    {
        SerialWriter { out: Vec::new() }
    }

    /// The bytes produced so far.
    pub fn output(&self) -> (r: &Vec<u8>)
        ensures
            r@ == self@,
    {
        &self.out
    }

    /// Hand the produced bytes over (to the transmit side) and start over
    /// with an empty buffer.
    pub fn take_output(&mut self) -> (r: Vec<u8>)
        ensures
            r@ == old(self)@,
            final(self)@ == Seq::<u8>::empty(),
    {
        let mut taken: Vec<u8> = Vec::new();
        core::mem::swap(&mut taken, &mut self.out);
        taken
    }

    /// Emit one raw byte.
    pub fn write_char(&mut self, c: u8)
        ensures
            final(self)@ == old(self)@.push(c),
    {
        self.out.push(c);
    }

    /// Emit the bytes of a string.
    pub fn write_str(&mut self, s: &str)
        ensures
            final(self)@ == old(self)@ + s.spec_bytes(),
    {
        let bytes = s.as_bytes();
        let ghost start = self.out@;
        let mut i: usize = 0;
        while i < bytes.len()
            invariant
                i <= bytes@.len(),
                bytes@ == s.spec_bytes(),
                self.out@ == start + bytes@.take(i as int),
            decreases bytes@.len() - i,
        {
            self.out.push(bytes[i]);
            i = i + 1;
            proof {
                assert(bytes@.take(i as int) == bytes@.take(i - 1).push(bytes@[i - 1]));
            }
        }
        proof {
            assert(bytes@.take(i as int) == bytes@);
        }
    }

    /// End the current line: carriage return, then line feed.
    pub fn end_line(&mut self)
        ensures
            final(self)@ == old(self)@ + seq![CR, LF],
    {
        self.out.push(CR);
        self.out.push(LF);
    }

    /// Emit one byte as two hexadecimal digits.
    pub fn write_hex_u8(&mut self, b: u8)
        ensures
            final(self)@ == old(self)@ + hex_pair(b),
    {
        proof {
            assert(b >> 4 == b / 16 && (b & 0xF) == b % 16) by (bit_vector);
        }
        let hi = b >> 4;
        let lo = b & 0xF;
        self.out.push(if hi < 10 {
            0x30 + hi
        } else {
            0x57 + hi
        });
        self.out.push(if lo < 10 {
            0x30 + lo
        } else {
            0x57 + lo
        });
    }

    /// Emit a 32-bit value as eight hexadecimal digits, most significant
    /// first.
    pub fn write_hex_u32(&mut self, x: u32)
        ensures
            final(self)@ == old(self)@ + hex_quad(x),
    {
        proof {
            assert(x >> 24 == x / 0x1000000 && (x >> 16) & 0xFF == x / 0x10000 % 0x100 && (x >> 8)
                & 0xFF == x / 0x100 % 0x100 && x & 0xFF == x % 0x100) by (bit_vector);
        }
        self.write_hex_u8((x >> 24) as u8);
        self.write_hex_u8(((x >> 16) & 0xFF) as u8);
        self.write_hex_u8(((x >> 8) & 0xFF) as u8);
        self.write_hex_u8((x & 0xFF) as u8);
    }

    /// Emit a byte as decimal digits, most significant first, without
    /// leading zeroes.
    pub fn write_dec_u8(&mut self, v: u8)
        ensures
            final(self)@ == old(self)@ + dec_digits(v as nat),
    {
        let ghost v0 = v as nat;
        if v == 0 {
            self.write_char(0x30);
            return ;
        }
        let mut digits: Vec<u8> = Vec::new();
        let mut rest: u8 = v;
        while rest != 0
            invariant
                rest <= 255,
                digits@.len() >= 1 ==> rest <= 25,
                digits@.len() >= 2 ==> rest <= 2,
                digits@.len() >= 3 ==> rest == 0,
                rest > 0 ==> dec_digits(v0) == dec_digits(rest as nat) + digits@.reverse(),
                rest == 0 ==> dec_digits(v0) == digits@.reverse(),
            decreases rest,
        {
            let ghost before = digits@;
            let d = rest % 10;
            digits.push(0x30 + d);
            let ghost prev = rest as nat;
            rest = rest / 10;
            proof {
                assert(digits@.reverse() =~= seq![(0x30 + prev % 10) as u8] + before.reverse());
                if rest > 0 {
                    assert(dec_digits(prev) == dec_digits(prev / 10).push((0x30 + prev % 10) as u8));
                    assert(dec_digits(rest as nat) + digits@.reverse() =~= (dec_digits(
                        rest as nat,
                    ).push((0x30 + prev % 10) as u8)) + before.reverse());
                } else {
                    assert(dec_digits(prev) == seq![(0x30 + prev) as u8]);
                    assert(digits@.reverse() =~= dec_digits(prev) + before.reverse());
                }
            }
        }
        let ghost text = dec_digits(v0);
        let ghost start = self.out@;
        proof {
            assert(text == digits@.reverse());
            assert(text.len() == digits@.len());
        }
        let mut n: usize = digits.len();
        while n != 0
            invariant
                n <= digits@.len(),
                text == digits@.reverse(),
                text.len() == digits@.len(),
                self.out@ == start + text.take(text.len() - n),
            decreases n,
        {
            n = n - 1;
            self.out.push(digits[n]);
            proof {
                assert(digits@.reverse()[text.len() - n - 1] == digits@[n as int]);
                assert(self.out@ =~= start + text.take(text.len() - n));
            }
        }
        proof {
            assert(text.take(text.len() as int) == text);
        }
    }

    /// Emit a string followed by the line ending.
    pub fn write_line(&mut self, s: &str)
        ensures
            final(self)@ == old(self)@ + s.spec_bytes() + seq![CR, LF],
    {
        self.write_str(s);
        self.end_line();
    }
}

} // verus!
