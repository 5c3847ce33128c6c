//! Character classification over an "ASCII byte or end-of-input" value.

use vstd::prelude::*;

verus! {

/// Whitespace, by byte code: space or horizontal tab.
pub open spec fn ws_code(c: int) -> bool {
    c == ' ' as int || c == '\t' as int
}

/// A lower-case ASCII letter, by byte code.
pub open spec fn lc_letter_code(c: int) -> bool {
    'a' as int <= c <= 'z' as int
}

/// An upper-case ASCII letter, by byte code.
pub open spec fn uc_letter_code(c: int) -> bool {
    'A' as int <= c <= 'Z' as int
}

/// A decimal digit, by byte code.
pub open spec fn digit_code(c: int) -> bool {
    '0' as int <= c <= '9' as int
}

/// A hexadecimal digit, by byte code.
pub open spec fn hex_digit_code(c: int) -> bool {
    digit_code(c) || 'a' as int <= c <= 'f' as int || 'A' as int <= c <= 'F' as int
}

/// An octal digit, by byte code.
pub open spec fn oct_digit_code(c: int) -> bool {
    '0' as int <= c <= '7' as int
}

/// An ASCII letter, by byte code.
pub open spec fn letter_code(c: int) -> bool {
    lc_letter_code(c) || uc_letter_code(c)
}

/// A byte that may start an identifier: a letter, underscore or dollar.
pub open spec fn identifier_start_code(c: int) -> bool {
    letter_code(c) || c == '_' as int || c == '$' as int
}

/// A byte that may continue an identifier.
pub open spec fn identifier_continue_code(c: int) -> bool {
    identifier_start_code(c) || digit_code(c)
}

/// The result of an attempted read of one byte from the input stream:
/// either a byte code in `0 ..= 0xFF`, or a negative end-of-input sentinel.
#[derive(Debug, Clone, Copy, PartialEq, Eq, Structural)]
pub struct AsciiChar {
    code: i32,
}

/// The result of an attempted read of a unicode character: a code point,
/// or a negative end-of-input / error sentinel. Unicode scanning itself is
/// not implemented; the type exists for the stream interface.
#[derive(Debug, Clone, Copy, PartialEq, Eq, Structural)]
pub struct NonAsciiChar {
    code: i32,
}

impl AsciiChar {
    /// The mathematical value carried: a byte code, or -1 for end-of-input.
    pub closed spec fn code(self) -> int {
        self.code as int
    }

    pub fn new(code: u8) -> (r: AsciiChar)
        ensures
            r.code() == code as int,
    {
        AsciiChar { code: code as i32 }
    }

    pub fn end() -> (r: AsciiChar)
        ensures
            r.code() == -1,
    {
        AsciiChar { code: -1 }
    }

    pub fn is_valid(self) -> (r: bool)
        ensures
            r <==> (self.code() == -1 || (0 <= self.code() <= 0xFF)),
    {
        (self.code == -1) || (self.code >= 0 && self.code <= 0xFF)
    }

    pub fn octet_value(self) -> (r: u8)
        requires
            0 <= self.code() <= 0xFF,
        ensures
            r as int == self.code(),
    {
        self.code as u8
    }

    /// The byte code, or 0xFF (which no token rule accepts) for a value
    /// that carries no byte.
    pub fn octet_value_or_0xff(self) -> (r: u8)
        ensures
            r as int == (if 0 <= self.code() <= 0xFF {
                self.code()
            } else {
                0xFF as int
            }),
    {
        if self.code >= 0 && self.code <= 0xFF {
            self.code as u8
        } else {
            0xFF
        }
    }

    pub fn is_end(self) -> (r: bool)
        ensures
            r <==> self.code() < 0,
    {
        self.code < 0
    }

    pub fn is_ascii_or_end(self) -> (r: bool)
        ensures
            r <==> self.code() < 0x80,
    {
        self.code < 0x80
    }

    pub fn ascii_value(self) -> (r: u8)
        requires
            0 <= self.code() < 0x80,
        ensures
            r as int == self.code(),
    {
        self.code as u8
    }

    pub fn is_char(self, ch: char) -> (r: bool)
        ensures
            r <==> self.code() == ch as int,
    {
        self.code == ch as i32
    }

    pub open spec fn spec_is_whitespace(self) -> bool {
        ws_code(self.code())
    }

    pub fn is_whitespace(self) -> (r: bool)
        ensures
            r == self.spec_is_whitespace(),
    {
        self.is_char(' ') || self.is_char('\t')
    }

    pub open spec fn spec_is_lc_letter(self) -> bool {
        lc_letter_code(self.code())
    }

    pub fn is_lc_letter(self) -> (r: bool)
        ensures
            r == self.spec_is_lc_letter(),
    {
        (self.code >= 'a' as i32) && (self.code <= 'z' as i32)
    }

    pub open spec fn spec_is_uc_letter(self) -> bool {
        uc_letter_code(self.code())
    }

    pub fn is_uc_letter(self) -> (r: bool)
        ensures
            r == self.spec_is_uc_letter(),
    {
        (self.code >= 'A' as i32) && (self.code <= 'Z' as i32)
    }

    pub open spec fn spec_is_digit(self) -> bool {
        digit_code(self.code())
    }

    pub fn is_digit(self) -> (r: bool)
        ensures
            r == self.spec_is_digit(),
    {
        (self.code >= '0' as i32) && (self.code <= '9' as i32)
    }

    pub open spec fn spec_is_hex_digit(self) -> bool {
        hex_digit_code(self.code())
    }

    pub fn is_hex_digit(self) -> (r: bool)
        ensures
            r == self.spec_is_hex_digit(),
    {
        self.is_digit() || (self.code >= 'a' as i32 && self.code <= 'f' as i32) || (self.code
            >= 'A' as i32 && self.code <= 'F' as i32)
    }

    pub open spec fn spec_is_oct_digit(self) -> bool {
        oct_digit_code(self.code())
    }

    pub fn is_oct_digit(self) -> (r: bool)
        ensures
            r == self.spec_is_oct_digit(),
    {
        (self.code >= '0' as i32) && (self.code <= '7' as i32)
    }

    pub open spec fn spec_is_letter(self) -> bool {
        letter_code(self.code())
    }

    pub fn is_letter(self) -> (r: bool)
        ensures
            r == self.spec_is_letter(),
    {
        self.is_lc_letter() || self.is_uc_letter()
    }

    pub open spec fn spec_is_identifier_start(self) -> bool {
        identifier_start_code(self.code())
    }

    pub fn is_identifier_start(self) -> (r: bool)
        ensures
            r == self.spec_is_identifier_start(),
    {
        self.is_letter() || self.is_char('_') || self.is_char('$')
    }

    pub open spec fn spec_is_identifier_continue(self) -> bool {
        identifier_continue_code(self.code())
    }

    pub fn is_identifier_continue(self) -> (r: bool)
        ensures
            r == self.spec_is_identifier_continue(),
    {
        self.is_identifier_start() || self.is_digit()
    }

    pub open spec fn spec_is_carriage_return(self) -> bool {
        self.code() == '\r' as int
    }

    pub fn is_carriage_return(self) -> (r: bool)
        ensures
            r == self.spec_is_carriage_return(),
    {
        self.is_char('\r')
    }

    pub open spec fn spec_is_line_feed(self) -> bool {
        self.code() == '\n' as int
    }

    pub fn is_line_feed(self) -> (r: bool)
        ensures
            r == self.spec_is_line_feed(),
    {
        self.is_char('\n')
    }
}

impl NonAsciiChar {
    /// The mathematical value carried: a code point, -1 for end-of-input,
    /// or -2 for an error.
    pub closed spec fn code(self) -> int {
        self.code as int
    }

    pub fn new(code: i32) -> (r: NonAsciiChar)
        ensures
            r.code() == code as int,
    {
        NonAsciiChar { code }
    }

    pub fn error() -> (r: NonAsciiChar)
        ensures
            r.code() == -2,
    {
        NonAsciiChar { code: -2 }
    }

    pub fn end() -> (r: NonAsciiChar)
        ensures
            r.code() == -1,
    {
        NonAsciiChar { code: -1 }
    }

    pub fn is_valid(self) -> (r: bool)
        ensures
            r <==> (self.code() == -2 || self.code() == -1 || self.code() < 0x10FFFF),
    {
        (self.code == -2) || (self.code == -1) || (self.code < 0x10FFFF)
    }

    pub fn is_end(self) -> (r: bool)
        ensures
            r <==> self.code() == -1,
    {
        self.code == -1
    }

    pub fn is_error(self) -> (r: bool)
        ensures
            r <==> self.code() == -2,
    {
        self.code == -2
    }
}

} // verus!
