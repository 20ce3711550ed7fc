//! Colours written as `0xRRGGBB`.

use vstd::prelude::*;
use vstd::string::StringSliceAdditionalSpecFns;

verus! {

/// Why a colour string was rejected.
#[derive(Clone, Copy, Debug, PartialEq, Eq, Structural)]
pub enum ColorParseError {
    /// The string does not begin with `0x`.
    MissingPrefix,
    /// The string is not eight bytes long.
    WrongLength,
    /// A byte after the prefix is not a hexadecimal digit.
    InvalidDigit,
}

impl ColorParseError {
    /// The diagnostic text of this error.
    pub open spec fn spec_message(self) -> Seq<char> {
        match self {
            ColorParseError::MissingPrefix => "Color does not start with 0x"@,
            ColorParseError::WrongLength => "Only 0xRRGGBB supported"@,
            ColorParseError::InvalidDigit => "Invalid hex digit found"@,
        }
    }

    /// Returns the diagnostic text of this error.
    pub fn message(&self) -> (r: String)
        ensures
            r@ == self.spec_message(),
    {
        match self {
            ColorParseError::MissingPrefix => "Color does not start with 0x".to_owned(),
            ColorParseError::WrongLength => "Only 0xRRGGBB supported".to_owned(),
            ColorParseError::InvalidDigit => "Invalid hex digit found".to_owned(),
        }
    }
}

/// Whether `b` is one of `0-9`, `A-F`, `a-f`.
pub open spec fn is_hex_digit(b: u8) -> bool {
    (0x30 <= b <= 0x39) || (0x41 <= b <= 0x46) || (0x61 <= b <= 0x66)
}

/// The value of a hexadecimal digit, upper or lower case.
pub open spec fn hex_value(b: u8) -> int
    recommends
        is_hex_digit(b),
{
    if b <= 0x39 {
        b - 0x30
    } else if b <= 0x46 {
        b - 0x41 + 10
    } else {
        b - 0x61 + 10
    }
}

/// The channel value written by the two digits `hi` and `lo`.
pub open spec fn hex_pair(hi: u8, lo: u8) -> int {
    16 * hex_value(hi) + hex_value(lo)
}

/// Whether the bytes begin with `0x`.
pub open spec fn has_prefix(b: Seq<u8>) -> bool {
    b.len() >= 2 && b[0] == 0x30 && b[1] == 0x78
}

/// What a colour string, given by its bytes, denotes.
///
/// The prefix is tested first, then the length, then the digits.
pub open spec fn spec_parse_color(b: Seq<u8>) -> Result<(u8, u8, u8), ColorParseError> {
    if !has_prefix(b) {
        Err(ColorParseError::MissingPrefix)
    } else if b.len() != 8 {
        Err(ColorParseError::WrongLength)
    } else if exists|i: int| 2 <= i < 8 && !is_hex_digit(#[trigger] b[i]) {
        Err(ColorParseError::InvalidDigit)
    } else {
        Ok(
            (
                hex_pair(b[2], b[3]) as u8,
                hex_pair(b[4], b[5]) as u8,
                hex_pair(b[6], b[7]) as u8,
            ),
        )
    }
}

/// Reads one hexadecimal digit.
pub fn hex_digit(b: u8) -> (r: Option<u8>)
    ensures
        r is Some <==> is_hex_digit(b),
        r is Some ==> r->0 as int == hex_value(b),
{
    if 0x30 <= b && b <= 0x39 {
        Some(b - 0x30)
    } else if 0x41 <= b && b <= 0x46 {
        Some(b - 0x41 + 10)
    } else if 0x61 <= b && b <= 0x66 {
        Some(b - 0x61 + 10)
    } else {
        None
    }
}

/// Parses a colour written as `0x` and six hexadecimal digits into its red,
/// green and blue channels.
pub fn parse_color(s: &str) -> (r: Result<(u8, u8, u8), ColorParseError>)
    ensures
        r == spec_parse_color(s.spec_bytes()),
{
    let bytes = s.as_bytes();
    if bytes.len() < 2 || bytes[0] != 0x30 || bytes[1] != 0x78 {
        return Err(ColorParseError::MissingPrefix);
    }
    if bytes.len() != 8 {
        return Err(ColorParseError::WrongLength);
    }
    let mut digits: [u8; 6] = [0; 6];
    let mut i: usize = 0;
    while i < 6
        invariant
            i <= 6,
            bytes@ == s.spec_bytes(),
            has_prefix(bytes@),
            bytes@.len() == 8,
            forall|k: int| 0 <= k < i ==> is_hex_digit(#[trigger] bytes@[k + 2]),
            forall|k: int| 0 <= k < i ==> digits[k] as int == hex_value(#[trigger] bytes@[k + 2]),
        decreases 6 - i,
    {
        match hex_digit(bytes[i + 2]) {
            Some(d) => {
                digits[i] = d;
            },
            None => {
                assert(!is_hex_digit(bytes@[i as int + 2]));
                return Err(ColorParseError::InvalidDigit);
            },
        }
        i += 1;
    }
    proof {
        assert forall|k: int| 2 <= k < 8 implies is_hex_digit(#[trigger] bytes@[k]) by {
            assert(is_hex_digit(bytes@[(k - 2) + 2]));
        }
        assert(digits[0] as int == hex_value(bytes@[0 + 2int]));
        assert(digits[1] as int == hex_value(bytes@[1 + 2int]));
        assert(digits[2] as int == hex_value(bytes@[2 + 2int]));
        assert(digits[3] as int == hex_value(bytes@[3 + 2int]));
        assert(digits[4] as int == hex_value(bytes@[4 + 2int]));
        assert(digits[5] as int == hex_value(bytes@[5 + 2int]));
    }
    Ok(
        (
            16 * digits[0] + digits[1],
            16 * digits[2] + digits[3],
            16 * digits[4] + digits[5],
        ),
    )
}

} // verus!
