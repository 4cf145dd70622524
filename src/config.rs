//! Serial port configuration: the three-character form such as `8N1`, with
//! the character size, the parity and the number of stop bits.
use vstd::prelude::*;
use vstd::string::StrSliceExecFns;

verus! {

/// Number of data bits in one character.
#[derive(Clone, Copy, Debug, PartialEq, Eq, Structural)]
pub enum CharSize {
    Bits5,
    Bits6,
    Bits7,
    Bits8,
}

/// Parity bit of each character.
#[derive(Clone, Copy, Debug, PartialEq, Eq, Structural)]
pub enum Parity {
    Disabled,
    Even,
    Odd,
}

/// Number of stop bits after each character.
#[derive(Clone, Copy, Debug, PartialEq, Eq, Structural)]
pub enum StopBits {
    One,
    Two,
}

/// A fully resolved line configuration: every field is set.
#[derive(Clone, Copy, Debug, PartialEq, Eq, Structural)]
pub struct PortConfig {
    pub char_size: CharSize,
    pub parity: Parity,
    pub stop_bits: StopBits,
}

/// Why a configuration string was rejected.
#[derive(Clone, Copy, Debug, PartialEq, Eq, Structural)]
pub enum ConfigError {
    /// The string does not have exactly three characters.
    WrongLength,
    /// The first character is not one of `5`, `6`, `7`, `8`.
    UnknownCharSize,
    /// The second character is not one of `N`, `E`, `O`.
    UnknownParity,
    /// The third character is not one of `1`, `2`.
    UnknownStopBits,
}

/// The configuration used when none is given: eight data bits, no parity,
/// one stop bit.
pub const DEFAULT_CONFIG: &'static str = "8N1";

/// The character size named by a digit.
pub open spec fn char_size_spec(c: char) -> Option<CharSize> {
    if c == '5' {
        Some(CharSize::Bits5)
    } else if c == '6' {
        Some(CharSize::Bits6)
    } else if c == '7' {
        Some(CharSize::Bits7)
    } else if c == '8' {
        Some(CharSize::Bits8)
    } else {
        None
    }
}

/// The parity named by a letter.
pub open spec fn parity_spec(c: char) -> Option<Parity> {
    if c == 'N' {
        Some(Parity::Disabled)
    } else if c == 'E' {
        Some(Parity::Even)
    } else if c == 'O' {
        Some(Parity::Odd)
    } else {
        None
    }
}

/// The number of stop bits named by a digit.
pub open spec fn stop_bits_spec(c: char) -> Option<StopBits> {
    if c == '1' {
        Some(StopBits::One)
    } else if c == '2' {
        Some(StopBits::Two)
    } else {
        None
    }
}

/// What a configuration string means: the length is checked first, then
/// the three fields from left to right.
pub open spec fn config_spec(s: Seq<char>) -> Result<PortConfig, ConfigError> {
    if s.len() != 3 {
        Err(ConfigError::WrongLength)
    } else if char_size_spec(s[0]) is None {
        Err(ConfigError::UnknownCharSize)
    } else if parity_spec(s[1]) is None {
        Err(ConfigError::UnknownParity)
    } else if stop_bits_spec(s[2]) is None {
        Err(ConfigError::UnknownStopBits)
    } else {
        Ok(
            PortConfig {
                char_size: char_size_spec(s[0])->Some_0,
                parity: parity_spec(s[1])->Some_0,
                stop_bits: stop_bits_spec(s[2])->Some_0,
            },
        )
    }
}

/// Whether a string of three characters names a known value in each field.
pub open spec fn fields_known(s: Seq<char>) -> bool {
    &&& s.len() == 3
    &&& char_size_spec(s[0]) is Some
    &&& parity_spec(s[1]) is Some
    &&& stop_bits_spec(s[2]) is Some
}

/// The character size named by `c`, if any.
pub fn char_size_from(c: char) -> (r: Option<CharSize>)
    ensures
        r == char_size_spec(c),
{
    match c {
        '5' => Some(CharSize::Bits5),
        '6' => Some(CharSize::Bits6),
        '7' => Some(CharSize::Bits7),
        '8' => Some(CharSize::Bits8),
        _ => None,
    }
}

/// The parity named by `c`, if any.
pub fn parity_from(c: char) -> (r: Option<Parity>)
    ensures
        r == parity_spec(c),
{
    match c {
        'N' => Some(Parity::Disabled),
        'E' => Some(Parity::Even),
        'O' => Some(Parity::Odd),
        _ => None,
    }
}

/// The number of stop bits named by `c`, if any.
pub fn stop_bits_from(c: char) -> (r: Option<StopBits>)
    ensures
        r == stop_bits_spec(c),
{
    match c {
        '1' => Some(StopBits::One),
        '2' => Some(StopBits::Two),
        _ => None,
    }
}

/// Reads a configuration string such as `8N1`: a digit for the character
/// size, a letter for the parity and a digit for the stop bits.
pub fn parse_config(cfg: &str) -> (r: Result<PortConfig, ConfigError>)
    ensures
        r == config_spec(cfg@),
{
    if cfg.unicode_len() != 3 {
        return Err(ConfigError::WrongLength);
    }
    let char_size = match char_size_from(cfg.get_char(0)) {
        Some(v) => v,
        None => return Err(ConfigError::UnknownCharSize),
    };
    let parity = match parity_from(cfg.get_char(1)) {
        Some(v) => v,
        None => return Err(ConfigError::UnknownParity),
    };
    let stop_bits = match stop_bits_from(cfg.get_char(2)) {
        Some(v) => v,
        None => return Err(ConfigError::UnknownStopBits),
    };
    Ok(PortConfig { char_size, parity, stop_bits })
}

/// A configuration string is accepted exactly when it has three characters
/// and each names a known value; any other string is rejected, with no
/// configuration to open a channel with.
pub proof fn lemma_config_accepted_iff_known(s: Seq<char>)
    ensures
        config_spec(s) is Ok <==> fields_known(s),
        s.len() != 3 ==> config_spec(s) == Err::<PortConfig, ConfigError>(ConfigError::WrongLength),
        config_spec(s) is Ok ==> ({
            let c = config_spec(s)->Ok_0;
            &&& char_size_spec(s[0]) == Some(c.char_size)
            &&& parity_spec(s[1]) == Some(c.parity)
            &&& stop_bits_spec(s[2]) == Some(c.stop_bits)
        }),
{
}

} // verus!
