//! The command line's options and the password settings they stand for.

use crate::password::pool_of;
use crate::password::CharacterMode;
use crate::password::PasswordConfig;
use crate::password::RandomPassword;
use crate::password::DEFAULT_CHARACTER_MODE;
use crate::password::DEFAULT_LENGTH;
use crate::text::chars_of;
use crate::text::contains_char;
use vstd::prelude::*;

verus! {

/// The options as they were given on the command line.
#[derive(Debug, Clone)]
pub struct Args {
    /// The password length, when one was given.
    pub length: Option<usize>,
    /// Whether the password goes to the clipboard.
    pub to_clipboard: bool,
    /// Whether only the password is printed.
    pub quiet: bool,
    /// The mode letters: u = uppercase, l = lowercase, s = symbols,
    /// n = numbers, e = exclude similar characters.
    pub mode: String,
    /// Characters to add to the pool.
    pub extra_chars: String,
}

/// The letter cases that the mode letters select: both cases where both
/// `u` and `l` are given, and the default where neither is.
pub open spec fn character_mode_of(mode: Seq<char>) -> CharacterMode {
    if mode.contains('u') && mode.contains('l') {
        CharacterMode::LowerUpper
    } else if mode.contains('u') {
        CharacterMode::Upper
    } else if mode.contains('l') {
        CharacterMode::Lower
    } else {
        DEFAULT_CHARACTER_MODE
    }
}

/// The password settings that the options stand for.
pub open spec fn config_of(args: Args) -> PasswordConfig {
    PasswordConfig {
        length: match args.length {
            Some(length) => length,
            None => DEFAULT_LENGTH,
        },
        character_mode: character_mode_of(args.mode@),
        include_numbers: args.mode@.contains('n'),
        include_symbols: args.mode@.contains('s'),
        exclude_similar: args.mode@.contains('e'),
        extra_chars: args.extra_chars@,
    }
}

/// Reads the options into a password: its length, and the pool that the
/// mode letters and the extra characters describe.
pub fn get_random_password(args: &Args) -> (password: RandomPassword)
    ensures
        password.length == config_of(*args).length,
        password.base_string@ == pool_of(config_of(*args)),
{
    let mode = args.mode.as_str();
    let include_numbers = contains_char(mode, 'n');
    let include_symbols = contains_char(mode, 's');
    let exclude_similar_chars = contains_char(mode, 'e');
    let character_mode = match (contains_char(mode, 'u'), contains_char(mode, 'l')) {
        (true, true) => CharacterMode::LowerUpper,
        (true, false) => CharacterMode::Upper,
        (false, true) => CharacterMode::Lower,
        (false, false) => DEFAULT_CHARACTER_MODE,
    };
    let length = match args.length {
        Some(length) => length,
        None => DEFAULT_LENGTH,
    };
    RandomPassword::builder().length(length).character_mode(character_mode).include_numbers(
        include_numbers,
    ).include_symbols(include_symbols).exclude_similar(exclude_similar_chars).extra_chars(
        chars_of(args.extra_chars.as_str()),
    ).build()
}

} // verus!
