//! What holds of every pool, whatever the configuration.

use crate::password::base_chars;
use crate::password::class_chars;
use crate::password::is_similar;
use crate::password::letters_of;
use crate::password::pool_of;
use crate::password::without_similar;
use crate::password::CharacterMode;
use crate::password::PasswordConfig;
use crate::password::LETTERS_LOWER;
use crate::password::LETTERS_UPPER;
use crate::password::NUMBERS;
use crate::password::SYMBOLS;
use vstd::prelude::*;

verus! {

/// Whether `c` is a letter of the pool's alphabet, lowercase or uppercase.
pub open spec fn is_letter(c: char) -> bool {
    LETTERS_LOWER@.contains(c) || LETTERS_UPPER@.contains(c)
}

/// Whether `c` is one of the pool's digits.
pub open spec fn is_number(c: char) -> bool {
    NUMBERS@.contains(c)
}

/// Whether `c` is one of the pool's symbols.
pub open spec fn is_symbol(c: char) -> bool {
    SYMBOLS@.contains(c)
}

/// No character is at once a letter and a digit, a letter and a symbol, or
/// a digit and a symbol.
pub proof fn lemma_classes_disjoint(c: char)
    ensures
        !(is_letter(c) && is_number(c)),
        !(is_letter(c) && is_symbol(c)),
        !(is_number(c) && is_symbol(c)),
{
    reveal_strlit("abcdefghijklmnopqrstuvwxyz");
    reveal_strlit("ABCDEFGHIJKLMNOPQRSTUVWXYZ");
    reveal_strlit("0123456789");
    reveal_strlit("!#$&()*+/");
}

/// The pool ends with the extra characters, unchanged and in their order;
/// what stands before them is the base.
pub proof fn lemma_pool_split(config: PasswordConfig)
    ensures
        pool_of(config).len() == base_chars(config).len() + config.extra_chars.len(),
        pool_of(config).take(base_chars(config).len() as int) == base_chars(config),
        pool_of(config).skip(base_chars(config).len() as int) == config.extra_chars,
{
    let base = base_chars(config);
    let pool = pool_of(config);
    assert(pool.take(base.len() as int) =~= base);
    assert(pool.skip(base.len() as int) =~= config.extra_chars);
}

/// Every base character comes from a class that was selected.
pub proof fn lemma_base_from_classes(config: PasswordConfig, i: int)
    requires
        0 <= i < base_chars(config).len(),
    ensures
        class_chars(config).contains(base_chars(config)[i]),
{
    let classes = class_chars(config);
    if config.exclude_similar {
        let kept = without_similar(classes);
        assert(kept.contains(kept[i]));
        classes.lemma_filter_contains_rev(|c: char| !is_similar(c), kept[i]);
    } else {
        assert(classes.contains(classes[i]));
    }
}

/// With the exclusion switched on, no similar-looking character stands in
/// the pool before the extra characters. The extra characters are exempt:
/// the pool ends with them as they were given.
pub proof fn lemma_exclude_similar(config: PasswordConfig)
    requires
        config.exclude_similar,
    ensures
        forall|i: int|
            0 <= i < pool_of(config).len() - config.extra_chars.len() ==> !is_similar(
                #[trigger] pool_of(config)[i],
            ),
        pool_of(config).skip(pool_of(config).len() - config.extra_chars.len())
            == config.extra_chars,
{
    lemma_pool_split(config);
    let classes = class_chars(config);
    let keep = |c: char| !is_similar(c);
    assert forall|i: int|
        0 <= i < pool_of(config).len() - config.extra_chars.len() implies !is_similar(
        #[trigger] pool_of(config)[i],
    ) by {
        classes.lemma_filter_pred(keep, i);
        assert(pool_of(config)[i] == classes.filter(keep)[i]);
    }
}

/// Every character of the selected classes is a letter, or a digit where
/// digits are selected, or a symbol where symbols are selected.
pub proof fn lemma_class_membership(config: PasswordConfig, c: char)
    requires
        class_chars(config).contains(c),
    ensures
        is_letter(c) || (config.include_numbers && is_number(c)) || (config.include_symbols
            && is_symbol(c)),
{
    let letters = letters_of(config.character_mode);
    let numbers = if config.include_numbers {
        NUMBERS@
    } else {
        Seq::<char>::empty()
    };
    let symbols = if config.include_symbols {
        SYMBOLS@
    } else {
        Seq::<char>::empty()
    };
    let i = choose|i: int| 0 <= i < class_chars(config).len() && class_chars(config)[i] == c;
    if i < letters.len() {
        assert(letters[i] == c);
        match config.character_mode {
            CharacterMode::Lower => {},
            CharacterMode::Upper => {},
            CharacterMode::LowerUpper => {
                if i < LETTERS_LOWER@.len() {
                    assert(LETTERS_LOWER@[i] == c);
                } else {
                    assert(LETTERS_UPPER@[i - LETTERS_LOWER@.len()] == c);
                }
            },
        }
    } else if i < letters.len() + numbers.len() {
        assert(numbers[i - letters.len()] == c);
    } else {
        assert(symbols[i - letters.len() - numbers.len()] == c);
    }
}

/// With the digits switched off, no digit stands in the pool before the
/// extra characters: a digit of the pool is one of the extra characters.
pub proof fn lemma_numbers_left_out(config: PasswordConfig)
    requires
        !config.include_numbers,
    ensures
        forall|i: int|
            0 <= i < pool_of(config).len() - config.extra_chars.len() ==> !is_number(
                #[trigger] pool_of(config)[i],
            ),
        forall|c: char|
            is_number(c) && #[trigger] pool_of(config).contains(c)
                ==> config.extra_chars.contains(c),
{
    lemma_pool_split(config);
    assert forall|i: int| 0 <= i < base_chars(config).len() implies !is_number(
        #[trigger] pool_of(config)[i],
    ) by {
        lemma_base_from_classes(config, i);
        lemma_class_membership(config, base_chars(config)[i]);
        lemma_classes_disjoint(base_chars(config)[i]);
    }
    assert forall|c: char|
        is_number(c) && #[trigger] pool_of(config).contains(c) implies config.extra_chars.contains(
        c,
    ) by {
        let i = choose|i: int| 0 <= i < pool_of(config).len() && pool_of(config)[i] == c;
        assert(config.extra_chars[i - base_chars(config).len()] == c);
    }
}

/// With the symbols switched off, no symbol stands in the pool before the
/// extra characters: a symbol of the pool is one of the extra characters.
pub proof fn lemma_symbols_left_out(config: PasswordConfig)
    requires
        !config.include_symbols,
    ensures
        forall|i: int|
            0 <= i < pool_of(config).len() - config.extra_chars.len() ==> !is_symbol(
                #[trigger] pool_of(config)[i],
            ),
        forall|c: char|
            is_symbol(c) && #[trigger] pool_of(config).contains(c)
                ==> config.extra_chars.contains(c),
{
    lemma_pool_split(config);
    assert forall|i: int| 0 <= i < base_chars(config).len() implies !is_symbol(
        #[trigger] pool_of(config)[i],
    ) by {
        lemma_base_from_classes(config, i);
        lemma_class_membership(config, base_chars(config)[i]);
        lemma_classes_disjoint(base_chars(config)[i]);
    }
    assert forall|c: char|
        is_symbol(c) && #[trigger] pool_of(config).contains(c) implies config.extra_chars.contains(
        c,
    ) by {
        let i = choose|i: int| 0 <= i < pool_of(config).len() && pool_of(config)[i] == c;
        assert(config.extra_chars[i - base_chars(config).len()] == c);
    }
}

} // verus!
