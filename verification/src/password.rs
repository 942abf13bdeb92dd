//! The character pool, its configuration, and sampling a password from it.

use crate::sampling::index_distribution;
use crate::sampling::range_end;
use crate::sampling::sample_index;
use crate::sampling::thread_rng;
use crate::sampling::IndexDistribution;
use crate::text::chars_of;
use crate::text::contains_char;
use crate::text::push_char;
use rand::rngs::ThreadRng;
use vstd::prelude::*;
use vstd::string::*;

verus! {

/// The lowercase letters.
pub const LETTERS_LOWER: &'static str = "abcdefghijklmnopqrstuvwxyz";

/// The uppercase letters.
pub const LETTERS_UPPER: &'static str = "ABCDEFGHIJKLMNOPQRSTUVWXYZ";

/// The digits.
pub const NUMBERS: &'static str = "0123456789";

/// The symbols.
pub const SYMBOLS: &'static str = "!#$&()*+/";

/// The characters that are easily mistaken for one another.
pub const SIMILAR_SYMBOLS: &'static str = "il1o0O";

/// The length of a password when none is set.
pub const DEFAULT_LENGTH: usize = 16;

/// The letter cases used when none are chosen: both.
pub const DEFAULT_CHARACTER_MODE: CharacterMode = CharacterMode::LowerUpper;

/// Digits are in the pool unless switched off.
pub const DEFAULT_INCLUDE_NUMBERS: bool = true;

/// Symbols are in the pool unless switched off.
pub const DEFAULT_INCLUDE_SYMBOLS: bool = true;

/// Similar-looking characters stay in the pool unless excluded.
pub const DEFAULT_EXCLUDE_SIMILAR: bool = false;

/// Which letter cases contribute to the pool.
pub enum CharacterMode {
    Lower,
    Upper,
    LowerUpper,
}

/// What a builder has been told so far.
pub ghost struct PasswordConfig {
    pub length: usize,
    pub character_mode: CharacterMode,
    pub include_numbers: bool,
    pub include_symbols: bool,
    pub exclude_similar: bool,
    pub extra_chars: Seq<char>,
}

/// Whether `c` is one of the characters that are easily mistaken for another.
pub open spec fn is_similar(c: char) -> bool {
    SIMILAR_SYMBOLS@.contains(c)
}

/// `s` without its similar-looking characters, the others in their order.
pub open spec fn without_similar(s: Seq<char>) -> Seq<char> {
    s.filter(|c: char| !is_similar(c))
}

/// The letters that a character mode selects: lowercase before uppercase.
pub open spec fn letters_of(mode: CharacterMode) -> Seq<char> {
    match mode {
        CharacterMode::Lower => LETTERS_LOWER@,
        CharacterMode::Upper => LETTERS_UPPER@,
        CharacterMode::LowerUpper => LETTERS_LOWER@ + LETTERS_UPPER@,
    }
}

/// Letters, then digits, then symbols, each class only if it is selected.
pub open spec fn class_chars(config: PasswordConfig) -> Seq<char> {
    letters_of(config.character_mode) + (if config.include_numbers {
        NUMBERS@
    } else {
        Seq::<char>::empty()
    }) + (if config.include_symbols {
        SYMBOLS@
    } else {
        Seq::<char>::empty()
    })
}

/// The part of the pool that comes from the character classes: the selected
/// classes, with the similar-looking characters taken out where asked.
pub open spec fn base_chars(config: PasswordConfig) -> Seq<char> {
    if config.exclude_similar {
        without_similar(class_chars(config))
    } else {
        class_chars(config)
    }
}

/// The whole pool: the base characters followed by the extra characters,
/// which are neither filtered nor deduplicated.
pub open spec fn pool_of(config: PasswordConfig) -> Seq<char> {
    base_chars(config) + config.extra_chars
}

/// Removes every similar-looking character from `s`, keeping the order of
/// the others.
fn remove_similar(s: &str) -> (kept: String)
    ensures
        kept@ == without_similar(s@),
{
    let mut kept = String::new();
    proof {
        reveal(Seq::filter);
    }
    for c in it: s.chars()
        invariant
            it.seq() == s@,
            kept@ == without_similar(s@.take(it.index() as int)),
    {
        proof {
            reveal(Seq::filter);
            assert(s@.take(it.index() + 1).drop_last() =~= s@.take(it.index() as int));
        }
        if !contains_char(SIMILAR_SYMBOLS, c) {
            push_char(&mut kept, c);
        }
    }
    assert(s@.take(s@.len() as int) =~= s@);
    kept
}

/// A pool of characters and the number of characters to draw from it.
#[derive(Debug, Clone, PartialEq, Eq, Hash, Default)]
pub struct RandomPassword {
    pub length: usize,
    pub base_string: String,
}

/// The characters of `pool` at the positions `indices`, in that order.
pub open spec fn selection(pool: Seq<char>, indices: Seq<usize>) -> Seq<char> {
    Seq::new(indices.len(), |k: int| pool[indices[k] as int])
}

/// Reads `pool` at each of `indices` and joins what it finds.
pub fn select_chars(pool: &Vec<char>, indices: &Vec<usize>) -> (picked: String)
    requires
        forall|k: int| 0 <= k < indices@.len() ==> indices@[k] < pool@.len(),
    ensures
        picked@ == selection(pool@, indices@),
{
    let mut picked = String::new();
    let mut k: usize = 0;
    while k < indices.len()
        invariant
            k <= indices@.len(),
            forall|j: int| 0 <= j < indices@.len() ==> indices@[j] < pool@.len(),
            picked@ == selection(pool@, indices@.take(k as int)),
        decreases indices@.len() - k,
    {
        let c = pool[indices[k]];
        push_char(&mut picked, c);
        assert(selection(pool@, indices@.take(k + 1)) =~= selection(
            pool@,
            indices@.take(k as int),
        ).push(c));
        k += 1;
    }
    assert(indices@.take(k as int) =~= indices@);
    picked
}

/// Draws `count` indices from `dist`, one after the other.
fn draw_indices(rng: &mut ThreadRng, dist: &IndexDistribution, count: usize) -> (indices: Vec<
    usize,
>)
    ensures
        indices@.len() == count,
        forall|k: int| 0 <= k < count ==> indices@[k] < range_end(*dist),
{
    let mut indices: Vec<usize> = Vec::new();
    let mut k: usize = 0;
    while k < count
        invariant
            k <= count,
            indices@.len() == k,
            forall|j: int| 0 <= j < k ==> indices@[j] < range_end(*dist),
        decreases count - k,
    {
        let idx = sample_index(rng, dist);
        indices.push(idx);
        k += 1;
    }
    indices
}

impl RandomPassword {
    /// A builder with the default configuration.
    pub fn builder() -> (builder: RandomPasswordBuilder)
        ensures
            builder@ == default_config(),
    {
        RandomPasswordBuilder::default()
    }

    /// Draws `length` characters from the pool, each position independently
    /// and uniformly over the pool's positions. With an empty pool nothing
    /// can be drawn and the password is empty.
    pub fn generate(&self) -> (password: String)
        ensures
            self.base_string@.len() == 0 ==> password@.len() == 0,
            self.base_string@.len() > 0 ==> password@.len() == self.length,
            forall|i: int|
                0 <= i < password@.len() ==> self.base_string@.contains(#[trigger] password@[i]),
    {
        if self.length == 0 || self.base_string.as_str().is_empty() {
            return String::new();
        }
        let pool = chars_of(self.base_string.as_str());
        let mut rng = thread_rng();
        let dist = match index_distribution(pool.len()) {
            Ok(dist) => dist,
            Err(_) => unreached(),
        };
        let indices = draw_indices(&mut rng, &dist, self.length);
        select_chars(&pool, &indices)
    }

    /// A freshly generated password, as `generate` gives it.
    pub fn to_string(&self) -> (password: String)
        ensures
            self.base_string@.len() == 0 ==> password@.len() == 0,
            self.base_string@.len() > 0 ==> password@.len() == self.length,
            forall|i: int|
                0 <= i < password@.len() ==> self.base_string@.contains(#[trigger] password@[i]),
    {
        self.generate()
    }
}

/// Collects the settings of a password one at a time.
pub struct RandomPasswordBuilder {
    length: usize,
    character_mode: CharacterMode,
    include_numbers: bool,
    include_symbols: bool,
    exclude_similar: bool,
    extra_chars: Vec<char>,
}

/// The configuration of a builder that has been told nothing yet.
pub open spec fn default_config() -> PasswordConfig {
    PasswordConfig {
        length: DEFAULT_LENGTH,
        character_mode: DEFAULT_CHARACTER_MODE,
        include_numbers: DEFAULT_INCLUDE_NUMBERS,
        include_symbols: DEFAULT_INCLUDE_SYMBOLS,
        exclude_similar: DEFAULT_EXCLUDE_SIMILAR,
        extra_chars: Seq::<char>::empty(),
    }
}

impl View for RandomPasswordBuilder {
    type V = PasswordConfig;

    closed spec fn view(&self) -> PasswordConfig {
        PasswordConfig {
            length: self.length,
            character_mode: self.character_mode,
            include_numbers: self.include_numbers,
            include_symbols: self.include_symbols,
            exclude_similar: self.exclude_similar,
            extra_chars: self.extra_chars@,
        }
    }
}

impl Default for RandomPasswordBuilder {
    fn default() -> (builder: Self)
        ensures
            builder@ == default_config(),
    {
        Self {
            length: DEFAULT_LENGTH,
            character_mode: DEFAULT_CHARACTER_MODE,
            include_numbers: DEFAULT_INCLUDE_NUMBERS,
            include_symbols: DEFAULT_INCLUDE_SYMBOLS,
            exclude_similar: DEFAULT_EXCLUDE_SIMILAR,
            extra_chars: Vec::new(),
        }
    }
}

impl RandomPasswordBuilder {
    /// Sets the number of characters to generate.
    pub fn length(self, length: usize) -> (builder: Self)
        ensures
            builder@ == (PasswordConfig { length, ..self@ }),
    {
        let mut builder = self;
        builder.length = length;
        builder
    }

    /// Sets which letter cases go into the pool.
    pub fn character_mode(self, mode: CharacterMode) -> (builder: Self)
        ensures
            builder@ == (PasswordConfig { character_mode: mode, ..self@ }),
    {
        let mut builder = self;
        builder.character_mode = mode;
        builder
    }

    /// Sets whether the digits go into the pool.
    pub fn include_numbers(self, yes: bool) -> (builder: Self)
        ensures
            builder@ == (PasswordConfig { include_numbers: yes, ..self@ }),
    {
        let mut builder = self;
        builder.include_numbers = yes;
        builder
    }

    /// Sets whether the symbols go into the pool.
    pub fn include_symbols(self, yes: bool) -> (builder: Self)
        ensures
            builder@ == (PasswordConfig { include_symbols: yes, ..self@ }),
    {
        let mut builder = self;
        builder.include_symbols = yes;
        builder
    }

    /// Sets whether the similar-looking characters are taken out of the
    /// letters, digits and symbols.
    pub fn exclude_similar(self, yes: bool) -> (builder: Self)
        ensures
            builder@ == (PasswordConfig { exclude_similar: yes, ..self@ }),
    {
        let mut builder = self;
        builder.exclude_similar = yes;
        builder
    }

    /// Sets the characters that are added to the pool as they are.
    pub fn extra_chars(self, chars: Vec<char>) -> (builder: Self)
        ensures
            builder@ == (PasswordConfig { extra_chars: chars@, ..self@ }),
    {
        let mut builder = self;
        builder.extra_chars = chars;
        builder
    }

    /// Assembles the pool in its fixed order: selected classes, exclusion
    /// of the similar-looking characters, then the extra characters.
    fn build_base_string(&self) -> (base_string: String)
        ensures
            base_string@ == pool_of(self@),
    {
        let mut base_string = String::new();
        match self.character_mode {
            CharacterMode::LowerUpper => {
                base_string.append(LETTERS_LOWER);
                base_string.append(LETTERS_UPPER);
            },
            CharacterMode::Lower => base_string.append(LETTERS_LOWER),
            CharacterMode::Upper => base_string.append(LETTERS_UPPER),
        }
        assert(base_string@ =~= letters_of(self@.character_mode));
        if self.include_numbers {
            base_string.append(NUMBERS);
        }
        if self.include_symbols {
            base_string.append(SYMBOLS);
        }
        assert(base_string@ =~= class_chars(self@));
        if self.exclude_similar {
            base_string = remove_similar(base_string.as_str());
        }
        let mut k: usize = 0;
        while k < self.extra_chars.len()
            invariant
                k <= self.extra_chars@.len(),
                base_string@ == base_chars(self@) + self.extra_chars@.take(k as int),
            decreases self.extra_chars@.len() - k,
        {
            push_char(&mut base_string, self.extra_chars[k]);
            assert(self.extra_chars@.take(k + 1) =~= self.extra_chars@.take(k as int).push(
                self.extra_chars@[k as int],
            ));
            k += 1;
        }
        assert(self.extra_chars@.take(k as int) =~= self.extra_chars@);
        base_string
    }

    /// Finishes the configuration: the length as set, the pool as the
    /// settings describe it.
    pub fn build(self) -> (password: RandomPassword)
        ensures
            password.length == self@.length,
            password.base_string@ == pool_of(self@),
    {
        let base_string = self.build_base_string();
        RandomPassword { length: self.length, base_string }
    }
}

} // verus!
