//! The observed diversity of a password: what its strength estimate is
//! computed from.

use vstd::prelude::*;

verus! {

/// How many different characters occur in `s`.
pub open spec fn distinct_chars(s: Seq<char>) -> nat {
    s.to_set().len()
}

/// Whether `c` is one of `chars`.
fn seen_before(chars: &Vec<char>, c: char) -> (found: bool)
    ensures
        found == chars@.contains(c),
{
    let mut k: usize = 0;
    while k < chars.len()
        invariant
            k <= chars@.len(),
            forall|j: int| 0 <= j < k ==> chars@[j] != c,
        decreases chars@.len() - k,
    {
        if chars[k] == c {
            return true;
        }
        k += 1;
    }
    false
}

/// Counts the different characters of `s`. A character that occurs several
/// times counts once.
pub fn unique_chars(s: &str) -> (count: usize)
    ensures
        count == distinct_chars(s@),
{
    let mut seen: Vec<char> = Vec::new();
    assert(seen@.to_set() =~= s@.take(0).to_set());
    for c in it: s.chars()
        invariant
            it.seq() == s@,
            seen@.no_duplicates(),
            seen@.to_set() == s@.take(it.index() as int).to_set(),
    {
        let ghost before = s@.take(it.index() as int);
        let ghost after = s@.take(it.index() + 1);
        proof {
            assert(after =~= before.push(c));
            before.lemma_push_to_set_commute(c);
        }
        if !seen_before(&seen, c) {
            proof {
                seen@.lemma_push_to_set_commute(c);
            }
            seen.push(c);
        } else {
            assert(before.to_set().insert(c) =~= before.to_set());
        }
    }
    proof {
        assert(s@.take(s@.len() as int) =~= s@);
        seen@.unique_seq_to_set();
    }
    seen.len()
}

/// A text that repeats one character, and the empty text, hold at most one
/// distinct character.
pub proof fn lemma_repeated_char(s: Seq<char>)
    requires
        forall|i: int, j: int| 0 <= i < s.len() && 0 <= j < s.len() ==> s[i] == s[j],
    ensures
        distinct_chars(s) <= 1,
        s.len() == 0 ==> distinct_chars(s) == 0,
        s.len() > 0 ==> distinct_chars(s) == 1,
{
    if s.len() == 0 {
        assert(s.to_set() =~= Set::<char>::empty());
    } else {
        assert(s.to_set() =~= set![s[0]]);
    }
}


} // verus!
