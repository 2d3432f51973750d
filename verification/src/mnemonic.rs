use vstd::prelude::*;

use crate::algebra::KeyAlgebra;
use crate::error::WalletError;
use crate::strview::{opt_str_view, opt_string_ref_view};
use crate::wordlist::{
    language_wordlist, priority_wordlist, wordlist_of_language, wordlist_order, wordlist_priority,
    Wordlist, WORDLIST_COUNT,
};

verus! {

/// The first position at or after `i` in the recovery priority order whose
/// wordlist validates `phrase`, if any.
pub open spec fn first_valid_from<A: KeyAlgebra>(
    algebra: &A,
    phrase: Seq<char>,
    i: int,
) -> Option<int>
    decreases WORDLIST_COUNT - i,
{
    if i < 0 || i >= WORDLIST_COUNT {
        None
    } else if algebra.mnemonic_valid(phrase, wordlist_order(i)) {
        Some(i)
    } else {
        first_valid_from(algebra, phrase, i + 1)
    }
}

/// The position of the wordlist that recovery attributes `phrase` to: the
/// first one in the priority order that validates it, if any.
pub open spec fn first_valid_index<A: KeyAlgebra>(algebra: &A, phrase: Seq<char>) -> Option<int> {
    first_valid_from(algebra, phrase, 0)
}

/// `first_valid_from` finds exactly the first validating position at or
/// after `i`: a position it returns validates, every earlier one from `i` on
/// does not, and it returns `None` exactly when none validates.
pub proof fn lemma_first_valid_from<A: KeyAlgebra>(algebra: &A, phrase: Seq<char>, i: int)
    requires
        0 <= i <= WORDLIST_COUNT,
    ensures
        first_valid_from(algebra, phrase, i) matches Some(j) ==> i <= j < WORDLIST_COUNT
            && algebra.mnemonic_valid(phrase, wordlist_order(j))
            && (forall|k: int| i <= k < j ==> !algebra.mnemonic_valid(phrase, wordlist_order(k))),
        first_valid_from(algebra, phrase, i) is None ==> (forall|k: int|
            i <= k < WORDLIST_COUNT ==> !algebra.mnemonic_valid(phrase, wordlist_order(k))),
    decreases WORDLIST_COUNT - i,
{
    if i < WORDLIST_COUNT && !algebra.mnemonic_valid(phrase, wordlist_order(i)) {
        lemma_first_valid_from(algebra, phrase, i + 1);
    }
}

/// Generate a fresh mnemonic and its master extended private key.
///
/// The word count defaults to 12 and the language to English; an unrecognized
/// language name also selects English. Entropy comes from the key algebra's
/// own secure source, so only the shape of the result is pinned down: the
/// phrase is a valid, normalized mnemonic of the selected wordlist and the
/// key is the master extended private key the phrase and passphrase determine.
/// Fails with `InvalidWordCount` exactly when the algebra rejects the count.
pub fn generate<A: KeyAlgebra>(
    algebra: &A,
    word_count: Option<u8>,
    language: Option<&String>,
    password: Option<&str>,
) -> (r: Result<(String, String), WalletError>)
    ensures
        r is Ok <==> algebra.valid_word_count(word_count.unwrap_or(12)),
        r matches Ok(t) ==> ({
            let wordlist = wordlist_of_language(opt_string_ref_view(language));
            &&& algebra.mnemonic_valid(t.0@, wordlist)
            &&& algebra.normal_phrase(t.0@, wordlist) == t.0@
            &&& t.1@ == algebra.master_xprv(t.0@, opt_str_view(password), wordlist)
            &&& algebra.is_xprv(t.1@)
            &&& algebra.xprv_str(t.1@) == t.1@
        }),
        r matches Err(e) ==> e == WalletError::InvalidWordCount,
{
    let count: u8 = match word_count {
        Some(n) => n,
        None => 12,
    };
    let wordlist = language_wordlist(language);
    algebra.generate_mnemonic(count, password, wordlist)
}

/// Recover a supplied mnemonic phrase: try every wordlist in the fixed
/// priority order and return, for the first one that validates the phrase,
/// that wordlist, the normalized phrase and the master extended private key
/// under the optional seed passphrase.
///
/// Which wordlists were tried and failed is not observable; the trial is
/// internal, and only after all wordlists are exhausted does recovery fail,
/// always with `InvalidMnemonic`.
pub fn recover<A: KeyAlgebra>(
    algebra: &A,
    phrase: &str,
    password: Option<&str>,
) -> (r: Result<(Wordlist, String, String), WalletError>)
    ensures
        r is Ok <==> first_valid_index(algebra, phrase@) is Some,
        r matches Ok(t) ==> ({
            let position = first_valid_index(algebra, phrase@)->0;
            &&& t.0 == wordlist_order(position)
            &&& wordlist_priority(t.0) == position
            &&& algebra.mnemonic_valid(phrase@, t.0)
            &&& forall|k: int|
                0 <= k < position ==> !algebra.mnemonic_valid(phrase@, wordlist_order(k))
            &&& t.1@ == algebra.normal_phrase(phrase@, t.0)
            &&& algebra.mnemonic_valid(t.1@, t.0)
            &&& algebra.normal_phrase(t.1@, t.0) == t.1@
            &&& t.2@ == algebra.master_xprv(phrase@, opt_str_view(password), t.0)
            &&& algebra.is_xprv(t.2@)
            &&& algebra.xprv_str(t.2@) == t.2@
        }),
        r matches Err(e) ==> e == WalletError::InvalidMnemonic && (forall|k: int|
            0 <= k < WORDLIST_COUNT ==> !algebra.mnemonic_valid(phrase@, wordlist_order(k))),
{
    let mut i: usize = 0;
    while i < WORDLIST_COUNT
        invariant
            i <= WORDLIST_COUNT,
            first_valid_index(algebra, phrase@) == first_valid_from(algebra, phrase@, i as int),
            forall|k: int| 0 <= k < i ==> !algebra.mnemonic_valid(phrase@, wordlist_order(k)),
        decreases WORDLIST_COUNT - i,
    {
        let wordlist = priority_wordlist(i);
        match algebra.mnemonic_to_xprv(phrase, password, wordlist) {
            Ok((normalized, master)) => {
                proof {
                    lemma_wordlist_roundtrip(wordlist, i as int);
                }
                return Ok((wordlist, normalized, master));
            },
            Err(_) => {
                i = i + 1;
            },
        }
    }
    Err(WalletError::InvalidMnemonic)
}

/// Each position of the priority order names the wordlist whose priority it is.
proof fn lemma_wordlist_roundtrip(w: Wordlist, i: int)
    requires
        0 <= i < WORDLIST_COUNT,
        w == wordlist_order(i),
    ensures
        wordlist_priority(w) == i,
{
}

/// Recovery is consistent with generation: a phrase that generation could
/// have produced for wordlist `w` — valid there and already in normal form —
/// is attributed by the first-match rule to `w` itself, and its normalized
/// rendering is the phrase unchanged, provided no earlier-priority wordlist
/// also validates it.
pub proof fn lemma_recover_consistent_with_generate<A: KeyAlgebra>(
    algebra: &A,
    phrase: Seq<char>,
    w: Wordlist,
)
    requires
        algebra.mnemonic_valid(phrase, w),
        algebra.normal_phrase(phrase, w) == phrase,
        forall|k: int|
            0 <= k < wordlist_priority(w) ==> !algebra.mnemonic_valid(phrase, wordlist_order(k)),
    ensures
        first_valid_index(algebra, phrase) == Some(wordlist_priority(w)),
        wordlist_order(first_valid_index(algebra, phrase)->0) == w,
        algebra.normal_phrase(phrase, wordlist_order(first_valid_index(algebra, phrase)->0))
            == phrase,
{
    lemma_first_valid_prefix(algebra, phrase, wordlist_priority(w), 0);
}

/// Below a validating position with no earlier validating position, the
/// first-match search returns exactly that position.
proof fn lemma_first_valid_prefix<A: KeyAlgebra>(algebra: &A, phrase: Seq<char>, j: int, i: int)
    requires
        0 <= i <= j < WORDLIST_COUNT,
        algebra.mnemonic_valid(phrase, wordlist_order(j)),
        forall|k: int| 0 <= k < j ==> !algebra.mnemonic_valid(phrase, wordlist_order(k)),
    ensures
        first_valid_from(algebra, phrase, i) == Some(j),
    decreases j - i,
{
    if i < j {
        lemma_first_valid_prefix(algebra, phrase, j, i + 1);
    }
}

} // verus!
