use vstd::prelude::*;

verus! {

/// The supported mnemonic wordlists.
///
/// Recovery of a supplied phrase tries the wordlists in a fixed priority
/// order, given by [`wordlist_order`]; the first wordlist that validates the
/// phrase wins. The order is observable — natural-language wordlists can
/// overlap in vocabulary, so it decides which language a cross-valid phrase
/// is attributed to — and must therefore stay stable.
#[derive(Clone, Copy, Debug, PartialEq, Eq, Structural)]
pub enum Wordlist {
    ChineseSimplified,
    ChineseTraditional,
    English,
    French,
    Italian,
    Japanese,
    Korean,
    Spanish,
}

/// How many wordlists recovery tries.
pub const WORDLIST_COUNT: usize = 8;

/// The wordlist tried at position `i` of the fixed recovery priority order.
pub open spec fn wordlist_order(i: int) -> Wordlist {
    if i == 0 {
        Wordlist::ChineseSimplified
    } else if i == 1 {
        Wordlist::ChineseTraditional
    } else if i == 2 {
        Wordlist::English
    } else if i == 3 {
        Wordlist::French
    } else if i == 4 {
        Wordlist::Italian
    } else if i == 5 {
        Wordlist::Japanese
    } else if i == 6 {
        Wordlist::Korean
    } else {
        Wordlist::Spanish
    }
}

/// The position of `w` in the fixed recovery priority order.
pub open spec fn wordlist_priority(w: Wordlist) -> int {
    match w {
        Wordlist::ChineseSimplified => 0,
        Wordlist::ChineseTraditional => 1,
        Wordlist::English => 2,
        Wordlist::French => 3,
        Wordlist::Italian => 4,
        Wordlist::Japanese => 5,
        Wordlist::Korean => 6,
        Wordlist::Spanish => 7,
    }
}

/// `wordlist_order` and `wordlist_priority` are inverse to each other.
pub proof fn lemma_wordlist_order_priority(w: Wordlist)
    ensures
        0 <= wordlist_priority(w) < WORDLIST_COUNT,
        wordlist_order(wordlist_priority(w)) == w,
{
}

/// The wordlist tried at position `i` of the fixed recovery priority order.
pub fn priority_wordlist(i: usize) -> (w: Wordlist)
    requires
        i < WORDLIST_COUNT,
    ensures
        w == wordlist_order(i as int),
{
    if i == 0 {
        Wordlist::ChineseSimplified
    } else if i == 1 {
        Wordlist::ChineseTraditional
    } else if i == 2 {
        Wordlist::English
    } else if i == 3 {
        Wordlist::French
    } else if i == 4 {
        Wordlist::Italian
    } else if i == 5 {
        Wordlist::Japanese
    } else if i == 6 {
        Wordlist::Korean
    } else {
        Wordlist::Spanish
    }
}

/// The wordlist requested by a language name: each supported name selects its
/// wordlist; no name, or an unrecognized one, selects English.
pub open spec fn wordlist_of_language(language: Option<Seq<char>>) -> Wordlist {
    match language {
        None => Wordlist::English,
        Some(l) => {
            if l == "chinese_simplified"@ {
                Wordlist::ChineseSimplified
            } else if l == "chinese_traditional"@ {
                Wordlist::ChineseTraditional
            } else if l == "english"@ {
                Wordlist::English
            } else if l == "french"@ {
                Wordlist::French
            } else if l == "italian"@ {
                Wordlist::Italian
            } else if l == "japanese"@ {
                Wordlist::Japanese
            } else if l == "korean"@ {
                Wordlist::Korean
            } else if l == "spanish"@ {
                Wordlist::Spanish
            } else {
                Wordlist::English
            }
        },
    }
}

/// Select the wordlist for a requested language name, English by default.
pub fn language_wordlist(language: Option<&String>) -> (w: Wordlist)
    ensures
        w == wordlist_of_language(crate::strview::opt_string_ref_view(language)),
{
    match language {
        None => Wordlist::English,
        Some(l) => {
            if crate::strview::str_eq(l.as_str(), "chinese_simplified") {
                Wordlist::ChineseSimplified
            } else if crate::strview::str_eq(l.as_str(), "chinese_traditional") {
                Wordlist::ChineseTraditional
            } else if crate::strview::str_eq(l.as_str(), "english") {
                Wordlist::English
            } else if crate::strview::str_eq(l.as_str(), "french") {
                Wordlist::French
            } else if crate::strview::str_eq(l.as_str(), "italian") {
                Wordlist::Italian
            } else if crate::strview::str_eq(l.as_str(), "japanese") {
                Wordlist::Japanese
            } else if crate::strview::str_eq(l.as_str(), "korean") {
                Wordlist::Korean
            } else if crate::strview::str_eq(l.as_str(), "spanish") {
                Wordlist::Spanish
            } else {
                Wordlist::English
            }
        },
    }
}

} // verus!
