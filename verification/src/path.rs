use vstd::prelude::*;

use crate::strview::{opt_string_ref_view, str_eq};

verus! {

/// The account index used when the caller names none.
pub open spec fn defaulted_index(index: Option<Seq<char>>) -> Seq<char> {
    match index {
        Some(i) => i,
        None => "0"@,
    }
}

/// The concrete derivation path for a convention name and an account index.
///
/// Each supported hardware-wallet convention maps to its documented template
/// with the index substituted; no convention means the Ethereum default; any
/// other string passes through verbatim as a custom path. Resolution never
/// fails: a malformed custom path is rejected by the key algebra at
/// derivation time, not here.
pub open spec fn resolved_path(convention: Option<Seq<char>>, index: Seq<char>) -> Seq<char> {
    match convention {
        None => "m/44'/60'/0'/"@ + index,
        Some(c) => {
            if c == "ethereum"@ {
                "m/44'/60'/0'/"@ + index
            } else if c == "keepkey"@ {
                "m/44'/60'/"@ + index + "'/0"@
            } else if c == "ledger-legacy"@ {
                "m/44'/60'/0'/"@ + index
            } else if c == "ledger-live"@ {
                "m/44'/60'/"@ + index + "'/0/0"@
            } else if c == "trezor"@ {
                "m/44'/60'/0'/"@ + index
            } else {
                c
            }
        },
    }
}

/// Resolve a derivation-path convention name and an account index to a
/// concrete path. The index defaults to `"0"`; an unrecognized name is
/// treated as a literal custom path.
pub fn resolve(convention: Option<&String>, index: Option<&String>) -> (r: String)
    ensures
        r@ == resolved_path(
            opt_string_ref_view(convention),
            defaulted_index(opt_string_ref_view(index)),
        ),
{
    let idx: &str = match index {
        Some(i) => i.as_str(),
        None => "0",
    };
    match convention {
        None => String::from_str("m/44'/60'/0'/").concat(idx),
        Some(c) => {
            if str_eq(c.as_str(), "ethereum") {
                String::from_str("m/44'/60'/0'/").concat(idx)
            } else if str_eq(c.as_str(), "keepkey") {
                String::from_str("m/44'/60'/").concat(idx).concat("'/0")
            } else if str_eq(c.as_str(), "ledger-legacy") {
                String::from_str("m/44'/60'/0'/").concat(idx)
            } else if str_eq(c.as_str(), "ledger-live") {
                String::from_str("m/44'/60'/").concat(idx).concat("'/0/0")
            } else if str_eq(c.as_str(), "trezor") {
                String::from_str("m/44'/60'/0'/").concat(idx)
            } else {
                c.clone()
            }
        },
    }
}

} // verus!
