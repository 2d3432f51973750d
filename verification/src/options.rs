use vstd::prelude::*;

use crate::error::WalletError;

verus! {

/// Custom options for an Ethereum wallet request, as a caller supplies them:
/// loose optional fields, not yet checked for mutual exclusion.
#[derive(Clone, Debug)]
pub struct EthereumOptions {
    pub wallet_values: Option<WalletValues>,
    pub hd_values: Option<HdValues>,
    pub count: usize,
    pub json: bool,
}

/// Values to derive standard wallets from plain key or address material.
/// At most one field may be set; validation enforces it.
#[derive(Clone, Debug)]
pub struct WalletValues {
    pub private_key: Option<String>,
    pub public_key: Option<String>,
    pub address: Option<String>,
}

/// Values to derive hierarchical-deterministic wallets. At most one of
/// `mnemonic`, `extended_private_key` and `extended_public_key` may be set;
/// validation enforces it.
#[derive(Clone, Debug, Default)]
pub struct HdValues {
    pub account: Option<String>,
    pub change: Option<String>,
    pub extended_private_key: Option<String>,
    pub extended_public_key: Option<String>,
    pub index: Option<String>,
    pub language: Option<String>,
    pub mnemonic: Option<String>,
    pub password: Option<String>,
    pub path: Option<String>,
    pub word_count: Option<u8>,
}

/// Plain material to import: exactly one of a private key, a public key or
/// an address, enforced by the type itself.
#[derive(Clone, Debug)]
pub enum ImportSpec {
    PrivateKey(String),
    PublicKey(String),
    Address(String),
}

/// A requested derivation path for an imported extended key: a convention
/// name or custom path, with an optional account index.
#[derive(Clone, Debug)]
pub struct PathRequest {
    pub convention: String,
    pub index: Option<String>,
}

/// Hierarchical-deterministic material: exactly one source of key material,
/// enforced by the type itself.
///
/// For `Generate` and `FromMnemonic` a path is always resolved, falling back
/// to the Ethereum convention; for the extended-key variants derivation
/// happens only when a path was explicitly requested.
#[derive(Clone, Debug)]
pub enum HdSpec {
    Generate {
        language: Option<String>,
        word_count: Option<u8>,
        password: Option<String>,
        convention: Option<String>,
        index: Option<String>,
    },
    FromMnemonic {
        phrase: String,
        password: Option<String>,
        convention: Option<String>,
        index: Option<String>,
    },
    FromExtendedPrivate { xprv: String, path: Option<PathRequest> },
    FromExtendedPublic { xpub: String, path: Option<PathRequest> },
}

/// One validated wallet request: generate from fresh entropy, import plain
/// material, or derive hierarchical-deterministic material. Exactly one is
/// active per invocation.
#[derive(Clone, Debug)]
pub enum RequestMode {
    Random,
    Import(ImportSpec),
    Hd(HdSpec),
}

/// The import variant that `w` determines: one exactly when exactly one of
/// its fields is set.
pub open spec fn import_spec_of(w: WalletValues) -> Option<ImportSpec> {
    match (w.private_key, w.public_key, w.address) {
        (Some(k), None, None) => Some(ImportSpec::PrivateKey(k)),
        (None, Some(k), None) => Some(ImportSpec::PublicKey(k)),
        (None, None, Some(a)) => Some(ImportSpec::Address(a)),
        _ => None,
    }
}

/// The HD variant that `h` determines: one exactly when at most one of its
/// mnemonic, extended-private-key and extended-public-key fields is set.
/// None of them set means generation of a fresh mnemonic.
pub open spec fn hd_spec_of(h: HdValues) -> Option<HdSpec> {
    match (h.mnemonic, h.extended_private_key, h.extended_public_key) {
        (None, None, None) => Some(
            HdSpec::Generate {
                language: h.language,
                word_count: h.word_count,
                password: h.password,
                convention: h.path,
                index: h.index,
            },
        ),
        (Some(m), None, None) => Some(
            HdSpec::FromMnemonic {
                phrase: m,
                password: h.password,
                convention: h.path,
                index: h.index,
            },
        ),
        (None, Some(x), None) => Some(
            HdSpec::FromExtendedPrivate {
                xprv: x,
                path: match h.path {
                    Some(p) => Some(PathRequest { convention: p, index: h.index }),
                    None => None,
                },
            },
        ),
        (None, None, Some(x)) => Some(
            HdSpec::FromExtendedPublic {
                xpub: x,
                path: match h.path {
                    Some(p) => Some(PathRequest { convention: p, index: h.index }),
                    None => None,
                },
            },
        ),
        _ => None,
    }
}

/// The request that `options` determines: one exactly when the options are
/// unambiguous. No material at all means random generation.
pub open spec fn request_mode_of(options: EthereumOptions) -> Option<RequestMode> {
    match (options.wallet_values, options.hd_values) {
        (None, None) => Some(RequestMode::Random),
        (Some(w), None) => match import_spec_of(w) {
            Some(i) => Some(RequestMode::Import(i)),
            None => None,
        },
        (None, Some(h)) => match hd_spec_of(h) {
            Some(s) => Some(RequestMode::Hd(s)),
            None => None,
        },
        (Some(_), Some(_)) => None,
    }
}

/// Supplying two of {private key, public key, address} leaves the import
/// material undetermined, whichever two they are.
pub proof fn lemma_two_wallet_values_ambiguous(w: WalletValues)
    requires
        (w.private_key is Some && w.public_key is Some) || (w.private_key is Some
            && w.address is Some) || (w.public_key is Some && w.address is Some),
    ensures
        import_spec_of(w) is None,
{
}

/// Supplying two of {mnemonic, extended private key, extended public key}
/// leaves the HD material undetermined, whichever two they are.
pub proof fn lemma_two_hd_sources_ambiguous(h: HdValues)
    requires
        (h.mnemonic is Some && h.extended_private_key is Some) || (h.mnemonic is Some
            && h.extended_public_key is Some) || (h.extended_private_key is Some
            && h.extended_public_key is Some),
    ensures
        hd_spec_of(h) is None,
{
}

/// Validate loose caller options into a single request.
///
/// Succeeds exactly when the options determine one request; any ambiguity —
/// plain and HD material together, more than one plain field, none of the
/// plain fields, or more than one HD key source — fails with
/// `AmbiguousInput` rather than proceeding on an arbitrary choice.
pub fn validate_options(options: &EthereumOptions) -> (r: Result<RequestMode, WalletError>)
    ensures
        r is Ok <==> request_mode_of(*options) is Some,
        r matches Ok(mode) ==> request_mode_of(*options) == Some(mode),
        r matches Err(e) ==> e == WalletError::AmbiguousInput,
{
    match (&options.wallet_values, &options.hd_values) {
        (None, None) => Ok(RequestMode::Random),
        (Some(w), None) => match (&w.private_key, &w.public_key, &w.address) {
            (Some(k), None, None) => Ok(RequestMode::Import(ImportSpec::PrivateKey(k.clone()))),
            (None, Some(k), None) => Ok(RequestMode::Import(ImportSpec::PublicKey(k.clone()))),
            (None, None, Some(a)) => Ok(RequestMode::Import(ImportSpec::Address(a.clone()))),
            _ => Err(WalletError::AmbiguousInput),
        },
        (None, Some(h)) => match (&h.mnemonic, &h.extended_private_key, &h.extended_public_key) {
            (None, None, None) => Ok(
                RequestMode::Hd(
                    HdSpec::Generate {
                        language: h.language.clone(),
                        word_count: h.word_count,
                        password: h.password.clone(),
                        convention: h.path.clone(),
                        index: h.index.clone(),
                    },
                ),
            ),
            (Some(m), None, None) => Ok(
                RequestMode::Hd(
                    HdSpec::FromMnemonic {
                        phrase: m.clone(),
                        password: h.password.clone(),
                        convention: h.path.clone(),
                        index: h.index.clone(),
                    },
                ),
            ),
            (None, Some(x), None) => Ok(
                RequestMode::Hd(
                    HdSpec::FromExtendedPrivate {
                        xprv: x.clone(),
                        path: match &h.path {
                            Some(p) => Some(
                                PathRequest { convention: p.clone(), index: h.index.clone() },
                            ),
                            None => None,
                        },
                    },
                ),
            ),
            (None, None, Some(x)) => Ok(
                RequestMode::Hd(
                    HdSpec::FromExtendedPublic {
                        xpub: x.clone(),
                        path: match &h.path {
                            Some(p) => Some(
                                PathRequest { convention: p.clone(), index: h.index.clone() },
                            ),
                            None => None,
                        },
                    },
                ),
            ),
            _ => Err(WalletError::AmbiguousInput),
        },
        (Some(_), Some(_)) => Err(WalletError::AmbiguousInput),
    }
}

} // verus!
