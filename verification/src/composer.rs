use vstd::prelude::*;

use crate::algebra::KeyAlgebra;
use crate::error::WalletError;
use crate::mnemonic::{first_valid_index, generate, recover};
use crate::options::{
    request_mode_of, validate_options, EthereumOptions, HdSpec, ImportSpec, PathRequest,
    RequestMode,
};
use crate::path::{defaulted_index, resolve, resolved_path};
use crate::strview::opt_string_view;
use crate::wallet::{address_only_wallet, EthereumWallet, WalletView};
use crate::wordlist::{wordlist_of_language, wordlist_order};

verus! {

/// The wallet composer: dispatches one validated request to the key algebra
/// and produces one wallet output per iteration.
pub struct EthereumCLI;

/// The path a path request resolves to, with the index defaulted.
pub open spec fn requested_path(request: PathRequest) -> Seq<char> {
    resolved_path(Some(request.convention@), defaulted_index(opt_string_view(request.index)))
}

/// The wallet built around a private key: the key, its public key, and the
/// address of that public key. Nothing else is derivable.
pub open spec fn private_key_wallet<A: KeyAlgebra>(a: &A, private_key: Seq<char>) -> WalletView {
    WalletView {
        path: None,
        password: None,
        mnemonic: None,
        extended_private_key: None,
        extended_public_key: None,
        private_key: Some(private_key),
        public_key: Some(a.public_of_private(private_key)),
        address: a.address_of_public(a.public_of_private(private_key)),
    }
}

/// The wallet built around a public key: the key and its address. No private
/// material is derivable.
pub open spec fn public_key_wallet<A: KeyAlgebra>(a: &A, public_key: Seq<char>) -> WalletView {
    WalletView {
        path: None,
        password: None,
        mnemonic: None,
        extended_private_key: None,
        extended_public_key: None,
        private_key: None,
        public_key: Some(public_key),
        address: a.address_of_public(public_key),
    }
}

/// The wallet built around an extended private key: the key itself, its
/// extended public key, the plain key pair inside them, and the address.
pub open spec fn xprv_wallet<A: KeyAlgebra>(
    a: &A,
    path: Option<Seq<char>>,
    password: Option<Seq<char>>,
    mnemonic: Option<Seq<char>>,
    xprv: Seq<char>,
) -> WalletView {
    WalletView {
        path: path,
        password: password,
        mnemonic: mnemonic,
        extended_private_key: Some(xprv),
        extended_public_key: Some(a.xpub_of_xprv(xprv)),
        private_key: Some(a.private_of_xprv(xprv)),
        public_key: Some(a.public_of_xpub(a.xpub_of_xprv(xprv))),
        address: a.address_of_public(a.public_of_xpub(a.xpub_of_xprv(xprv))),
    }
}

/// The wallet built around an extended public key: the key, the plain public
/// key inside it, and the address. No private material is derivable.
pub open spec fn xpub_wallet<A: KeyAlgebra>(
    a: &A,
    path: Option<Seq<char>>,
    xpub: Seq<char>,
) -> WalletView {
    WalletView {
        path: path,
        password: None,
        mnemonic: None,
        extended_private_key: None,
        extended_public_key: Some(xpub),
        private_key: None,
        public_key: Some(a.public_of_xpub(xpub)),
        address: a.address_of_public(a.public_of_xpub(xpub)),
    }
}

/// Whether composing `mode` succeeds. Success is decided by the inputs alone:
/// random generation and mnemonic generation never fail except on a rejected
/// word count or an ill-formed resolved path, and each import fails exactly
/// when its material does not parse or its requested derivation is
/// impossible.
pub open spec fn compose_ok<A: KeyAlgebra>(a: &A, mode: RequestMode) -> bool {
    match mode {
        RequestMode::Random => true,
        RequestMode::Import(import) => match import {
            ImportSpec::PrivateKey(s) => a.is_private_key(s@),
            ImportSpec::PublicKey(s) => a.is_public_key(s@),
            ImportSpec::Address(s) => a.is_address(s@),
        },
        RequestMode::Hd(hd) => match hd {
            HdSpec::Generate { word_count, convention, index, .. } => {
                &&& a.valid_word_count(word_count.unwrap_or(12))
                &&& a.is_path(
                    resolved_path(
                        opt_string_view(convention),
                        defaulted_index(opt_string_view(index)),
                    ),
                )
            },
            HdSpec::FromMnemonic { phrase, convention, index, .. } => {
                &&& first_valid_index(a, phrase@) is Some
                &&& a.is_path(
                    resolved_path(
                        opt_string_view(convention),
                        defaulted_index(opt_string_view(index)),
                    ),
                )
            },
            HdSpec::FromExtendedPrivate { xprv, path } => {
                &&& a.is_xprv(xprv@)
                &&& (path matches Some(request) ==> a.is_path(requested_path(request)))
            },
            HdSpec::FromExtendedPublic { xpub, path } => {
                &&& a.is_xpub(xpub@)
                &&& (path matches Some(request) ==> a.is_path(requested_path(request))
                    && !a.path_hardened(requested_path(request)))
            },
        },
    }
}

/// The error a failing request reports: the first failure its branch meets.
/// A `Random` request never fails, so its arm is never consulted.
pub open spec fn compose_err<A: KeyAlgebra>(a: &A, mode: RequestMode) -> WalletError {
    match mode {
        RequestMode::Random => arbitrary(),
        RequestMode::Import(import) => match import {
            ImportSpec::PrivateKey(_) => WalletError::InvalidPrivateKey,
            ImportSpec::PublicKey(_) => WalletError::InvalidPublicKey,
            ImportSpec::Address(_) => WalletError::InvalidAddress,
        },
        RequestMode::Hd(hd) => match hd {
            HdSpec::Generate { word_count, .. } => {
                if !a.valid_word_count(word_count.unwrap_or(12)) {
                    WalletError::InvalidWordCount
                } else {
                    WalletError::InvalidDerivationPath
                }
            },
            HdSpec::FromMnemonic { phrase, .. } => {
                if first_valid_index(a, phrase@) is None {
                    WalletError::InvalidMnemonic
                } else {
                    WalletError::InvalidDerivationPath
                }
            },
            HdSpec::FromExtendedPrivate { xprv, .. } => {
                if !a.is_xprv(xprv@) {
                    WalletError::InvalidExtendedKey
                } else {
                    WalletError::InvalidDerivationPath
                }
            },
            HdSpec::FromExtendedPublic { xpub, .. } => {
                if !a.is_xpub(xpub@) {
                    WalletError::InvalidExtendedKey
                } else {
                    WalletError::InvalidDerivationPath
                }
            },
        },
    }
}

/// What a successfully composed wallet holds for each request. Deterministic
/// branches are pinned down exactly; the branches that draw fresh entropy
/// (random keys, generated mnemonics) are pinned down up to the drawn value,
/// with every other field a function of it.
pub open spec fn compose_shape<A: KeyAlgebra>(a: &A, mode: RequestMode, w: WalletView) -> bool {
    match mode {
        RequestMode::Random => {
            &&& w.private_key is Some
            &&& a.is_private_key(w.private_key->0)
            &&& a.private_key_str(w.private_key->0) == w.private_key->0
            &&& w == private_key_wallet(a, w.private_key->0)
        },
        RequestMode::Import(import) => match import {
            ImportSpec::PrivateKey(s) => w == private_key_wallet(a, a.private_key_str(s@)),
            ImportSpec::PublicKey(s) => w == public_key_wallet(a, a.public_key_str(s@)),
            ImportSpec::Address(s) => w == address_only_wallet(a.address_str(s@)),
        },
        RequestMode::Hd(hd) => match hd {
            HdSpec::Generate { language, password, convention, index, .. } => ({
                let wordlist = wordlist_of_language(opt_string_view(language));
                let path = resolved_path(
                    opt_string_view(convention),
                    defaulted_index(opt_string_view(index)),
                );
                &&& w.mnemonic is Some
                &&& a.mnemonic_valid(w.mnemonic->0, wordlist)
                &&& a.normal_phrase(w.mnemonic->0, wordlist) == w.mnemonic->0
                &&& w == xprv_wallet(
                    a,
                    Some(path),
                    opt_string_view(password),
                    Some(w.mnemonic->0),
                    a.xprv_derive(
                        a.master_xprv(w.mnemonic->0, opt_string_view(password), wordlist),
                        path,
                    ),
                )
            }),
            HdSpec::FromMnemonic { phrase, password, convention, index } => ({
                let wordlist = wordlist_order(first_valid_index(a, phrase@)->0);
                let path = resolved_path(
                    opt_string_view(convention),
                    defaulted_index(opt_string_view(index)),
                );
                w == xprv_wallet(
                    a,
                    Some(path),
                    opt_string_view(password),
                    Some(a.normal_phrase(phrase@, wordlist)),
                    a.xprv_derive(
                        a.master_xprv(phrase@, opt_string_view(password), wordlist),
                        path,
                    ),
                )
            }),
            HdSpec::FromExtendedPrivate { xprv, path } => match path {
                None => w == xprv_wallet(a, None, None, None, a.xprv_str(xprv@)),
                Some(request) => ({
                    let p = requested_path(request);
                    w == xprv_wallet(
                        a,
                        Some(p),
                        None,
                        None,
                        a.xprv_derive(a.xprv_str(xprv@), p),
                    )
                }),
            },
            HdSpec::FromExtendedPublic { xpub, path } => match path {
                None => w == xpub_wallet(a, None, a.xpub_str(xpub@)),
                Some(request) => ({
                    let p = requested_path(request);
                    w == xpub_wallet(a, Some(p), a.xpub_derive(a.xpub_str(xpub@), p))
                }),
            },
        },
    }
}

impl EthereumCLI {
    /// Compose one wallet for a validated request.
    ///
    /// Every branch converges on one wallet whose address is the last value
    /// derived; success, the reported error and the wallet's whole content
    /// are fixed by `compose_ok`, `compose_err` and `compose_shape`.
    pub fn compose<A: KeyAlgebra>(algebra: &A, mode: &RequestMode) -> (r: Result<
        EthereumWallet,
        WalletError,
    >)
        ensures
            r is Ok <==> compose_ok(algebra, *mode),
            r matches Ok(w) ==> compose_shape(algebra, *mode, w@),
            r matches Err(e) ==> e == compose_err(algebra, *mode),
    {
        match mode {
            RequestMode::Random => {
                let private_key = algebra.random_private_key();
                let public_key = algebra.private_to_public(private_key.as_str());
                let address = algebra.public_to_address(public_key.as_str());
                Ok(
                    EthereumWallet {
                        path: None,
                        password: None,
                        mnemonic: None,
                        extended_private_key: None,
                        extended_public_key: None,
                        private_key: Some(private_key),
                        public_key: Some(public_key),
                        address,
                    },
                )
            },
            RequestMode::Import(import) => match import {
                ImportSpec::PrivateKey(s) => match algebra.parse_private_key(s.as_str()) {
                    Ok(private_key) => {
                        let public_key = algebra.private_to_public(private_key.as_str());
                        let address = algebra.public_to_address(public_key.as_str());
                        Ok(
                            EthereumWallet {
                                path: None,
                                password: None,
                                mnemonic: None,
                                extended_private_key: None,
                                extended_public_key: None,
                                private_key: Some(private_key),
                                public_key: Some(public_key),
                                address,
                            },
                        )
                    },
                    Err(e) => Err(e),
                },
                ImportSpec::PublicKey(s) => match algebra.parse_public_key(s.as_str()) {
                    Ok(public_key) => {
                        let address = algebra.public_to_address(public_key.as_str());
                        Ok(
                            EthereumWallet {
                                path: None,
                                password: None,
                                mnemonic: None,
                                extended_private_key: None,
                                extended_public_key: None,
                                private_key: None,
                                public_key: Some(public_key),
                                address,
                            },
                        )
                    },
                    Err(e) => Err(e),
                },
                ImportSpec::Address(s) => match algebra.parse_address(s.as_str()) {
                    Ok(address) => Ok(
                        EthereumWallet {
                            path: None,
                            password: None,
                            mnemonic: None,
                            extended_private_key: None,
                            extended_public_key: None,
                            private_key: None,
                            public_key: None,
                            address,
                        },
                    ),
                    Err(e) => Err(e),
                },
            },
            RequestMode::Hd(hd) => match hd {
                HdSpec::Generate { language, word_count, password, convention, index } => {
                    let path = resolve(
                        match convention {
                            Some(c) => Some(c),
                            None => None,
                        },
                        match index {
                            Some(i) => Some(i),
                            None => None,
                        },
                    );
                    let password_ref: Option<&str> = match password {
                        Some(p) => Some(p.as_str()),
                        None => None,
                    };
                    let language_ref: Option<&String> = match language {
                        Some(l) => Some(l),
                        None => None,
                    };
                    match generate(algebra, *word_count, language_ref, password_ref) {
                        Ok((phrase, master)) => {
                            match algebra.derive_xprv(master.as_str(), path.as_str()) {
                                Ok(xprv) => {
                                    let password_out: Option<String> = match password {
                                        Some(p) => Some(p.clone()),
                                        None => None,
                                    };
                                    Ok(Self::finish_xprv(
                                        algebra,
                                        Some(path),
                                        password_out,
                                        Some(phrase),
                                        xprv,
                                    ))
                                },
                                Err(e) => Err(e),
                            }
                        },
                        Err(e) => Err(e),
                    }
                },
                HdSpec::FromMnemonic { phrase, password, convention, index } => {
                    let path = resolve(
                        match convention {
                            Some(c) => Some(c),
                            None => None,
                        },
                        match index {
                            Some(i) => Some(i),
                            None => None,
                        },
                    );
                    let password_ref: Option<&str> = match password {
                        Some(p) => Some(p.as_str()),
                        None => None,
                    };
                    match recover(algebra, phrase.as_str(), password_ref) {
                        Ok((_, normalized, master)) => {
                            match algebra.derive_xprv(master.as_str(), path.as_str()) {
                                Ok(xprv) => {
                                    let password_out: Option<String> = match password {
                                        Some(p) => Some(p.clone()),
                                        None => None,
                                    };
                                    Ok(Self::finish_xprv(
                                        algebra,
                                        Some(path),
                                        password_out,
                                        Some(normalized),
                                        xprv,
                                    ))
                                },
                                Err(e) => Err(e),
                            }
                        },
                        Err(e) => Err(e),
                    }
                },
                HdSpec::FromExtendedPrivate { xprv, path } => {
                    match algebra.parse_xprv(xprv.as_str()) {
                        Ok(parsed) => match path {
                            None => Ok(Self::finish_xprv(algebra, None, None, None, parsed)),
                            Some(request) => {
                                let resolved = resolve(
                                    Some(&request.convention),
                                    match &request.index {
                                        Some(i) => Some(i),
                                        None => None,
                                    },
                                );
                                match algebra.derive_xprv(parsed.as_str(), resolved.as_str()) {
                                    Ok(derived) => Ok(Self::finish_xprv(
                                        algebra,
                                        Some(resolved),
                                        None,
                                        None,
                                        derived,
                                    )),
                                    Err(e) => Err(e),
                                }
                            },
                        },
                        Err(e) => Err(e),
                    }
                },
                HdSpec::FromExtendedPublic { xpub, path } => {
                    match algebra.parse_xpub(xpub.as_str()) {
                        Ok(parsed) => match path {
                            None => Ok(Self::finish_xpub(algebra, None, parsed)),
                            Some(request) => {
                                let resolved = resolve(
                                    Some(&request.convention),
                                    match &request.index {
                                        Some(i) => Some(i),
                                        None => None,
                                    },
                                );
                                match algebra.derive_xpub(parsed.as_str(), resolved.as_str()) {
                                    Ok(derived) => Ok(Self::finish_xpub(
                                        algebra,
                                        Some(resolved),
                                        derived,
                                    )),
                                    Err(e) => Err(e),
                                }
                            },
                        },
                        Err(e) => Err(e),
                    }
                },
            },
        }
    }

    /// Complete a wallet around an extended private key: derive the extended
    /// public key, the plain key pair, and the address.
    fn finish_xprv<A: KeyAlgebra>(
        algebra: &A,
        path: Option<String>,
        password: Option<String>,
        mnemonic: Option<String>,
        xprv: String,
    ) -> (w: EthereumWallet)
        requires
            algebra.is_xprv(xprv@),
        ensures
            w@ == xprv_wallet(
                algebra,
                opt_string_view(path),
                opt_string_view(password),
                opt_string_view(mnemonic),
                xprv@,
            ),
    {
        let xpub = algebra.xprv_to_xpub(xprv.as_str());
        let private_key = algebra.xprv_to_private(xprv.as_str());
        let public_key = algebra.xpub_to_public(xpub.as_str());
        let address = algebra.public_to_address(public_key.as_str());
        EthereumWallet {
            path,
            password,
            mnemonic,
            extended_private_key: Some(xprv),
            extended_public_key: Some(xpub),
            private_key: Some(private_key),
            public_key: Some(public_key),
            address,
        }
    }

    /// Complete a wallet around an extended public key: derive the plain
    /// public key and the address. No private material exists here.
    fn finish_xpub<A: KeyAlgebra>(algebra: &A, path: Option<String>, xpub: String) -> (w:
        EthereumWallet)
        requires
            algebra.is_xpub(xpub@),
        ensures
            w@ == xpub_wallet(algebra, opt_string_view(path), xpub@),
    {
        let public_key = algebra.xpub_to_public(xpub.as_str());
        let address = algebra.public_to_address(public_key.as_str());
        EthereumWallet {
            path,
            password: None,
            mnemonic: None,
            extended_private_key: None,
            extended_public_key: Some(xpub),
            private_key: None,
            public_key: Some(public_key),
            address,
        }
    }

    /// Compose `count` wallets for one request, strictly in order, each
    /// iteration independent, aborting on the first error. Every wallet of a
    /// successful run has the shape `compose_shape` gives the request.
    pub fn compose_many<A: KeyAlgebra>(algebra: &A, mode: &RequestMode, count: usize) -> (r:
        Result<Vec<EthereumWallet>, WalletError>)
        ensures
            r is Ok <==> (count == 0 || compose_ok(algebra, *mode)),
            r matches Ok(wallets) ==> wallets@.len() == count && (forall|j: int|
                0 <= j < count ==> compose_shape(algebra, *mode, wallets@[j]@)),
            r matches Err(e) ==> e == compose_err(algebra, *mode),
    {
        let mut wallets: Vec<EthereumWallet> = Vec::new();
        let mut i: usize = 0;
        while i < count
            invariant
                i <= count,
                wallets@.len() == i,
                forall|j: int| 0 <= j < i ==> compose_shape(algebra, *mode, wallets@[j]@),
                i > 0 ==> compose_ok(algebra, *mode),
            decreases count - i,
        {
            match Self::compose(algebra, mode) {
                Ok(w) => {
                    wallets.push(w);
                    i = i + 1;
                },
                Err(e) => {
                    return Err(e);
                },
            }
        }
        Ok(wallets)
    }

    /// Handle one whole invocation: validate the caller's loose options into
    /// a single request and compose one wallet per requested repetition,
    /// aborting on the first error.
    pub fn execute<A: KeyAlgebra>(algebra: &A, options: &EthereumOptions) -> (r: Result<
        Vec<EthereumWallet>,
        WalletError,
    >)
        ensures
            r is Ok <==> (request_mode_of(*options) matches Some(mode) && (options.count == 0
                || compose_ok(algebra, mode))),
            r matches Ok(wallets) ==> wallets@.len() == options.count && (forall|j: int|
                0 <= j < options.count ==> compose_shape(
                    algebra,
                    request_mode_of(*options)->0,
                    wallets@[j]@,
                )),
            r matches Err(e) ==> e == (if request_mode_of(*options) is None {
                WalletError::AmbiguousInput
            } else {
                compose_err(algebra, request_mode_of(*options)->0)
            }),
    {
        match validate_options(options) {
            Ok(mode) => Self::compose_many(algebra, &mode, options.count),
            Err(e) => Err(e),
        }
    }
}

} // verus!
