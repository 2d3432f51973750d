use std::cell::Cell;

use wagyu::algebra::KeyAlgebra;
use wagyu::composer::EthereumCLI;
use wagyu::error::WalletError;
use wagyu::options::{
    EthereumOptions, HdSpec, ImportSpec, PathRequest, RequestMode, WalletValues,
};
use wagyu::wordlist::Wordlist;

/// A deterministic stand-in key algebra over readable string encodings.
///
/// Private keys are non-empty alphanumeric strings, canonically lower-case.
/// A public key is `pub` + key; an address is `0x` + the upper-cased public
/// key (the upper-casing standing in for checksumming). Extended keys are
/// `xprv`/`xpub` + an alphanumeric tail; deriving appends the alphanumeric
/// characters of the path. Each wordlist has one marker word; a phrase is
/// valid for a wordlist when every word is that marker or the shared word
/// `zz`, and normalization collapses whitespace.
struct ToyAlgebra {
    counter: Cell<u64>,
}

impl ToyAlgebra {
    fn new() -> ToyAlgebra {
        ToyAlgebra { counter: Cell::new(0) }
    }
}

fn alnum_lower(s: &str) -> String {
    s.chars().filter(|c| c.is_ascii_alphanumeric()).collect::<String>().to_lowercase()
}

fn is_alnum_nonempty(s: &str) -> bool {
    !s.is_empty() && s.chars().all(|c| c.is_ascii_alphanumeric())
}

fn marker(wordlist: Wordlist) -> &'static str {
    match wordlist {
        Wordlist::ChineseSimplified => "cs",
        Wordlist::ChineseTraditional => "ct",
        Wordlist::English => "en",
        Wordlist::French => "fr",
        Wordlist::Italian => "it",
        Wordlist::Japanese => "ja",
        Wordlist::Korean => "ko",
        Wordlist::Spanish => "es",
    }
}

fn phrase_valid(phrase: &str, wordlist: Wordlist) -> bool {
    let words: Vec<&str> = phrase.split_whitespace().collect();
    !words.is_empty() && words.iter().all(|w| *w == marker(wordlist) || *w == "zz")
}

fn normalize(phrase: &str) -> String {
    phrase.split_whitespace().collect::<Vec<&str>>().join(" ")
}

fn toy_master(phrase: &str, password: Option<&str>, wordlist: Wordlist) -> String {
    format!(
        "xprv{}{}{}",
        alnum_lower(&normalize(phrase)),
        alnum_lower(password.unwrap_or("np")),
        marker(wordlist)
    )
}

impl KeyAlgebra for ToyAlgebra {
    fn random_private_key(&self) -> String {
        let n = self.counter.get();
        self.counter.set(n + 1);
        format!("key{}", n)
    }

    fn parse_private_key(&self, s: &str) -> Result<String, WalletError> {
        if is_alnum_nonempty(s) {
            Ok(s.to_lowercase())
        } else {
            Err(WalletError::InvalidPrivateKey)
        }
    }

    fn private_to_public(&self, private_key: &str) -> String {
        format!("pub{}", private_key)
    }

    fn parse_public_key(&self, s: &str) -> Result<String, WalletError> {
        match s.strip_prefix("pub") {
            Some(rest) if is_alnum_nonempty(rest) => Ok(format!("pub{}", rest.to_lowercase())),
            _ => Err(WalletError::InvalidPublicKey),
        }
    }

    fn public_to_address(&self, public_key: &str) -> String {
        format!("0x{}", public_key.to_uppercase())
    }

    fn parse_address(&self, s: &str) -> Result<String, WalletError> {
        match s.strip_prefix("0x") {
            Some(rest) if is_alnum_nonempty(rest) => Ok(format!("0x{}", rest.to_uppercase())),
            _ => Err(WalletError::InvalidAddress),
        }
    }

    fn parse_xprv(&self, s: &str) -> Result<String, WalletError> {
        match s.strip_prefix("xprv") {
            Some(rest) if is_alnum_nonempty(rest) => Ok(format!("xprv{}", rest.to_lowercase())),
            _ => Err(WalletError::InvalidExtendedKey),
        }
    }

    fn parse_xpub(&self, s: &str) -> Result<String, WalletError> {
        match s.strip_prefix("xpub") {
            Some(rest) if is_alnum_nonempty(rest) => Ok(format!("xpub{}", rest.to_lowercase())),
            _ => Err(WalletError::InvalidExtendedKey),
        }
    }

    fn derive_xprv(&self, xprv: &str, path: &str) -> Result<String, WalletError> {
        if path.starts_with('m') {
            Ok(format!("{}{}", xprv, alnum_lower(path)))
        } else {
            Err(WalletError::InvalidDerivationPath)
        }
    }

    fn derive_xpub(&self, xpub: &str, path: &str) -> Result<String, WalletError> {
        if path.starts_with('m') && !path.contains('\'') {
            Ok(format!("{}{}", xpub, alnum_lower(path)))
        } else {
            Err(WalletError::InvalidDerivationPath)
        }
    }

    fn xprv_to_xpub(&self, xprv: &str) -> String {
        format!("xpub{}", &xprv["xprv".len()..])
    }

    fn xprv_to_private(&self, xprv: &str) -> String {
        xprv["xprv".len()..].to_string()
    }

    fn xpub_to_public(&self, xpub: &str) -> String {
        format!("pub{}", &xpub["xpub".len()..])
    }

    fn generate_mnemonic(
        &self,
        word_count: u8,
        password: Option<&str>,
        wordlist: Wordlist,
    ) -> Result<(String, String), WalletError> {
        if !matches!(word_count, 12 | 15 | 18 | 21 | 24) {
            return Err(WalletError::InvalidWordCount);
        }
        let words = vec![marker(wordlist); word_count as usize];
        let phrase = words.join(" ");
        let master = toy_master(&phrase, password, wordlist);
        Ok((phrase, master))
    }

    fn mnemonic_to_xprv(
        &self,
        phrase: &str,
        password: Option<&str>,
        wordlist: Wordlist,
    ) -> Result<(String, String), WalletError> {
        if phrase_valid(phrase, wordlist) {
            Ok((normalize(phrase), toy_master(phrase, password, wordlist)))
        } else {
            Err(WalletError::InvalidMnemonic)
        }
    }
}

#[test]
fn random_wallet_has_key_pair_and_address() {
    let algebra = ToyAlgebra::new();
    let w = EthereumCLI::compose(&algebra, &RequestMode::Random).unwrap();
    let private_key = w.private_key.unwrap();
    let public_key = w.public_key.unwrap();
    assert_eq!(public_key, algebra.private_to_public(&private_key));
    assert_eq!(w.address, algebra.public_to_address(&public_key));
    assert!(w.path.is_none());
    assert!(w.mnemonic.is_none());
    assert!(w.extended_private_key.is_none());
    assert!(w.extended_public_key.is_none());
}

#[test]
fn random_wallets_have_distinct_private_keys() {
    let algebra = ToyAlgebra::new();
    let wallets = EthereumCLI::compose_many(&algebra, &RequestMode::Random, 3).unwrap();
    assert_eq!(wallets.len(), 3);
    let mut keys: Vec<String> =
        wallets.iter().map(|w| w.private_key.clone().unwrap()).collect();
    for w in &wallets {
        let public_key = w.public_key.clone().unwrap();
        assert_eq!(public_key, algebra.private_to_public(w.private_key.as_ref().unwrap()));
        assert_eq!(w.address, algebra.public_to_address(&public_key));
    }
    keys.sort();
    keys.dedup();
    assert_eq!(keys.len(), 3);
}

#[test]
fn compose_many_zero_count_is_empty() {
    let algebra = ToyAlgebra::new();
    let wallets = EthereumCLI::compose_many(&algebra, &RequestMode::Random, 0).unwrap();
    assert!(wallets.is_empty());
}

#[test]
fn import_private_key_canonicalizes_and_derives() {
    let algebra = ToyAlgebra::new();
    let mode = RequestMode::Import(ImportSpec::PrivateKey("AbC9".to_string()));
    let w = EthereumCLI::compose(&algebra, &mode).unwrap();
    assert_eq!(w.private_key.as_deref(), Some("abc9"));
    assert_eq!(w.public_key.as_deref(), Some("pubabc9"));
    assert_eq!(w.address, "0xPUBABC9");
    assert!(w.path.is_none() && w.mnemonic.is_none());
}

#[test]
fn import_malformed_private_key_fails() {
    let algebra = ToyAlgebra::new();
    let mode = RequestMode::Import(ImportSpec::PrivateKey("no spaces!".to_string()));
    assert!(matches!(
        EthereumCLI::compose(&algebra, &mode),
        Err(WalletError::InvalidPrivateKey)
    ));
}

#[test]
fn import_public_key_has_no_private_material() {
    let algebra = ToyAlgebra::new();
    let mode = RequestMode::Import(ImportSpec::PublicKey("pubXY7".to_string()));
    let w = EthereumCLI::compose(&algebra, &mode).unwrap();
    assert!(w.private_key.is_none());
    assert_eq!(w.public_key.as_deref(), Some("pubxy7"));
    assert_eq!(w.address, "0xPUBXY7");
}

#[test]
fn import_malformed_public_key_fails() {
    let algebra = ToyAlgebra::new();
    let mode = RequestMode::Import(ImportSpec::PublicKey("xy7".to_string()));
    assert!(matches!(
        EthereumCLI::compose(&algebra, &mode),
        Err(WalletError::InvalidPublicKey)
    ));
}

#[test]
fn import_address_yields_only_canonical_address() {
    let algebra = ToyAlgebra::new();
    let mode = RequestMode::Import(ImportSpec::Address("0xabc1".to_string()));
    let w = EthereumCLI::compose(&algebra, &mode).unwrap();
    assert_eq!(w.address, "0xABC1");
    assert!(w.private_key.is_none());
    assert!(w.public_key.is_none());
    assert!(w.path.is_none());
    assert!(w.password.is_none());
    assert!(w.mnemonic.is_none());
    assert!(w.extended_private_key.is_none());
    assert!(w.extended_public_key.is_none());
}

#[test]
fn import_malformed_address_fails() {
    let algebra = ToyAlgebra::new();
    let mode = RequestMode::Import(ImportSpec::Address("abc1".to_string()));
    assert!(matches!(
        EthereumCLI::compose(&algebra, &mode),
        Err(WalletError::InvalidAddress)
    ));
}

fn hd_generate(
    language: Option<&str>,
    word_count: Option<u8>,
    password: Option<&str>,
    convention: Option<&str>,
    index: Option<&str>,
) -> RequestMode {
    RequestMode::Hd(HdSpec::Generate {
        language: language.map(|s| s.to_string()),
        word_count,
        password: password.map(|s| s.to_string()),
        convention: convention.map(|s| s.to_string()),
        index: index.map(|s| s.to_string()),
    })
}

#[test]
fn generate_default_is_twelve_english_words() {
    let algebra = ToyAlgebra::new();
    let w = EthereumCLI::compose(&algebra, &hd_generate(None, None, None, None, None)).unwrap();
    let phrase = w.mnemonic.unwrap();
    assert_eq!(phrase, vec!["en"; 12].join(" "));
    assert_eq!(w.path.as_deref(), Some("m/44'/60'/0'/0"));
    let master = toy_master(&phrase, None, Wordlist::English);
    let derived = format!("{}{}", master, "m446000");
    assert_eq!(w.extended_private_key.as_deref(), Some(derived.as_str()));
    assert_eq!(w.extended_public_key.as_deref(), Some(&*format!("xpub{}", &derived[4..])));
    assert_eq!(w.private_key.as_deref(), Some(&derived[4..]));
    assert_eq!(w.public_key.as_deref(), Some(&*format!("pub{}", &derived[4..])));
    assert_eq!(w.address, format!("0xPUB{}", derived[4..].to_uppercase()));
}

#[test]
fn generate_unknown_language_falls_back_to_english() {
    let algebra = ToyAlgebra::new();
    let w = EthereumCLI::compose(&algebra, &hd_generate(Some("klingon"), None, None, None, None))
        .unwrap();
    assert_eq!(w.mnemonic.unwrap(), vec!["en"; 12].join(" "));
}

#[test]
fn generate_korean_fifteen_words() {
    let algebra = ToyAlgebra::new();
    let w = EthereumCLI::compose(
        &algebra,
        &hd_generate(Some("korean"), Some(15), Some("pw"), Some("keepkey"), Some("2")),
    )
    .unwrap();
    assert_eq!(w.mnemonic.unwrap(), vec!["ko"; 15].join(" "));
    assert_eq!(w.path.as_deref(), Some("m/44'/60'/2'/0"));
    assert_eq!(w.password.as_deref(), Some("pw"));
}

#[test]
fn generate_honours_each_language_name() {
    let algebra = ToyAlgebra::new();
    let cases = vec![
        ("chinese_simplified", "cs"),
        ("chinese_traditional", "ct"),
        ("english", "en"),
        ("french", "fr"),
        ("italian", "it"),
        ("japanese", "ja"),
        ("korean", "ko"),
        ("spanish", "es"),
    ];
    for (language, tag) in cases {
        let w = EthereumCLI::compose(
            &algebra,
            &hd_generate(Some(language), None, None, None, None),
        )
        .unwrap();
        assert_eq!(w.mnemonic.unwrap(), vec![tag; 12].join(" "), "language {}", language);
    }
}

#[test]
fn generate_rejected_word_count_fails() {
    let algebra = ToyAlgebra::new();
    assert!(matches!(
        EthereumCLI::compose(&algebra, &hd_generate(None, Some(13), None, None, None)),
        Err(WalletError::InvalidWordCount)
    ));
}

#[test]
fn generate_malformed_custom_path_fails() {
    let algebra = ToyAlgebra::new();
    assert!(matches!(
        EthereumCLI::compose(&algebra, &hd_generate(None, None, None, Some("q/1/2"), None)),
        Err(WalletError::InvalidDerivationPath)
    ));
}

fn hd_mnemonic(phrase: &str, password: Option<&str>) -> RequestMode {
    RequestMode::Hd(HdSpec::FromMnemonic {
        phrase: phrase.to_string(),
        password: password.map(|s| s.to_string()),
        convention: None,
        index: None,
    })
}

#[test]
fn recover_generated_phrase_round_trips() {
    let algebra = ToyAlgebra::new();
    let (phrase, master) = algebra
        .generate_mnemonic(12, None, Wordlist::French)
        .unwrap();
    let w = EthereumCLI::compose(&algebra, &hd_mnemonic(&phrase, None)).unwrap();
    assert_eq!(w.mnemonic.as_deref(), Some(phrase.as_str()));
    let derived = format!("{}{}", master, "m446000");
    assert_eq!(w.extended_private_key.as_deref(), Some(derived.as_str()));
}

#[test]
fn recovery_attributes_cross_valid_phrase_to_first_wordlist() {
    let algebra = ToyAlgebra::new();
    // `zz zz` is valid in every wordlist; the fixed priority order starts at
    // chinese_simplified, so the master key must be the chinese_simplified one.
    let w = EthereumCLI::compose(&algebra, &hd_mnemonic("zz  zz", None)).unwrap();
    assert_eq!(w.mnemonic.as_deref(), Some("zz zz"));
    let master = toy_master("zz zz", None, Wordlist::ChineseSimplified);
    let derived = format!("{}{}", master, "m446000");
    assert_eq!(w.extended_private_key.as_deref(), Some(derived.as_str()));
}

#[test]
fn phrase_invalid_everywhere_fails_with_invalid_mnemonic() {
    let algebra = ToyAlgebra::new();
    assert!(matches!(
        EthereumCLI::compose(&algebra, &hd_mnemonic("not a mnemonic", None)),
        Err(WalletError::InvalidMnemonic)
    ));
}

#[test]
fn mnemonic_wallet_echoes_password() {
    let algebra = ToyAlgebra::new();
    let w = EthereumCLI::compose(&algebra, &hd_mnemonic("en en", Some("tea"))).unwrap();
    assert_eq!(w.password.as_deref(), Some("tea"));
    let master = toy_master("en en", Some("tea"), Wordlist::English);
    let derived = format!("{}{}", master, "m446000");
    assert_eq!(w.extended_private_key.as_deref(), Some(derived.as_str()));
}

#[test]
fn from_xprv_without_path_derives_nothing() {
    let algebra = ToyAlgebra::new();
    let mode = RequestMode::Hd(HdSpec::FromExtendedPrivate {
        xprv: "xprvSEED7".to_string(),
        path: None,
    });
    let w = EthereumCLI::compose(&algebra, &mode).unwrap();
    assert!(w.path.is_none());
    assert_eq!(w.extended_private_key.as_deref(), Some("xprvseed7"));
    assert_eq!(
        w.extended_public_key.as_deref(),
        Some(algebra.xprv_to_xpub("xprvseed7").as_str())
    );
    assert_eq!(w.private_key.as_deref(), Some("seed7"));
    assert_eq!(w.public_key.as_deref(), Some("pubseed7"));
    assert_eq!(w.address, "0xPUBSEED7");
    assert!(w.mnemonic.is_none());
}

#[test]
fn from_xprv_with_path_derives_along_it() {
    let algebra = ToyAlgebra::new();
    let mode = RequestMode::Hd(HdSpec::FromExtendedPrivate {
        xprv: "xprvseed7".to_string(),
        path: Some(PathRequest {
            convention: "ledger-live".to_string(),
            index: Some("1".to_string()),
        }),
    });
    let w = EthereumCLI::compose(&algebra, &mode).unwrap();
    assert_eq!(w.path.as_deref(), Some("m/44'/60'/1'/0/0"));
    assert_eq!(w.extended_private_key.as_deref(), Some("xprvseed7m4460100"));
}

#[test]
fn from_malformed_xprv_fails() {
    let algebra = ToyAlgebra::new();
    let mode = RequestMode::Hd(HdSpec::FromExtendedPrivate {
        xprv: "seed7".to_string(),
        path: None,
    });
    assert!(matches!(
        EthereumCLI::compose(&algebra, &mode),
        Err(WalletError::InvalidExtendedKey)
    ));
}

#[test]
fn from_xpub_has_no_private_material() {
    let algebra = ToyAlgebra::new();
    let mode = RequestMode::Hd(HdSpec::FromExtendedPublic {
        xpub: "xpubSEED7".to_string(),
        path: None,
    });
    let w = EthereumCLI::compose(&algebra, &mode).unwrap();
    assert!(w.path.is_none());
    assert!(w.private_key.is_none());
    assert!(w.extended_private_key.is_none());
    assert!(w.mnemonic.is_none());
    assert_eq!(w.extended_public_key.as_deref(), Some("xpubseed7"));
    assert_eq!(w.public_key.as_deref(), Some("pubseed7"));
    assert_eq!(w.address, "0xPUBSEED7");
}

#[test]
fn from_xpub_hardened_path_fails() {
    let algebra = ToyAlgebra::new();
    let mode = RequestMode::Hd(HdSpec::FromExtendedPublic {
        xpub: "xpubseed7".to_string(),
        path: Some(PathRequest { convention: "trezor".to_string(), index: None }),
    });
    assert!(matches!(
        EthereumCLI::compose(&algebra, &mode),
        Err(WalletError::InvalidDerivationPath)
    ));
}

#[test]
fn from_xpub_plain_path_derives() {
    let algebra = ToyAlgebra::new();
    let mode = RequestMode::Hd(HdSpec::FromExtendedPublic {
        xpub: "xpubseed7".to_string(),
        path: Some(PathRequest { convention: "m/0/1".to_string(), index: None }),
    });
    let w = EthereumCLI::compose(&algebra, &mode).unwrap();
    assert_eq!(w.path.as_deref(), Some("m/0/1"));
    assert_eq!(w.extended_public_key.as_deref(), Some("xpubseed7m01"));
}

#[test]
fn execute_validates_then_composes_count_wallets() {
    let algebra = ToyAlgebra::new();
    let options = EthereumOptions {
        wallet_values: Some(WalletValues {
            private_key: Some("F00D".to_string()),
            public_key: None,
            address: None,
        }),
        hd_values: None,
        count: 2,
        json: false,
    };
    let wallets = EthereumCLI::execute(&algebra, &options).unwrap();
    assert_eq!(wallets.len(), 2);
    for w in &wallets {
        assert_eq!(w.private_key.as_deref(), Some("f00d"));
        assert_eq!(w.address, "0xPUBF00D");
    }
}

#[test]
fn execute_rejects_ambiguous_options() {
    let algebra = ToyAlgebra::new();
    let options = EthereumOptions {
        wallet_values: Some(WalletValues {
            private_key: Some("a1".to_string()),
            public_key: Some("puba1".to_string()),
            address: None,
        }),
        hd_values: None,
        count: 1,
        json: false,
    };
    assert!(matches!(
        EthereumCLI::execute(&algebra, &options),
        Err(WalletError::AmbiguousInput)
    ));
}

#[test]
fn reparse_of_rendered_xprv_derives_identically() {
    let algebra = ToyAlgebra::new();
    // The round trip: derive from a freshly generated master key, and derive
    // from the parse of that key's rendering; the extended public keys agree.
    let (_, master) = algebra.generate_mnemonic(12, None, Wordlist::English).unwrap();
    let path = "m/44'/60'/0'/0";
    let direct = algebra.xprv_to_xpub(&algebra.derive_xprv(&master, path).unwrap());
    let reparsed = algebra.parse_xprv(&master).unwrap();
    let via_parse = algebra.xprv_to_xpub(&algebra.derive_xprv(&reparsed, path).unwrap());
    assert_eq!(direct, via_parse);
}
