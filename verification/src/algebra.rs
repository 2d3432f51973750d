use vstd::prelude::*;

use crate::error::WalletError;
use crate::strview::opt_str_view;
use crate::wordlist::Wordlist;

verus! {

/// The key algebra: the capability interface through which the orchestrator
/// reaches all elliptic-curve, seed, checksum and address arithmetic. The
/// orchestrator never looks inside key material; it only passes canonical
/// string encodings between algebra calls, so every value here is a string
/// and every method comes with the abstract functions that pin down how its
/// result relates to its arguments.
///
/// The library itself implements no key algebra — a caller supplies one —
/// so everything proved from these contracts holds of exactly those
/// implementations that honour them. The contracts state what the
/// orchestrator assumes of any reasonable algebra:
/// - parsing accepts a fixed set of well-formed strings and re-renders each
///   accepted value in a canonical form; parsing a canonical form gives the
///   same value back (rendering is a fixed point of parse-then-render);
/// - key-to-key steps (public key of a private key, address of a public key,
///   extended public key of an extended private key) are total functions of
///   their canonical input;
/// - derivation along a well-formed path always succeeds from a private
///   extended key, and succeeds from a public extended key exactly when the
///   path has no hardened step;
/// - generation draws fresh entropy on every call, so nothing is promised of
///   a generated value beyond its well-formedness.
pub trait KeyAlgebra {
    /// Whether `s` parses as a private key.
    open spec fn is_private_key(&self, s: Seq<char>) -> bool {
        arbitrary()
    }

    /// The canonical rendering of the private key parsed from `s`.
    open spec fn private_key_str(&self, s: Seq<char>) -> Seq<char> {
        arbitrary()
    }

    /// Whether `s` parses as a public key.
    open spec fn is_public_key(&self, s: Seq<char>) -> bool {
        arbitrary()
    }

    /// The canonical rendering of the public key parsed from `s`.
    open spec fn public_key_str(&self, s: Seq<char>) -> Seq<char> {
        arbitrary()
    }

    /// The canonical public key derived from a canonical private key.
    open spec fn public_of_private(&self, private_key: Seq<char>) -> Seq<char> {
        arbitrary()
    }

    /// Whether `s` parses as an address.
    open spec fn is_address(&self, s: Seq<char>) -> bool {
        arbitrary()
    }

    /// The canonical, checksummed rendering of the address parsed from `s`.
    open spec fn address_str(&self, s: Seq<char>) -> Seq<char> {
        arbitrary()
    }

    /// The canonical address derived from a canonical public key.
    open spec fn address_of_public(&self, public_key: Seq<char>) -> Seq<char> {
        arbitrary()
    }

    /// Whether `s` parses as an extended private key.
    open spec fn is_xprv(&self, s: Seq<char>) -> bool {
        arbitrary()
    }

    /// The canonical rendering of the extended private key parsed from `s`.
    open spec fn xprv_str(&self, s: Seq<char>) -> Seq<char> {
        arbitrary()
    }

    /// Whether `s` parses as an extended public key.
    open spec fn is_xpub(&self, s: Seq<char>) -> bool {
        arbitrary()
    }

    /// The canonical rendering of the extended public key parsed from `s`.
    open spec fn xpub_str(&self, s: Seq<char>) -> Seq<char> {
        arbitrary()
    }

    /// Whether `p` is a well-formed derivation path.
    open spec fn is_path(&self, p: Seq<char>) -> bool {
        arbitrary()
    }

    /// Whether the well-formed path `p` contains a hardened step.
    open spec fn path_hardened(&self, p: Seq<char>) -> bool {
        arbitrary()
    }

    /// The child extended private key of `xprv` along path `p`.
    open spec fn xprv_derive(&self, xprv: Seq<char>, p: Seq<char>) -> Seq<char> {
        arbitrary()
    }

    /// The child extended public key of `xpub` along the non-hardened path `p`.
    open spec fn xpub_derive(&self, xpub: Seq<char>, p: Seq<char>) -> Seq<char> {
        arbitrary()
    }

    /// The extended public key corresponding to an extended private key.
    open spec fn xpub_of_xprv(&self, xprv: Seq<char>) -> Seq<char> {
        arbitrary()
    }

    /// The private key held inside an extended private key.
    open spec fn private_of_xprv(&self, xprv: Seq<char>) -> Seq<char> {
        arbitrary()
    }

    /// The public key held inside an extended public key.
    open spec fn public_of_xpub(&self, xpub: Seq<char>) -> Seq<char> {
        arbitrary()
    }

    /// Whether `phrase` is a valid mnemonic of `wordlist`: every word belongs
    /// to the wordlist, the checksum holds, and seed derivation succeeds.
    open spec fn mnemonic_valid(&self, phrase: Seq<char>, wordlist: Wordlist) -> bool {
        arbitrary()
    }

    /// The normalized rendering of the valid mnemonic `phrase` of `wordlist`.
    open spec fn normal_phrase(&self, phrase: Seq<char>, wordlist: Wordlist) -> Seq<char> {
        arbitrary()
    }

    /// The master extended private key derived from a valid mnemonic of
    /// `wordlist` and an optional seed passphrase.
    open spec fn master_xprv(
        &self,
        phrase: Seq<char>,
        password: Option<Seq<char>>,
        wordlist: Wordlist,
    ) -> Seq<char> {
        arbitrary()
    }

    /// Whether the algebra accepts `n` as a mnemonic word count.
    open spec fn valid_word_count(&self, n: u8) -> bool {
        arbitrary()
    }

    /// Generate a private key from a fresh, secure entropy source. Nothing
    /// relates two calls: only well-formedness and canonicality are promised.
    fn random_private_key(&self) -> (r: String)
        ensures
            self.is_private_key(r@),
            self.private_key_str(r@) == r@,
    ;

    /// Parse a private key and render it canonically.
    fn parse_private_key(&self, s: &str) -> (r: Result<String, WalletError>)
        ensures
            r is Ok <==> self.is_private_key(s@),
            r matches Ok(k) ==> {
                &&& k@ == self.private_key_str(s@)
                &&& self.is_private_key(k@)
                &&& self.private_key_str(k@) == k@
            },
            r matches Err(e) ==> e == WalletError::InvalidPrivateKey,
    ;

    /// Derive the public key of a private key.
    fn private_to_public(&self, private_key: &str) -> (r: String)
        requires
            self.is_private_key(private_key@),
        ensures
            r@ == self.public_of_private(private_key@),
            self.is_public_key(r@),
            self.public_key_str(r@) == r@,
    ;

    /// Parse a public key and render it canonically.
    fn parse_public_key(&self, s: &str) -> (r: Result<String, WalletError>)
        ensures
            r is Ok <==> self.is_public_key(s@),
            r matches Ok(k) ==> {
                &&& k@ == self.public_key_str(s@)
                &&& self.is_public_key(k@)
                &&& self.public_key_str(k@) == k@
            },
            r matches Err(e) ==> e == WalletError::InvalidPublicKey,
    ;

    /// Derive the address of a public key. Address derivation is a total
    /// function of the key: it hashes and re-encodes, and cannot fail.
    fn public_to_address(&self, public_key: &str) -> (r: String)
        requires
            self.is_public_key(public_key@),
        ensures
            r@ == self.address_of_public(public_key@),
            self.is_address(r@),
            self.address_str(r@) == r@,
    ;

    /// Parse an address and render it in canonical, checksummed form.
    fn parse_address(&self, s: &str) -> (r: Result<String, WalletError>)
        ensures
            r is Ok <==> self.is_address(s@),
            r matches Ok(a) ==> {
                &&& a@ == self.address_str(s@)
                &&& self.is_address(a@)
                &&& self.address_str(a@) == a@
            },
            r matches Err(e) ==> e == WalletError::InvalidAddress,
    ;

    /// Parse an extended private key and render it canonically.
    fn parse_xprv(&self, s: &str) -> (r: Result<String, WalletError>)
        ensures
            r is Ok <==> self.is_xprv(s@),
            r matches Ok(k) ==> {
                &&& k@ == self.xprv_str(s@)
                &&& self.is_xprv(k@)
                &&& self.xprv_str(k@) == k@
            },
            r matches Err(e) ==> e == WalletError::InvalidExtendedKey,
    ;

    /// Parse an extended public key and render it canonically.
    fn parse_xpub(&self, s: &str) -> (r: Result<String, WalletError>)
        ensures
            r is Ok <==> self.is_xpub(s@),
            r matches Ok(k) ==> {
                &&& k@ == self.xpub_str(s@)
                &&& self.is_xpub(k@)
                &&& self.xpub_str(k@) == k@
            },
            r matches Err(e) ==> e == WalletError::InvalidExtendedKey,
    ;

    /// Derive a child extended private key along a path. Succeeds exactly on
    /// well-formed paths: with the private key at hand, hardened and
    /// non-hardened steps alike can be taken.
    fn derive_xprv(&self, xprv: &str, path: &str) -> (r: Result<String, WalletError>)
        requires
            self.is_xprv(xprv@),
        ensures
            r is Ok <==> self.is_path(path@),
            r matches Ok(k) ==> {
                &&& k@ == self.xprv_derive(xprv@, path@)
                &&& self.is_xprv(k@)
                &&& self.xprv_str(k@) == k@
            },
            r matches Err(e) ==> e == WalletError::InvalidDerivationPath,
    ;

    /// Derive a child extended public key along a path. Succeeds exactly on
    /// well-formed paths free of hardened steps: a hardened step needs the
    /// private key, which a public-only key does not hold.
    fn derive_xpub(&self, xpub: &str, path: &str) -> (r: Result<String, WalletError>)
        requires
            self.is_xpub(xpub@),
        ensures
            r is Ok <==> self.is_path(path@) && !self.path_hardened(path@),
            r matches Ok(k) ==> {
                &&& k@ == self.xpub_derive(xpub@, path@)
                &&& self.is_xpub(k@)
                &&& self.xpub_str(k@) == k@
            },
            r matches Err(e) ==> e == WalletError::InvalidDerivationPath,
    ;

    /// The extended public key corresponding to an extended private key.
    fn xprv_to_xpub(&self, xprv: &str) -> (r: String)
        requires
            self.is_xprv(xprv@),
        ensures
            r@ == self.xpub_of_xprv(xprv@),
            self.is_xpub(r@),
            self.xpub_str(r@) == r@,
    ;

    /// The private key held inside an extended private key.
    fn xprv_to_private(&self, xprv: &str) -> (r: String)
        requires
            self.is_xprv(xprv@),
        ensures
            r@ == self.private_of_xprv(xprv@),
            self.is_private_key(r@),
            self.private_key_str(r@) == r@,
    ;

    /// The public key held inside an extended public key.
    fn xpub_to_public(&self, xpub: &str) -> (r: String)
        requires
            self.is_xpub(xpub@),
        ensures
            r@ == self.public_of_xpub(xpub@),
            self.is_public_key(r@),
            self.public_key_str(r@) == r@,
    ;

    /// Generate a fresh mnemonic of `word_count` words from `wordlist`, from
    /// a fresh, secure entropy source, and derive its master extended private
    /// key under the optional seed passphrase. Returns the normalized phrase
    /// and the master key. Fails exactly when the algebra rejects the word
    /// count.
    fn generate_mnemonic(
        &self,
        word_count: u8,
        password: Option<&str>,
        wordlist: Wordlist,
    ) -> (r: Result<(String, String), WalletError>)
        ensures
            r is Ok <==> self.valid_word_count(word_count),
            r matches Ok(t) ==> {
                &&& self.mnemonic_valid(t.0@, wordlist)
                &&& self.normal_phrase(t.0@, wordlist) == t.0@
                &&& t.1@ == self.master_xprv(t.0@, opt_str_view(password), wordlist)
                &&& self.is_xprv(t.1@)
                &&& self.xprv_str(t.1@) == t.1@
            },
            r matches Err(e) ==> e == WalletError::InvalidWordCount,
    ;

    /// Validate a supplied phrase against one wordlist and, when it is valid,
    /// derive its master extended private key under the optional seed
    /// passphrase. Returns the normalized phrase and the master key.
    fn mnemonic_to_xprv(
        &self,
        phrase: &str,
        password: Option<&str>,
        wordlist: Wordlist,
    ) -> (r: Result<(String, String), WalletError>)
        ensures
            r is Ok <==> self.mnemonic_valid(phrase@, wordlist),
            r matches Ok(t) ==> {
                &&& t.0@ == self.normal_phrase(phrase@, wordlist)
                &&& self.mnemonic_valid(t.0@, wordlist)
                &&& self.normal_phrase(t.0@, wordlist) == t.0@
                &&& t.1@ == self.master_xprv(phrase@, opt_str_view(password), wordlist)
                &&& self.is_xprv(t.1@)
                &&& self.xprv_str(t.1@) == t.1@
            },
            r matches Err(e) ==> e == WalletError::InvalidMnemonic,
    ;
}

/// Round trip of rendering and re-parsing before derivation: deriving along
/// a path and taking the extended public key gives the same value whether
/// one starts from a canonical extended private key or from the parse of its
/// rendering — parsing a canonical rendering is the identity.
pub proof fn lemma_reparse_derive_round_trip<A: KeyAlgebra>(
    algebra: &A,
    xprv: Seq<char>,
    path: Seq<char>,
)
    requires
        algebra.is_xprv(xprv),
        algebra.xprv_str(xprv) == xprv,
    ensures
        algebra.xpub_of_xprv(algebra.xprv_derive(algebra.xprv_str(xprv), path)) == algebra
            .xpub_of_xprv(algebra.xprv_derive(xprv, path)),
{
}

} // verus!
