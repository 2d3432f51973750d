use vstd::prelude::*;

verus! {

/// The ways a wallet request can fail.
///
/// Every failure aborts the current invocation immediately; the only internal
/// recovery anywhere in the library is the mnemonic engine's trial over the
/// supported wordlists, which surfaces `InvalidMnemonic` only after all of
/// them have been exhausted.
#[derive(Clone, Copy, Debug, PartialEq, Eq, Structural)]
pub enum WalletError {
    /// A supplied private key string did not parse.
    InvalidPrivateKey,
    /// A supplied public key string did not parse.
    InvalidPublicKey,
    /// A supplied address string did not parse or failed its checksum.
    InvalidAddress,
    /// A supplied mnemonic phrase validated against none of the wordlists.
    InvalidMnemonic,
    /// The key algebra rejected the requested mnemonic word count.
    InvalidWordCount,
    /// A supplied extended private or public key string did not parse.
    InvalidExtendedKey,
    /// A derivation path did not parse, or a hardened step was requested
    /// from a public-only key.
    InvalidDerivationPath,
    /// The supplied options do not determine a single request: more than one
    /// of {private key, public key, address}, none of them, more than one of
    /// {mnemonic, extended private key, extended public key}, or both plain
    /// and HD material at once.
    AmbiguousInput,
}

} // verus!
