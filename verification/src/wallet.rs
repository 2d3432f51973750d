use vstd::prelude::*;

use crate::strview::opt_string_view;

verus! {

/// One derived wallet, as handed to an external renderer. The address is
/// mandatory and is the last value derived in every branch; every other
/// field is present exactly when the active branch determines it.
#[derive(Clone, Debug)]
pub struct EthereumWallet {
    pub path: Option<String>,
    pub password: Option<String>,
    pub mnemonic: Option<String>,
    pub extended_private_key: Option<String>,
    pub extended_public_key: Option<String>,
    pub private_key: Option<String>,
    pub public_key: Option<String>,
    pub address: String,
}

/// The mathematical content of a wallet output: each field as a character
/// sequence.
pub struct WalletView {
    pub path: Option<Seq<char>>,
    pub password: Option<Seq<char>>,
    pub mnemonic: Option<Seq<char>>,
    pub extended_private_key: Option<Seq<char>>,
    pub extended_public_key: Option<Seq<char>>,
    pub private_key: Option<Seq<char>>,
    pub public_key: Option<Seq<char>>,
    pub address: Seq<char>,
}

impl View for EthereumWallet {
    type V = WalletView;

    open spec fn view(&self) -> WalletView {
        WalletView {
            path: opt_string_view(self.path),
            password: opt_string_view(self.password),
            mnemonic: opt_string_view(self.mnemonic),
            extended_private_key: opt_string_view(self.extended_private_key),
            extended_public_key: opt_string_view(self.extended_public_key),
            private_key: opt_string_view(self.private_key),
            public_key: opt_string_view(self.public_key),
            address: self.address@,
        }
    }
}

/// A wallet view with nothing but an address.
pub open spec fn address_only_wallet(address: Seq<char>) -> WalletView {
    WalletView {
        path: None,
        password: None,
        mnemonic: None,
        extended_private_key: None,
        extended_public_key: None,
        private_key: None,
        public_key: None,
        address: address,
    }
}

} // verus!
