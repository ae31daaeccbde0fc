//! Credential lookup for pre-shared-key transport security: the data a
//! provider hands back, and the provider traits that users of this library
//! implement. The handshake itself is the engine's business; this library
//! only consumes the lookup results.

use vstd::prelude::*;

verus! {

/// A pre-shared-key identity, as raw bytes.
pub type CoapCryptoPskIdentity = Vec<u8>;

/// A pre-shared key, as raw bytes.
pub type CoapCryptoPsk = Vec<u8>;

/// The identity and key a client presents for a server's hint.
#[derive(Clone, Debug, PartialEq, Eq)]
pub struct CoapClientCryptoIdentity {
    pub identity: CoapCryptoPskIdentity,
    pub key: CoapCryptoPsk,
}

/// The hint and key a server selects for a requested server name.
#[derive(Clone, Debug, PartialEq, Eq)]
pub struct CoapServerCryptoHint {
    pub hint: CoapCryptoPskIdentity,
    pub key: CoapCryptoPsk,
}

/// A client-side credential source: asked once per handshake, with the
/// server's hint where one was sent.
pub trait CoapClientCryptoProvider {
    /// The identity and key to present for the given hint, if any fit.
    fn provide_info_for_hint(&mut self, hint: Option<&CoapCryptoPskIdentity>) -> Option<
        CoapClientCryptoIdentity,
    >;
}

/// A server-side credential source: asked for the key of a presented
/// identity, and for the hint to send for a requested server name.
pub trait CoapServerCryptoProvider {
    /// The key for the given identity, if it is known.
    fn provide_key_for_identity(&mut self, identity: &CoapCryptoPskIdentity) -> Option<
        CoapCryptoPsk,
    >;

    /// The hint and key to use for the given server name, if any fit.
    fn provide_hint_for_sni(&mut self, sni: Option<&String>) -> Option<CoapServerCryptoHint>;
}

} // verus!
