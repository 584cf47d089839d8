use vstd::prelude::*;

verus! {

/// The role a connection plays.
#[derive(Debug, Clone, Copy, PartialEq, Eq, Structural)]
pub enum Mode {
    Client,
    Server,
}

/// Who proves its identity during the handshake.
#[derive(Debug, Clone, Copy, PartialEq, Eq, Structural)]
pub enum HandshakeType {
    /// Only the server presents a certificate.
    ServerAuth,
    /// Both sides present a certificate.
    MutualAuth,
}

impl Default for HandshakeType {
    fn default() -> (r: Self)
        ensures
            r == HandshakeType::ServerAuth,
    {
        HandshakeType::ServerAuth
    }
}

/// The cipher suites that every backend can be made to negotiate.
#[allow(non_camel_case_types)]
#[derive(Debug, Clone, Copy, PartialEq, Eq, Structural)]
pub enum CipherSuite {
    AES_128_GCM_SHA256,
    AES_256_GCM_SHA384,
}

impl Default for CipherSuite {
    fn default() -> (r: Self)
        ensures
            r == CipherSuite::AES_128_GCM_SHA256,
    {
        CipherSuite::AES_128_GCM_SHA256
    }
}

/// The key exchange groups that every backend can be made to negotiate.
#[derive(Debug, Clone, Copy, PartialEq, Eq, Structural)]
pub enum ECGroup {
    SECP256R1,
    X25519,
}

impl Default for ECGroup {
    fn default() -> (r: Self)
        ensures
            r == ECGroup::X25519,
    {
        ECGroup::X25519
    }
}

/// The kind of key behind the certificates.
#[derive(Debug, Clone, Copy, PartialEq, Eq, Structural)]
pub enum SigType {
    Rsa2048,
    Rsa4096,
    Ec384,
}

impl Default for SigType {
    fn default() -> (r: Self)
        ensures
            r == SigType::Ec384,
    {
        SigType::Ec384
    }
}

/// The cryptographic parameters of one benchmark run, the same for every backend.
#[derive(Debug, Clone, Copy, PartialEq, Eq, Structural)]
pub struct CryptoConfig {
    pub cipher_suite: CipherSuite,
    pub ec_group: ECGroup,
    pub sig_type: SigType,
}

impl CryptoConfig {
    pub fn new(cipher_suite: CipherSuite, ec_group: ECGroup, sig_type: SigType) -> (r: Self)
        ensures
            r.cipher_suite == cipher_suite,
            r.ec_group == ec_group,
            r.sig_type == sig_type,
    {
        Self { cipher_suite, ec_group, sig_type }
    }
}

impl Default for CryptoConfig {
    fn default() -> (r: Self)
        ensures
            r.cipher_suite == CipherSuite::AES_128_GCM_SHA256,
            r.ec_group == ECGroup::X25519,
            r.sig_type == SigType::Ec384,
    {
        Self {
            cipher_suite: CipherSuite::AES_128_GCM_SHA256,
            ec_group: ECGroup::X25519,
            sig_type: SigType::Ec384,
        }
    }
}

/// The pieces of PEM-encoded key material a connection may have to load.
#[derive(Debug, Clone, Copy, PartialEq, Eq, Structural)]
pub enum PemType {
    ServerKey,
    ServerCertChain,
    ClientKey,
    ClientCertChain,
    CACert,
}

} // verus!
