//! The adapter for a backend whose engine talks to the world through two callbacks
//! and is polled for progress.
//!
//! The engine itself is foreign code and lives outside this library. What the
//! adapter decides lives here: how a config is put together, what the callbacks do
//! with the simulated network, and what each answer of the engine means for the
//! connection.

use crate::config::{CipherSuite, CryptoConfig, ECGroup, HandshakeType, Mode, PemType, SigType};
use crate::error::Error;
use crate::transport::{ConnectedBuffer, Network, WouldBlock};
use vstd::prelude::*;

verus! {

/// Whether the server asks the client for a certificate.
#[derive(Debug, Clone, Copy, PartialEq, Eq, Structural)]
pub enum ClientAuthType {
    NotRequested,
    Required,
}

/// The protocol versions the engine can report.
#[derive(Debug, Clone, Copy, PartialEq, Eq, Structural)]
pub enum Version {
    SSLV2,
    SSLV3,
    TLS10,
    TLS11,
    TLS12,
    TLS13,
}

/// What the engine answers when it is asked to go on with the handshake.
#[derive(Debug, Clone, Copy, PartialEq, Eq, Structural)]
pub enum NegotiateStatus {
    /// The handshake is under way and waits for the peer.
    InProgress,
    /// The handshake is done.
    Complete,
    /// The negotiation failed.
    Failed,
}

/// What the engine answers when it is asked to send or to receive.
#[derive(Debug, Clone, Copy, PartialEq, Eq, Structural)]
pub enum TransferStatus {
    /// Nothing could be moved right now.
    Blocked,
    /// This many bytes of the caller's buffer were moved.
    Moved(usize),
    /// The engine failed.
    Failed,
}

/// What the engine answers when it is asked to flush what it has sent.
#[derive(Debug, Clone, Copy, PartialEq, Eq, Structural)]
pub enum FlushStatus {
    /// Some of the data could not be written out right now.
    Blocked,
    /// All of the data is written out.
    Flushed,
    /// The engine failed.
    Failed,
}

/// How a send or a receive goes on after one answer of the engine.
#[derive(Debug, Clone, Copy, PartialEq, Eq, Structural)]
pub enum Progress {
    /// All of the buffer was moved.
    Done,
    /// The engine is to be asked again, for the bytes from this position on.
    Continue(usize),
}

/// Checks the name in the peer's certificate against the one that is expected.
#[derive(Debug, Clone, Copy)]
pub struct HostNameHandler<'a> {
    pub expected_server_name: &'a str,
}

/// Everything the engine has to be told to build its config.
#[derive(Debug, Clone, Copy)]
pub struct S2NConfig {
    pub mode: Mode,
    /// The name of the security policy.
    pub security_policy: &'static str,
    pub client_auth_type: ClientAuthType,
    /// The kind of key behind every certificate that is loaded.
    pub sig_type: SigType,
    /// The certificate to trust when the peer's certificate is verified, if it is.
    pub trusted_ca: Option<PemType>,
    /// The check of the peer's host name, made where its certificate is verified.
    pub verify_host: Option<HostNameHandler<'static>>,
    /// The certificate chain and the key to present, if any are presented.
    pub cert_chain_and_key: Option<(PemType, PemType)>,
}

/// What the adapter itself knows of a connection: its role, the end of the link
/// that the engine's callbacks read from and write to, and whether the handshake
/// is done.
#[derive(Debug)]
pub struct S2NConnection {
    mode: Mode,
    connected_buffer: ConnectedBuffer,
    handshake_completed: bool,
}

/// The name of the security policy that allows exactly the requested cipher suite
/// and curve among the shared parameters.
pub open spec fn security_policy_name(cipher_suite: CipherSuite, ec_group: ECGroup) -> Seq<char> {
    match (cipher_suite, ec_group) {
        (CipherSuite::AES_128_GCM_SHA256, ECGroup::SECP256R1) => "20230317"@,
        (CipherSuite::AES_256_GCM_SHA384, ECGroup::SECP256R1) => "20190802"@,
        (CipherSuite::AES_128_GCM_SHA256, ECGroup::X25519) => "default_tls13"@,
        (CipherSuite::AES_256_GCM_SHA384, ECGroup::X25519) => "20190801"@,
    }
}

/// A role verifies the peer's certificate if it is the client, or if both sides
/// authenticate.
pub open spec fn verifies_peer(mode: Mode, handshake_type: HandshakeType) -> bool {
    handshake_type == HandshakeType::MutualAuth || mode == Mode::Client
}

/// A role presents a certificate if it is the server, or if both sides
/// authenticate.
pub open spec fn presents_certificate(mode: Mode, handshake_type: HandshakeType) -> bool {
    mode == Mode::Server || handshake_type == HandshakeType::MutualAuth
}

/// The certificate chain and the key of a role.
pub open spec fn own_cert_chain_and_key(mode: Mode) -> (PemType, PemType) {
    match mode {
        Mode::Server => (PemType::ServerCertChain, PemType::ServerKey),
        Mode::Client => (PemType::ClientCertChain, PemType::ClientKey),
    }
}

/// The cipher suite of the shared enumeration that the engine calls `name`.
pub open spec fn cipher_suite_named(name: Seq<char>) -> Result<CipherSuite, Error> {
    if name == "TLS_AES_128_GCM_SHA256"@ {
        Ok(CipherSuite::AES_128_GCM_SHA256)
    } else if name == "TLS_AES_256_GCM_SHA384"@ {
        Ok(CipherSuite::AES_256_GCM_SHA384)
    } else {
        Err(Error::UnknownCipherSuite)
    }
}

/// How a transfer of `len` bytes, of which `moved` are done, goes on after the
/// engine answered `status`. An engine that is blocked, or that moved nothing, will
/// never deliver the rest: the peer did not send that much. An engine that failed
/// ends the transfer with `EngineFailed`, whatever was moved before.
pub open spec fn transfer_progress(moved: usize, len: usize, status: TransferStatus) -> Result<
    Progress,
    Error,
> {
    match status {
        TransferStatus::Blocked => Err(Error::TransportExhausted),
        TransferStatus::Moved(n) => if n == 0 {
            Err(Error::TransportExhausted)
        } else if n >= len - moved {
            Ok(Progress::Done)
        } else {
            Ok(Progress::Continue((moved + n) as usize))
        },
        TransferStatus::Failed => Err(Error::EngineFailed),
    }
}

/// What a flush answers for an answer of the engine: only data that is written
/// out in full lets a send go well.
pub open spec fn flush_outcome(status: FlushStatus) -> Result<(), Error> {
    match status {
        FlushStatus::Flushed => Ok(()),
        FlushStatus::Blocked => Err(Error::TransportExhausted),
        FlushStatus::Failed => Err(Error::EngineFailed),
    }
}


impl S2NConfig {
    /// Whether this is the config of a role for the given parameters.
    pub open spec fn is_for(
        self,
        mode: Mode,
        crypto_config: CryptoConfig,
        handshake_type: HandshakeType,
    ) -> bool {
        &&& self.mode == mode
        &&& self.security_policy@ == security_policy_name(
            crypto_config.cipher_suite,
            crypto_config.ec_group,
        )
        &&& self.client_auth_type == match handshake_type {
            HandshakeType::ServerAuth => ClientAuthType::NotRequested,
            HandshakeType::MutualAuth => ClientAuthType::Required,
        }
        &&& self.sig_type == crypto_config.sig_type
        &&& self.trusted_ca == if verifies_peer(mode, handshake_type) {
            Some(PemType::CACert)
        } else {
            None
        }
        &&& self.verify_host is Some == verifies_peer(mode, handshake_type)
        &&& self.verify_host matches Some(handler) ==> handler.expected_server_name@
            == "localhost"@
        &&& self.cert_chain_and_key == if presents_certificate(mode, handshake_type) {
            Some(own_cert_chain_and_key(mode))
        } else {
            None
        }
    }
}

/// What a handshake step answers, and whether the connection is complete after
/// it, for an answer of the engine.
pub open spec fn handshake_outcome(status: NegotiateStatus, completed_before: bool) -> (
    Result<(), Error>,
    bool,
) {
    match status {
        NegotiateStatus::InProgress => (Ok(()), false),
        NegotiateStatus::Complete => (Ok(()), true),
        NegotiateStatus::Failed => (Err(Error::HandshakeFailed), completed_before),
    }
}

/// `errno::set_errno` on `errno::Errno(code)`: stores `code` in the calling
/// thread's `errno` variable and returns nothing.
#[verifier::external_body]
fn set_errno(code: i32) {
    errno::set_errno(errno::Errno(code));
}

/// `libc::EWOULDBLOCK`: the platform's error code for an operation that would
/// block. Its value differs between platforms, so nothing is said of it.
#[verifier::external_body]
fn would_block_code() -> i32 {
    libc::EWOULDBLOCK
}

fn str_equal(a: &str, b: &str) -> (r: bool)
    ensures
        r == (a@ == b@),
{
    let a = a.to_owned();
    let b = b.to_owned();
    a == b
}

impl<'a> HostNameHandler<'a> {
    /// Whether `hostname` is the expected name, letter for letter.
    pub fn verify_host_name(&self, hostname: &str) -> (accepted: bool)
        ensures
            accepted == (self.expected_server_name@ == hostname@),
    {
        str_equal(self.expected_server_name, hostname)
    }
}

/// The security policy for a cipher suite and a curve. Every pairing of the shared
/// parameters has one.
pub fn security_policy(cipher_suite: CipherSuite, ec_group: ECGroup) -> (name: &'static str)
    ensures
        name@ == security_policy_name(cipher_suite, ec_group),
{
    match (cipher_suite, ec_group) {
        (CipherSuite::AES_128_GCM_SHA256, ECGroup::SECP256R1) => "20230317",
        (CipherSuite::AES_256_GCM_SHA384, ECGroup::SECP256R1) => "20190802",
        (CipherSuite::AES_128_GCM_SHA256, ECGroup::X25519) => "default_tls13",
        (CipherSuite::AES_256_GCM_SHA384, ECGroup::X25519) => "20190801",
    }
}

impl S2NConnection {
    /// The role the engine is to play.
    pub closed spec fn role(&self) -> Mode {
        self.mode
    }

    /// The end of the link the connection is bound to.
    pub closed spec fn connected_buffer(&self) -> ConnectedBuffer {
        self.connected_buffer
    }

    /// Whether the engine has reported the handshake as done.
    pub closed spec fn completed(&self) -> bool {
        self.handshake_completed
    }

    /// The engine's send callback: appends `data` to what the peer will read and
    /// answers how many bytes that were, which is all of them.
    pub fn send_cb(context: &ConnectedBuffer, net: &mut Network, data: &[u8]) -> (written: i32)
        requires
            context.connected_in(old(net)@),
            data@.len() <= i32::MAX,
        ensures
            written == data@.len(),
            final(net)@ == context.after_write(old(net)@, data@),
    {
        let written = context.write(net, data);
        written as i32
    }

    /// The engine's receive callback: flushes, then moves the oldest waiting bytes
    /// into `data` and answers how many were moved. Where nothing waits it sets
    /// `errno` to the platform's code for "would block" and answers -1, so that the
    /// engine tries again later and takes it neither for an error nor for the end of
    /// the stream.
    pub fn recv_cb(context: &ConnectedBuffer, net: &mut Network, data: &mut [u8]) -> (read: i32)
        requires
            context.connected_in(old(net)@),
            old(data)@.len() <= i32::MAX,
        ensures
            final(net)@ == context.after_read(old(net)@, old(data)@.len()),
            final(data)@ == context.readable(old(net)@).take(
                context.read_len(old(net)@, old(data)@.len()) as int,
            ) + old(data)@.skip(context.read_len(old(net)@, old(data)@.len()) as int),
            context.read_len(old(net)@, old(data)@.len()) == 0 ==> read == -1,
            context.read_len(old(net)@, old(data)@.len()) > 0 ==> read == context.read_len(
                old(net)@,
                old(data)@.len(),
            ),
    {
        context.flush(net);
        match context.read(net, data) {
            Err(WouldBlock) => {
                set_errno(would_block_code());
                -1
            },
            Ok(len) => len as i32,
        }
    }

    /// Puts together what the engine has to be told for a role: the security policy
    /// for the cipher suite and the curve, whether the client is asked for a
    /// certificate, the certificate to trust and the host name to expect where the
    /// role verifies its peer, and the certificate chain and key where the role
    /// presents one. Every combination of the shared parameters has a config.
    pub fn make_config(
        mode: Mode,
        crypto_config: CryptoConfig,
        handshake_type: HandshakeType,
    ) -> (r: Result<S2NConfig, Error>)
        ensures
            r matches Ok(config) && config.is_for(mode, crypto_config, handshake_type),
    {
        let security_policy = security_policy(crypto_config.cipher_suite, crypto_config.ec_group);
        let client_auth_type = match handshake_type {
            HandshakeType::ServerAuth => ClientAuthType::NotRequested,
            HandshakeType::MutualAuth => ClientAuthType::Required,
        };
        let (trusted_ca, verify_host) = if handshake_type == HandshakeType::MutualAuth || mode
            == Mode::Client {
            (Some(PemType::CACert), Some(HostNameHandler { expected_server_name: "localhost" }))
        } else {
            (None, None)
        };
        let cert_chain_and_key = if mode == Mode::Server || handshake_type
            == HandshakeType::MutualAuth {
            Some(
                match mode {
                    Mode::Server => (PemType::ServerCertChain, PemType::ServerKey),
                    Mode::Client => (PemType::ClientCertChain, PemType::ClientKey),
                },
            )
        } else {
            None
        };
        Ok(
            S2NConfig {
                mode,
                security_policy,
                client_auth_type,
                sig_type: crypto_config.sig_type,
                trusted_ca,
                verify_host,
                cert_chain_and_key,
            },
        )
    }

    /// What the engine's answer to a config means. An engine that does not know the
    /// security policy, or that refuses another part of the config, cannot express
    /// the requested parameters: that is `UnsupportedParameterCombination`, and
    /// nothing else is put in the place of what was refused.
    pub fn config_accepted(config: S2NConfig, accepted: bool) -> (r: Result<S2NConfig, Error>)
        ensures
            accepted ==> r == Ok::<S2NConfig, Error>(config),
            !accepted ==> r == Err::<S2NConfig, Error>(Error::UnsupportedParameterCombination),
    {
        if accepted {
            Ok(config)
        } else {
            Err(Error::UnsupportedParameterCombination)
        }
    }

    /// What the engine's answer to being bound to the connection means: the
    /// connection is ready for its first handshake step, or the engine failed.
    pub fn engine_bound(self, bound: bool) -> (r: Result<Self, Error>)
        ensures
            bound ==> r == Ok::<Self, Error>(self),
            !bound ==> r == Err::<Self, Error>(Error::EngineFailed),
    {
        if bound {
            Ok(self)
        } else {
            Err(Error::EngineFailed)
        }
    }

    /// A connection in the role of `config` at `connected_buffer`, before its first
    /// handshake step.
    pub fn new_from_config(config: &S2NConfig, connected_buffer: ConnectedBuffer) -> (r: Result<
        Self,
        Error,
    >)
        ensures
            r matches Ok(connection) && connection.role() == config.mode
                && connection.connected_buffer() == connected_buffer && !connection.completed(),
    {
        Ok(S2NConnection { mode: config.mode, connected_buffer, handshake_completed: false })
    }

    /// Takes in what the engine answered to one handshake step. An engine that is
    /// still under way is no error: the connection is then not complete, and the
    /// step went well. A failed negotiation is `HandshakeFailed`, and leaves the
    /// connection as it was.
    pub fn handshake(&mut self, status: NegotiateStatus) -> (r: Result<(), Error>)
        ensures
            final(self).role() == old(self).role(),
            final(self).connected_buffer() == old(self).connected_buffer(),
            (r, final(self).completed()) == handshake_outcome(status, old(self).completed()),
    {
        match status {
            NegotiateStatus::InProgress => {
                self.handshake_completed = false;
                Ok(())
            },
            NegotiateStatus::Complete => {
                self.handshake_completed = true;
                Ok(())
            },
            NegotiateStatus::Failed => Err(Error::HandshakeFailed),
        }
    }

    pub fn handshake_completed(&self) -> (b: bool)
        ensures
            b == self.completed(),
    {
        self.handshake_completed
    }

    /// The role the engine is to play.
    pub fn mode(&self) -> (mode: Mode)
        ensures
            mode == self.role(),
    {
        self.mode
    }

    /// The cipher suite that the engine calls `name`, for a connection whose
    /// handshake is done. A name outside the shared enumeration is
    /// `UnknownCipherSuite`.
    pub fn get_negotiated_cipher_suite(&self, name: &str) -> (r: Result<CipherSuite, Error>)
        requires
            self.completed(),
        ensures
            r == cipher_suite_named(name@),
    {
        if str_equal(name, "TLS_AES_128_GCM_SHA256") {
            Ok(CipherSuite::AES_128_GCM_SHA256)
        } else if str_equal(name, "TLS_AES_256_GCM_SHA384") {
            Ok(CipherSuite::AES_256_GCM_SHA384)
        } else {
            Err(Error::UnknownCipherSuite)
        }
    }

    /// Whether the version that the engine reports is TLS 1.3, for a connection
    /// whose handshake is done.
    pub fn negotiated_tls13(&self, version: Version) -> (b: bool)
        requires
            self.completed(),
        ensures
            b == (version == Version::TLS13),
    {
        version == Version::TLS13
    }

    /// How a send of `len` bytes, of which `sent` are on their way, goes on after
    /// the engine answered `status`.
    pub fn send(sent: usize, len: usize, status: TransferStatus) -> (r: Result<Progress, Error>)
        requires
            sent < len,
        ensures
            r == transfer_progress(sent, len, status),
            r matches Ok(Progress::Continue(next)) ==> sent < next < len,
    {
        Self::progress(sent, len, status)
    }

    /// What the engine's answer to a flush means: the data is with the peer, or the
    /// engine is stuck on a link that does not take it, or the engine failed.
    pub fn flush(status: FlushStatus) -> (r: Result<(), Error>)
        ensures
            r == flush_outcome(status),
    {
        match status {
            FlushStatus::Flushed => Ok(()),
            FlushStatus::Blocked => Err(Error::TransportExhausted),
            FlushStatus::Failed => Err(Error::EngineFailed),
        }
    }

    /// How a receive of `len` bytes, of which `filled` are there, goes on after the
    /// engine answered `status`.
    pub fn recv(filled: usize, len: usize, status: TransferStatus) -> (r: Result<Progress, Error>)
        requires
            filled < len,
        ensures
            r == transfer_progress(filled, len, status),
            r matches Ok(Progress::Continue(next)) ==> filled < next < len,
    {
        Self::progress(filled, len, status)
    }

    fn progress(moved: usize, len: usize, status: TransferStatus) -> (r: Result<Progress, Error>)
        requires
            moved < len,
        ensures
            r == transfer_progress(moved, len, status),
            r matches Ok(Progress::Continue(next)) ==> moved < next < len,
    {
        match status {
            TransferStatus::Blocked => Err(Error::TransportExhausted),
            TransferStatus::Moved(n) => {
                if n == 0 {
                    Err(Error::TransportExhausted)
                } else if n >= len - moved {
                    Ok(Progress::Done)
                } else {
                    Ok(Progress::Continue(moved + n))
                }
            },
            TransferStatus::Failed => Err(Error::EngineFailed),
        }
    }

    /// Empties the queues of the link the connection is bound to.
    pub fn shrink_connected_buffer(&mut self, net: &mut Network)
        requires
            old(self).connected_buffer().connected_in(old(net)@),
        ensures
            final(net)@ == old(self).connected_buffer().after_shrink(old(net)@),
            *final(self) == *old(self),
    {
        self.connected_buffer.shrink(net);
    }

    /// The end of the link the connection is bound to.
    pub fn clone_connected_buffer(&self) -> (connected_buffer: ConnectedBuffer)
        ensures
            connected_buffer == self.connected_buffer(),
    {
        self.connected_buffer
    }
}

/// The two names that the engine has for the shared cipher suites are different
/// names, and each stands for its own suite.
pub proof fn lemma_cipher_suite_names()
    ensures
        cipher_suite_named("TLS_AES_128_GCM_SHA256"@) == Ok::<CipherSuite, Error>(
            CipherSuite::AES_128_GCM_SHA256,
        ),
        cipher_suite_named("TLS_AES_256_GCM_SHA384"@) == Ok::<CipherSuite, Error>(
            CipherSuite::AES_256_GCM_SHA384,
        ),
{
    reveal_strlit("TLS_AES_128_GCM_SHA256");
    reveal_strlit("TLS_AES_256_GCM_SHA384");
    assert("TLS_AES_128_GCM_SHA256"@[8] != "TLS_AES_256_GCM_SHA384"@[8]);
}

/// The security policies of the four pairings of cipher suite and curve are four
/// different policies.
pub proof fn lemma_security_policies_differ(
    cipher_suite: CipherSuite,
    ec_group: ECGroup,
    other_cipher_suite: CipherSuite,
    other_ec_group: ECGroup,
)
    requires
        cipher_suite != other_cipher_suite || ec_group != other_ec_group,
    ensures
        security_policy_name(cipher_suite, ec_group) != security_policy_name(
            other_cipher_suite,
            other_ec_group,
        ),
{
    reveal_strlit("20230317");
    reveal_strlit("20190802");
    reveal_strlit("default_tls13");
    reveal_strlit("20190801");
    assert("20230317"@[3] != "20190802"@[3]);
    assert("20230317"@[3] != "20190801"@[3]);
    assert("20190802"@[7] != "20190801"@[7]);
    assert("default_tls13"@[0] != "20230317"@[0]);
    assert("default_tls13"@[0] != "20190802"@[0]);
    assert("default_tls13"@[0] != "20190801"@[0]);
}

} // verus!
