//! What every backend has to offer so that one driver can measure all of them.

use crate::config::{CipherSuite, CryptoConfig, HandshakeType, Mode};
use crate::error::Error;
use crate::transport::{with_new_link, ConnectedBuffer, Network};
use vstd::prelude::*;

verus! {

/// A TLS connection of some backend, bound to one end of a link of the simulated
/// network.
///
/// What the contracts know of a connection is the end of the link it is bound to,
/// whether its handshake has completed, and the cipher suite and protocol version
/// it negotiated.
///
/// A backend is free in what its operations do. For each operation the trait has a
/// relation, and the operation promises that relation: there a backend says what
/// its operation does, and a backend that says nothing allows every outcome. What
/// the trait itself promises is what the driver relies on: a connection stays bound
/// to its end of the link, it touches no queue of another link, and releasing
/// buffers leaves the session as it was.
pub trait TlsConnection: Sized {
    type Config;

    /// The end of the link the connection is bound to.
    spec fn connected_buffer(&self) -> ConnectedBuffer;

    /// Whether the handshake has completed on this side.
    spec fn completed(&self) -> bool;

    /// The cipher suite this side negotiated, or why it cannot name one.
    spec fn negotiated_cipher_suite(&self) -> Result<CipherSuite, Error>;

    /// Whether this side negotiated TLS 1.3.
    spec fn tls13(&self) -> bool;

    /// `make_config` may answer `r` for these parameters.
    open spec fn config_made(
        mode: Mode,
        crypto_config: CryptoConfig,
        handshake_type: HandshakeType,
        r: Result<Self::Config, Error>,
    ) -> bool {
        true
    }

    /// `new_from_config` may answer `r` for this config and this end of a link.
    open spec fn bound(config: Self::Config, connected_buffer: ConnectedBuffer, r: Result<
        Self,
        Error,
    >) -> bool {
        true
    }

    /// One handshake step may take the connection and the network from `before` to
    /// `after` and answer `r`.
    open spec fn stepped(
        before: Self,
        net_before: Seq<Seq<u8>>,
        after: Self,
        net_after: Seq<Seq<u8>>,
        r: Result<(), Error>,
    ) -> bool {
        true
    }

    /// Sending `data` may take the connection and the network from `before` to
    /// `after` and answer `r`.
    open spec fn sent(
        before: Self,
        net_before: Seq<Seq<u8>>,
        data: Seq<u8>,
        after: Self,
        net_after: Seq<Seq<u8>>,
        r: Result<(), Error>,
    ) -> bool {
        true
    }

    /// Receiving into a destination that held `dest_before` may take the connection
    /// and the network from `before` to `after`, leave `dest_after` in the
    /// destination and answer `r`.
    open spec fn received(
        before: Self,
        net_before: Seq<Seq<u8>>,
        dest_before: Seq<u8>,
        after: Self,
        net_after: Seq<Seq<u8>>,
        dest_after: Seq<u8>,
        r: Result<(), Error>,
    ) -> bool {
        true
    }

    /// Releasing the protocol buffers may take the connection from `before` to
    /// `after`.
    open spec fn released(before: Self, after: Self) -> bool {
        true
    }

    /// Emptying the queues of the connection's link may take the connection and the
    /// network from `before` to `after`.
    open spec fn link_emptied(
        before: Self,
        net_before: Seq<Seq<u8>>,
        after: Self,
        net_after: Seq<Seq<u8>>,
    ) -> bool {
        true
    }

    /// A connection with the default parameters on a link of its own.
    fn default(mode: Mode, net: &mut Network) -> (r: Result<Self, Error>)
        ensures
            final(net)@ == with_new_link(old(net)@),
            exists|connected_buffer: ConnectedBuffer, config: Result<Self::Config, Error>|
                #![trigger
                    connected_buffer.created_on(old(net)@),
                    Self::config_made(
                        mode,
                        default_crypto_config(),
                        HandshakeType::ServerAuth,
                        config,
                    )
                ]
                connected_buffer.created_on(old(net)@) && Self::config_made(
                    mode,
                    default_crypto_config(),
                    HandshakeType::ServerAuth,
                    config,
                ) && (match config {
                    Ok(config) => Self::bound(config, connected_buffer, r),
                    Err(error) => r == Err::<Self, Error>(error),
                }),
            r matches Ok(connection) ==> connection.connected_buffer().created_on(old(net)@)
                && !connection.completed(),
    {
        let connected_buffer = ConnectedBuffer::new(net);
        Self::new(mode, CryptoConfig::default(), HandshakeType::default(), connected_buffer)
    }

    /// Selects the security policy for the requested cipher suite and curve, and
    /// the certificates and keys that the role has to verify and to present.
    fn make_config(
        mode: Mode,
        crypto_config: CryptoConfig,
        handshake_type: HandshakeType,
    ) -> (r: Result<Self::Config, Error>)
        ensures
            Self::config_made(mode, crypto_config, handshake_type, r),
    ;

    /// Binds a new connection to a config and to one end of a link. Nothing is read
    /// or written yet.
    fn new_from_config(config: &Self::Config, connected_buffer: ConnectedBuffer) -> (r: Result<
        Self,
        Error,
    >)
        ensures
            Self::bound(*config, connected_buffer, r),
            r matches Ok(connection) ==> connection.connected_buffer() == connected_buffer
                && !connection.completed(),
    ;

    /// Makes the config, then the connection from it.
    fn new(
        mode: Mode,
        crypto_config: CryptoConfig,
        handshake_type: HandshakeType,
        buffer: ConnectedBuffer,
    ) -> (r: Result<Self, Error>)
        ensures
            exists|config: Result<Self::Config, Error>| #[trigger]
                Self::config_made(mode, crypto_config, handshake_type, config) && (match config {
                    Ok(config) => Self::bound(config, buffer, r),
                    Err(error) => r == Err::<Self, Error>(error),
                }),
            r matches Ok(connection) ==> connection.connected_buffer() == buffer
                && !connection.completed(),
    {
        let made = Self::make_config(mode, crypto_config, handshake_type);
        let ghost answer = made;
        let r = match made {
            Ok(config) => Self::new_from_config(&config, buffer),
            Err(error) => Err(error),
        };
        assert(Self::config_made(mode, crypto_config, handshake_type, answer) && match answer {
            Ok(config) => Self::bound(config, buffer, r),
            Err(error) => r == Err::<Self, Error>(error),
        });
        r
    }

    /// Takes the handshake one step further: one attempt to read, process and write
    /// protocol messages. It returns whether or not there was progress, and never
    /// waits for the peer.
    fn handshake(&mut self, net: &mut Network) -> (r: Result<(), Error>)
        requires
            old(self).connected_buffer().connected_in(old(net)@),
        ensures
            Self::stepped(*old(self), old(net)@, *final(self), final(net)@, r),
            final(self).connected_buffer() == old(self).connected_buffer(),
            old(self).connected_buffer().only_link_changed(old(net)@, final(net)@),
    ;

    fn handshake_completed(&self) -> (b: bool)
        ensures
            b == self.completed(),
    ;

    /// The negotiated cipher suite, as one of the shared enumeration, or
    /// `UnknownCipherSuite` where the backend negotiated something else.
    fn get_negotiated_cipher_suite(&self) -> (r: Result<CipherSuite, Error>)
        ensures
            r == self.negotiated_cipher_suite(),
    ;

    fn negotiated_tls13(&self) -> (b: bool)
        ensures
            b == self.tls13(),
    ;

    /// Encrypts `data` and writes all of it to the link: when this returns, the peer
    /// can read it.
    fn send(&mut self, net: &mut Network, data: &[u8]) -> (r: Result<(), Error>)
        requires
            old(self).connected_buffer().connected_in(old(net)@),
        ensures
            Self::sent(*old(self), old(net)@, data@, *final(self), final(net)@, r),
            final(self).connected_buffer() == old(self).connected_buffer(),
            old(self).connected_buffer().only_link_changed(old(net)@, final(net)@),
    ;

    /// Decrypts as many bytes as `data` is long into `data`.
    fn recv(&mut self, net: &mut Network, data: &mut [u8]) -> (r: Result<(), Error>)
        requires
            old(self).connected_buffer().connected_in(old(net)@),
        ensures
            Self::received(
                *old(self),
                old(net)@,
                old(data)@,
                *final(self),
                final(net)@,
                final(data)@,
                r,
            ),
            final(data)@.len() == old(data)@.len(),
            final(self).connected_buffer() == old(self).connected_buffer(),
            old(self).connected_buffer().only_link_changed(old(net)@, final(net)@),
    ;

    /// Releases the scratch space of the protocol, and keeps the session.
    fn shrink_connection_buffers(&mut self)
        ensures
            Self::released(*old(self), *final(self)),
            final(self).connected_buffer() == old(self).connected_buffer(),
            final(self).completed() == old(self).completed(),
            final(self).negotiated_cipher_suite() == old(self).negotiated_cipher_suite(),
            final(self).tls13() == old(self).tls13(),
    ;

    /// Empties the queues of the link this connection is bound to. The connection
    /// itself stays as it is.
    fn shrink_connected_buffer(&mut self, net: &mut Network)
        requires
            old(self).connected_buffer().connected_in(old(net)@),
        ensures
            Self::link_emptied(*old(self), old(net)@, *final(self), final(net)@),
            final(net)@ == old(self).connected_buffer().after_shrink(old(net)@),
            *final(self) == *old(self),
    ;

    /// The end of the link this connection is bound to.
    fn clone_connected_buffer(&self) -> (connected_buffer: ConnectedBuffer)
        ensures
            connected_buffer == self.connected_buffer(),
    ;
}

/// The parameters a connection gets where none are asked for.
pub open spec fn default_crypto_config() -> CryptoConfig {
    CryptoConfig {
        cipher_suite: CipherSuite::AES_128_GCM_SHA256,
        ec_group: crate::config::ECGroup::X25519,
        sig_type: crate::config::SigType::Ec384,
    }
}

/// `C::new` may answer `r`: either making the config failed and `r` is that
/// error, or `r` is what binding the config to `buffer` answered.
pub open spec fn created<C: TlsConnection>(
    mode: Mode,
    crypto_config: CryptoConfig,
    handshake_type: HandshakeType,
    buffer: ConnectedBuffer,
    r: Result<C, Error>,
) -> bool {
    exists|config: Result<C::Config, Error>| #[trigger]
        C::config_made(mode, crypto_config, handshake_type, config) && match config {
            Ok(config) => C::bound(config, buffer, r),
            Err(error) => r == Err::<C, Error>(error),
        }
}

/// `after` is bound to the same end of the same link as `before` and reports the
/// same completion, cipher suite and protocol version.
pub open spec fn same_session<C: TlsConnection>(before: C, after: C) -> bool {
    &&& after.connected_buffer() == before.connected_buffer()
    &&& after.completed() == before.completed()
    &&& after.negotiated_cipher_suite() == before.negotiated_cipher_suite()
    &&& after.tls13() == before.tls13()
}

} // verus!
