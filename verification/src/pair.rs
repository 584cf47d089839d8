//! A client and a server connection at the two ends of one link, driven together.

use crate::config::{CipherSuite, CryptoConfig, HandshakeType, Mode};
use crate::connection::{created, default_crypto_config, same_session, TlsConnection};
use crate::error::Error;
use crate::transport::{
    lemma_inverse_connected, lemma_inverse_is_involution, lemma_inverse_swaps_queues,
    lemma_same_queues, lemma_shrink_is_idempotent, with_new_link, ConnectedBuffer, Network,
};
use vstd::prelude::*;

verus! {

/// A client and a server connection whose ends are the two ends of one link: what
/// the client writes the server reads, and the other way round.
pub struct TlsConnPair<C: TlsConnection, S: TlsConnection> {
    client: C,
    server: S,
}

/// Whether `client` and `server` are bound to the two ends of one link.
pub open spec fn paired<C: TlsConnection, S: TlsConnection>(client: C, server: S) -> bool {
    client.connected_buffer() == server.connected_buffer().inverted()
}

/// One round of the handshake: a step of the client, and then, unless that failed,
/// a step of the server. `r` is the first failure, or what the server's step
/// answered.
pub open spec fn round_run<C: TlsConnection, S: TlsConnection>(
    client_before: C,
    server_before: S,
    net_before: Seq<Seq<u8>>,
    client_after: C,
    server_after: S,
    net_after: Seq<Seq<u8>>,
    r: Result<(), Error>,
) -> bool {
    exists|net_between: Seq<Seq<u8>>, client_answer: Result<(), Error>| #[trigger]
        C::stepped(client_before, net_before, client_after, net_between, client_answer)
            && match client_answer {
            Ok(_) => S::stepped(server_before, net_between, server_after, net_after, r),
            Err(_) => server_after == server_before && net_after == net_between && r
                == client_answer,
        }
}

/// The whole handshake: one round, and then, unless that failed, a second one. `r`
/// is the first failure, or what the second round answered.
pub open spec fn handshake_run<C: TlsConnection, S: TlsConnection>(
    client_before: C,
    server_before: S,
    net_before: Seq<Seq<u8>>,
    client_after: C,
    server_after: S,
    net_after: Seq<Seq<u8>>,
    r: Result<(), Error>,
) -> bool {
    exists|
        client_between: C,
        server_between: S,
        net_between: Seq<Seq<u8>>,
        first: Result<(), Error>,
    | #[trigger]
        round_run(
            client_before,
            server_before,
            net_before,
            client_between,
            server_between,
            net_between,
            first,
        ) && match first {
            Ok(_) => round_run(
                client_between,
                server_between,
                net_between,
                client_after,
                server_after,
                net_after,
                r,
            ),
            Err(_) => client_after == client_between && server_after == server_between
                && net_after == net_between && r == first,
        }
}

/// One transfer from the client to the server: the client sends `data_before`, and
/// then, unless that failed, the server receives into the same buffer.
pub open spec fn client_to_server_run<C: TlsConnection, S: TlsConnection>(
    client_before: C,
    server_before: S,
    net_before: Seq<Seq<u8>>,
    data_before: Seq<u8>,
    client_after: C,
    server_after: S,
    net_after: Seq<Seq<u8>>,
    data_after: Seq<u8>,
    r: Result<(), Error>,
) -> bool {
    exists|net_between: Seq<Seq<u8>>, send_answer: Result<(), Error>| #[trigger]
        C::sent(client_before, net_before, data_before, client_after, net_between, send_answer)
            && match send_answer {
            Ok(_) => S::received(
                server_before,
                net_between,
                data_before,
                server_after,
                net_after,
                data_after,
                r,
            ),
            Err(_) => server_after == server_before && net_after == net_between && data_after
                == data_before && r == send_answer,
        }
}

/// One transfer from the server to the client: the server sends `data_before`, and
/// then, unless that failed, the client receives into the same buffer.
pub open spec fn server_to_client_run<C: TlsConnection, S: TlsConnection>(
    client_before: C,
    server_before: S,
    net_before: Seq<Seq<u8>>,
    data_before: Seq<u8>,
    client_after: C,
    server_after: S,
    net_after: Seq<Seq<u8>>,
    data_after: Seq<u8>,
    r: Result<(), Error>,
) -> bool {
    exists|net_between: Seq<Seq<u8>>, send_answer: Result<(), Error>| #[trigger]
        S::sent(server_before, net_before, data_before, server_after, net_between, send_answer)
            && match send_answer {
            Ok(_) => C::received(
                client_before,
                net_between,
                data_before,
                client_after,
                net_after,
                data_after,
                r,
            ),
            Err(_) => client_after == client_before && net_after == net_between && data_after
                == data_before && r == send_answer,
        }
}

/// One transfer from `sender`'s side to the other side.
pub open spec fn transfer_run<C: TlsConnection, S: TlsConnection>(
    sender: Mode,
    client_before: C,
    server_before: S,
    net_before: Seq<Seq<u8>>,
    data_before: Seq<u8>,
    client_after: C,
    server_after: S,
    net_after: Seq<Seq<u8>>,
    data_after: Seq<u8>,
    r: Result<(), Error>,
) -> bool {
    match sender {
        Mode::Client => client_to_server_run(
            client_before,
            server_before,
            net_before,
            data_before,
            client_after,
            server_after,
            net_after,
            data_after,
            r,
        ),
        Mode::Server => server_to_client_run(
            client_before,
            server_before,
            net_before,
            data_before,
            client_after,
            server_after,
            net_after,
            data_after,
            r,
        ),
    }
}

/// The echo: a transfer from the client to the server, and then, unless that
/// failed, a transfer of what the server received back to the client. `r` is the
/// first failure, or what the way back answered.
pub open spec fn round_trip_run<C: TlsConnection, S: TlsConnection>(
    client_before: C,
    server_before: S,
    net_before: Seq<Seq<u8>>,
    data_before: Seq<u8>,
    client_after: C,
    server_after: S,
    net_after: Seq<Seq<u8>>,
    data_after: Seq<u8>,
    r: Result<(), Error>,
) -> bool {
    exists|
        client_between: C,
        server_between: S,
        net_between: Seq<Seq<u8>>,
        data_between: Seq<u8>,
        there: Result<(), Error>,
    | #[trigger]
        client_to_server_run(
            client_before,
            server_before,
            net_before,
            data_before,
            client_between,
            server_between,
            net_between,
            data_between,
            there,
        ) && match there {
            Ok(_) => server_to_client_run(
                client_between,
                server_between,
                net_between,
                data_between,
                client_after,
                server_after,
                net_after,
                data_after,
                r,
            ),
            Err(_) => client_after == client_between && server_after == server_between
                && net_after == net_between && data_after == data_between && r == there,
        }
}

/// The queues of a pair's link are emptied from both ends: first by the client,
/// then by the server, each as it is when its turn comes.
pub open spec fn links_emptied_run<C: TlsConnection, S: TlsConnection>(
    client_before: C,
    server_before: S,
    net_before: Seq<Seq<u8>>,
    client_after: C,
    server_after: S,
    net_after: Seq<Seq<u8>>,
) -> bool {
    exists|net_between: Seq<Seq<u8>>| #[trigger]
        C::link_emptied(client_before, net_before, client_after, net_between)
            && S::link_emptied(server_before, net_between, server_after, net_after)
}

/// `TlsConnPair::new` may answer `r`: the client is created at the other end of
/// `connected_buffer`, and then, unless that failed, the server at
/// `connected_buffer` itself. `r` is the first failure, or the pair of the two.
pub open spec fn pair_created<C: TlsConnection, S: TlsConnection>(
    crypto_config: CryptoConfig,
    handshake_type: HandshakeType,
    connected_buffer: ConnectedBuffer,
    r: Result<TlsConnPair<C, S>, Error>,
) -> bool {
    exists|client: Result<C, Error>| #[trigger]
        created::<C>(
            Mode::Client,
            crypto_config,
            handshake_type,
            connected_buffer.inverted(),
            client,
        ) && match client {
            Ok(client) => exists|server: Result<S, Error>| #[trigger]
                created::<S>(Mode::Server, crypto_config, handshake_type, connected_buffer, server)
                    && match server {
                    Ok(server) => (r matches Ok(pair) && pair.client() == client
                        && pair.server() == server),
                    Err(error) => (r matches Err(e) && e == error),
                },
            Err(error) => (r matches Err(e) && e == error),
        }
}

/// Pairing can be read from either side: the client sits at the other end of
/// the server's end exactly when the server sits at the other end of the client's.
pub proof fn lemma_paired_both_ways<C: TlsConnection, S: TlsConnection>(client: C, server: S)
    ensures
        paired(client, server) <==> server.connected_buffer()
            == client.connected_buffer().inverted(),
{
    lemma_inverse_is_involution(client.connected_buffer());
    lemma_inverse_is_involution(server.connected_buffer());
}

/// Two connections that are bound to links opened one after the other are no
/// pair, whichever end of its link each of them holds.
pub proof fn lemma_separate_links_make_no_pair<C: TlsConnection, S: TlsConnection>(
    client: C,
    server: S,
    net_first: Seq<Seq<u8>>,
    net_second: Seq<Seq<u8>>,
)
    requires
        client.connected_buffer().created_on(net_first)
            || client.connected_buffer().inverted().created_on(net_first),
        server.connected_buffer().created_on(net_second)
            || server.connected_buffer().inverted().created_on(net_second),
        net_first.len() + 2 <= net_second.len() || net_second.len() + 2 <= net_first.len(),
    ensures
        !paired(client, server),
{
    let c = client.connected_buffer();
    let s = server.connected_buffer();
    lemma_inverse_swaps_queues(c);
    lemma_inverse_swaps_queues(s);
    lemma_same_queues(c, s.inverted());
}

/// Whatever `Receiver` receives right after `Sender` sent is what `Sender` sent, where both
/// went well.
pub open spec fn delivers<Sender: TlsConnection, Receiver: TlsConnection>() -> bool {
    forall|
        from_before: Sender,
        net_before: Seq<Seq<u8>>,
        data: Seq<u8>,
        from_after: Sender,
        net_between: Seq<Seq<u8>>,
        send_answer: Result<(), Error>,
        to_before: Receiver,
        to_after: Receiver,
        net_after: Seq<Seq<u8>>,
        received: Seq<u8>,
        recv_answer: Result<(), Error>,
    |
        #![trigger
            Sender::sent(from_before, net_before, data, from_after, net_between, send_answer),
            Receiver::received(
                to_before,
                net_between,
                data,
                to_after,
                net_after,
                received,
                recv_answer,
            )
        ]
        Sender::sent(from_before, net_before, data, from_after, net_between, send_answer)
            && send_answer is Ok && Receiver::received(
            to_before,
            net_between,
            data,
            to_after,
            net_after,
            received,
            recv_answer,
        ) && recv_answer is Ok ==> received == data
}

/// The echo returns what was sent, wherever each direction delivers what was
/// sent: after a round trip that went well the buffer holds what it held before.
pub proof fn lemma_round_trip_returns_data<C: TlsConnection, S: TlsConnection>(
    client_before: C,
    server_before: S,
    net_before: Seq<Seq<u8>>,
    data_before: Seq<u8>,
    client_after: C,
    server_after: S,
    net_after: Seq<Seq<u8>>,
    data_after: Seq<u8>,
)
    requires
        round_trip_run(
            client_before,
            server_before,
            net_before,
            data_before,
            client_after,
            server_after,
            net_after,
            data_after,
            Ok(()),
        ),
        delivers::<C, S>(),
        delivers::<S, C>(),
    ensures
        data_after == data_before,
{
}

/// One teardown of a pair: the protocol buffers of both sides are released, and
/// after that the queues of the link are emptied from both ends: what
/// `shrink_connection_buffers` followed by `shrink_connected_buffers` does.
pub open spec fn teardown_run<C: TlsConnection, S: TlsConnection>(
    client_before: C,
    server_before: S,
    net_before: Seq<Seq<u8>>,
    client_after: C,
    server_after: S,
    net_after: Seq<Seq<u8>>,
) -> bool {
    &&& C::released(client_before, client_after)
    &&& S::released(server_before, server_after)
    &&& same_session(client_before, client_after)
    &&& same_session(server_before, server_after)
    &&& links_emptied_run(
        client_after,
        server_after,
        net_before,
        client_after,
        server_after,
        net_after,
    )
    &&& net_after == server_after.connected_buffer().after_shrink(net_before)
}

/// `times` teardowns of a pair, one after the other.
pub open spec fn teardowns_run<C: TlsConnection, S: TlsConnection>(
    times: nat,
    client_before: C,
    server_before: S,
    net_before: Seq<Seq<u8>>,
    client_after: C,
    server_after: S,
    net_after: Seq<Seq<u8>>,
) -> bool
    decreases times,
{
    if times == 0 {
        client_after == client_before && server_after == server_before && net_after
            == net_before
    } else {
        exists|client_between: C, server_between: S, net_between: Seq<Seq<u8>>|
            teardowns_run(
                (times - 1) as nat,
                client_before,
                server_before,
                net_before,
                client_between,
                server_between,
                net_between,
            ) && #[trigger] teardown_run(
                client_between,
                server_between,
                net_between,
                client_after,
                server_after,
                net_after,
            )
    }
}

/// Tearing a pair down again and again is as tearing it down once, as far as the
/// sessions and the link go: both sides are bound as before and report the same
/// completion, cipher suite and protocol version, the pair is still a pair on a
/// link of the network, no queue of another link has changed, and the link is as
/// empty as after the first teardown.
pub proof fn lemma_teardowns_keep_the_pair<C: TlsConnection, S: TlsConnection>(
    times: nat,
    client_before: C,
    server_before: S,
    net_before: Seq<Seq<u8>>,
    client_after: C,
    server_after: S,
    net_after: Seq<Seq<u8>>,
)
    requires
        paired(client_before, server_before),
        server_before.connected_buffer().connected_in(net_before),
        teardowns_run(
            times,
            client_before,
            server_before,
            net_before,
            client_after,
            server_after,
            net_after,
        ),
    ensures
        same_session(client_before, client_after),
        same_session(server_before, server_after),
        paired(client_after, server_after),
        server_after.connected_buffer().connected_in(net_after),
        server_before.connected_buffer().only_link_changed(net_before, net_after),
        times >= 1 ==> net_after == server_before.connected_buffer().after_shrink(net_before),
    decreases times,
{
    if times > 0 {
        let (client_between, server_between, net_between) = choose|
            client_between: C,
            server_between: S,
            net_between: Seq<Seq<u8>>,
        |
            teardowns_run(
                (times - 1) as nat,
                client_before,
                server_before,
                net_before,
                client_between,
                server_between,
                net_between,
            ) && #[trigger] teardown_run(
                client_between,
                server_between,
                net_between,
                client_after,
                server_after,
                net_after,
            );
        lemma_teardowns_keep_the_pair(
            (times - 1) as nat,
            client_before,
            server_before,
            net_before,
            client_between,
            server_between,
            net_between,
        );
        lemma_shrink_is_idempotent(server_before.connected_buffer(), net_before);
        lemma_shrink_is_idempotent(server_before.connected_buffer(), net_between);
    }
}

/// However often a pair was torn down before, an echo that goes well returns what
/// was sent, wherever each direction delivers what was sent.
pub proof fn lemma_round_trip_after_teardowns_returns_data<C: TlsConnection, S: TlsConnection>(
    times: nat,
    client_before: C,
    server_before: S,
    net_before: Seq<Seq<u8>>,
    client_torn_down: C,
    server_torn_down: S,
    net_torn_down: Seq<Seq<u8>>,
    data_before: Seq<u8>,
    client_after: C,
    server_after: S,
    net_after: Seq<Seq<u8>>,
    data_after: Seq<u8>,
)
    requires
        teardowns_run(
            times,
            client_before,
            server_before,
            net_before,
            client_torn_down,
            server_torn_down,
            net_torn_down,
        ),
        round_trip_run(
            client_torn_down,
            server_torn_down,
            net_torn_down,
            data_before,
            client_after,
            server_after,
            net_after,
            data_after,
            Ok(()),
        ),
        delivers::<C, S>(),
        delivers::<S, C>(),
    ensures
        data_after == data_before,
{
    lemma_round_trip_returns_data(
        client_torn_down,
        server_torn_down,
        net_torn_down,
        data_before,
        client_after,
        server_after,
        net_after,
        data_after,
    );
}

impl<C: TlsConnection, S: TlsConnection> TlsConnPair<C, S> {
    /// The client connection.
    pub closed spec fn client(&self) -> C {
        self.client
    }

    /// The server connection.
    pub closed spec fn server(&self) -> S {
        self.server
    }

    /// The two connections sit at the two ends of one link. Every pair that this
    /// library hands out is paired, and every operation keeps it so.
    pub open spec fn is_paired(&self) -> bool {
        paired(self.client(), self.server())
    }

    /// The pair is paired, and its link is a link of `net`.
    pub open spec fn connected_in(&self, net: Seq<Seq<u8>>) -> bool {
        &&& self.is_paired()
        &&& self.server().connected_buffer().connected_in(net)
    }

    /// Whether both sides have completed the handshake.
    pub open spec fn completed(&self) -> bool {
        self.client().completed() && self.server().completed()
    }

    /// The cipher suite that both sides report after a completed handshake, if they
    /// report one and the same.
    pub open spec fn agreed_cipher_suite(&self) -> Option<CipherSuite> {
        if self.completed() && self.client().negotiated_cipher_suite() is Ok
            && self.client().negotiated_cipher_suite() == self.server().negotiated_cipher_suite() {
            Some(self.client().negotiated_cipher_suite()->Ok_0)
        } else {
            None
        }
    }

    /// Whether TLS 1.3 was negotiated, if both sides report the same.
    pub open spec fn agreed_tls13(&self) -> Option<bool> {
        if self.client().tls13() == self.server().tls13() {
            Some(self.client().tls13())
        } else {
            None
        }
    }

    /// Makes a pair of two connections if they sit at the two ends of one link, and
    /// answers `None` if they do not.
    pub fn try_wrap(client: C, server: S) -> (r: Option<Self>)
        ensures
            paired(client, server) ==> (r matches Some(pair) && pair.client() == client
                && pair.server() == server),
            !paired(client, server) ==> r is None,
    {
        if client.clone_connected_buffer() == server.clone_connected_buffer().inverse() {
            Some(Self { client, server })
        } else {
            None
        }
    }

    /// Makes a pair of two connections that sit at the two ends of one link. Two
    /// that do not are a defect of the caller, and no pair is made of them.
    pub fn wrap(client: C, server: S) -> (pair: Self)
        requires
            paired(client, server),
        ensures
            pair.client() == client,
            pair.server() == server,
            pair.is_paired(),
    {
        if client.clone_connected_buffer() != server.clone_connected_buffer().inverse() {
            vstd::pervasive::unreached()
        } else {
            Self { client, server }
        }
    }

    /// Takes the pair apart.
    pub fn unwrap(self) -> (r: (C, S))
        ensures
            r.0 == self.client(),
            r.1 == self.server(),
    {
        (self.client, self.server)
    }

    /// Creates the client at the other end of `connected_buffer` and the server at
    /// `connected_buffer` itself, with the same parameters for both.
    pub fn new(
        crypto_config: CryptoConfig,
        handshake_type: HandshakeType,
        connected_buffer: ConnectedBuffer,
    ) -> (r: Result<Self, Error>)
        ensures
            pair_created(crypto_config, handshake_type, connected_buffer, r),
            r matches Ok(pair) ==> pair.is_paired() && pair.server().connected_buffer()
                == connected_buffer && !pair.client().completed() && !pair.server().completed(),
    {
        let peer = connected_buffer.inverse();
        let client = C::new(Mode::Client, crypto_config, handshake_type, peer);
        let ghost client_answer = client;
        let r = match client {
            Ok(client) => {
                let server = S::new(Mode::Server, crypto_config, handshake_type, connected_buffer);
                let ghost server_answer = server;
                let r = match server {
                    Ok(server) => Ok(Self { client, server }),
                    Err(error) => Err(error),
                };
                assert(created::<S>(
                    Mode::Server,
                    crypto_config,
                    handshake_type,
                    connected_buffer,
                    server_answer,
                ) && match server_answer {
                    Ok(server) => (r matches Ok(pair) && pair.client() == client
                        && pair.server() == server),
                    Err(error) => (r matches Err(e) && e == error),
                });
                r
            },
            Err(error) => Err(error),
        };
        assert(created::<C>(
            Mode::Client,
            crypto_config,
            handshake_type,
            connected_buffer.inverted(),
            client_answer,
        ));
        r
    }

    /// A pair with the default parameters on a link of its own.
    pub fn default(net: &mut Network) -> (r: Result<Self, Error>)
        ensures
            final(net)@ == with_new_link(old(net)@),
            exists|connected_buffer: ConnectedBuffer| #[trigger]
                connected_buffer.created_on(old(net)@) && pair_created(
                    default_crypto_config(),
                    HandshakeType::ServerAuth,
                    connected_buffer,
                    r,
                ),
            r matches Ok(pair) ==> pair.server().connected_buffer().created_on(old(net)@)
                && pair.connected_in(final(net)@) && !pair.client().completed()
                && !pair.server().completed(),
    {
        let connected_buffer = ConnectedBuffer::new(net);
        Self::new(CryptoConfig::default(), HandshakeType::default(), connected_buffer)
    }

    /// One step of the client, then one of the server.
    fn round(&mut self, net: &mut Network) -> (r: Result<(), Error>)
        requires
            old(self).connected_in(old(net)@),
        ensures
            round_run(
                old(self).client(),
                old(self).server(),
                old(net)@,
                final(self).client(),
                final(self).server(),
                final(net)@,
                r,
            ),
            final(self).client().connected_buffer() == old(self).client().connected_buffer(),
            final(self).server().connected_buffer() == old(self).server().connected_buffer(),
            old(self).server().connected_buffer().only_link_changed(old(net)@, final(net)@),
    {
        proof {
            lemma_inverse_connected(self.server.connected_buffer(), net@);
            lemma_inverse_swaps_queues(self.server.connected_buffer());
        }
        let client_answer = self.client.handshake(net);
        let ghost net_between = net@;
        let r = match client_answer {
            Ok(_) => self.server.handshake(net),
            Err(error) => Err(error),
        };
        assert(C::stepped(
            old(self).client(),
            old(net)@,
            self.client(),
            net_between,
            client_answer,
        ));
        r
    }

    /// Runs the handshake: two rounds, in each of which the client takes one step
    /// and then the server one. The first step that fails ends it, and
    /// its error is the answer. Whether the handshake has completed by then is what
    /// `handshake_completed` tells.
    pub fn handshake(&mut self, net: &mut Network) -> (r: Result<(), Error>)
        requires
            old(self).connected_in(old(net)@),
        ensures
            handshake_run(
                old(self).client(),
                old(self).server(),
                old(net)@,
                final(self).client(),
                final(self).server(),
                final(net)@,
                r,
            ),
            final(self).client().connected_buffer() == old(self).client().connected_buffer(),
            final(self).server().connected_buffer() == old(self).server().connected_buffer(),
            old(self).server().connected_buffer().only_link_changed(old(net)@, final(net)@),
            final(self).connected_in(final(net)@),
    {
        let first = self.round(net);
        let ghost client_between = self.client();
        let ghost server_between = self.server();
        let ghost net_between = net@;
        let r = match first {
            Ok(_) => self.round(net),
            Err(error) => Err(error),
        };
        assert(round_run(
            old(self).client(),
            old(self).server(),
            old(net)@,
            client_between,
            server_between,
            net_between,
            first,
        ));
        r
    }

    /// Whether both sides have completed the handshake.
    pub fn handshake_completed(&self) -> (b: bool)
        ensures
            b == self.completed(),
    {
        self.client.handshake_completed() && self.server.handshake_completed()
    }

    /// The cipher suite both sides negotiated, if the handshake has completed and
    /// both sides report one and the same suite, and `None` otherwise.
    pub fn try_get_negotiated_cipher_suite(&self) -> (r: Option<CipherSuite>)
        ensures
            r == self.agreed_cipher_suite(),
    {
        if !self.handshake_completed() {
            return None;
        }
        let client = self.client.get_negotiated_cipher_suite();
        let server = self.server.get_negotiated_cipher_suite();
        match (client, server) {
            (Ok(client), Ok(server)) => if client == server {
                Some(client)
            } else {
                None
            },
            _ => None,
        }
    }

    /// The cipher suite both sides negotiated. It is for a pair whose handshake has
    /// completed and whose sides agree.
    pub fn get_negotiated_cipher_suite(&self) -> (cipher_suite: CipherSuite)
        requires
            self.agreed_cipher_suite() is Some,
        ensures
            self.agreed_cipher_suite() == Some(cipher_suite),
    {
        match self.try_get_negotiated_cipher_suite() {
            Some(cipher_suite) => cipher_suite,
            None => vstd::pervasive::unreached(),
        }
    }

    /// Whether TLS 1.3 was negotiated, if both sides report the same, and `None`
    /// otherwise.
    pub fn try_negotiated_tls13(&self) -> (r: Option<bool>)
        ensures
            r == self.agreed_tls13(),
    {
        let client = self.client.negotiated_tls13();
        let server = self.server.negotiated_tls13();
        if client == server {
            Some(client)
        } else {
            None
        }
    }

    /// Whether TLS 1.3 was negotiated. It is for a pair whose sides agree.
    pub fn negotiated_tls13(&self) -> (b: bool)
        requires
            self.agreed_tls13() is Some,
        ensures
            self.agreed_tls13() == Some(b),
    {
        match self.try_negotiated_tls13() {
            Some(tls13) => tls13,
            None => vstd::pervasive::unreached(),
        }
    }

    /// Sends `data` from `sender`'s side and receives it into `data` on the other
    /// side. A failure of the sending ends the transfer.
    pub fn transfer(&mut self, net: &mut Network, sender: Mode, data: &mut [u8]) -> (r: Result<
        (),
        Error,
    >)
        requires
            old(self).connected_in(old(net)@),
        ensures
            transfer_run(
                sender,
                old(self).client(),
                old(self).server(),
                old(net)@,
                old(data)@,
                final(self).client(),
                final(self).server(),
                final(net)@,
                final(data)@,
                r,
            ),
            final(data)@.len() == old(data)@.len(),
            final(self).client().connected_buffer() == old(self).client().connected_buffer(),
            final(self).server().connected_buffer() == old(self).server().connected_buffer(),
            old(self).server().connected_buffer().only_link_changed(old(net)@, final(net)@),
            final(self).connected_in(final(net)@),
    {
        proof {
            lemma_inverse_connected(self.server.connected_buffer(), net@);
            lemma_inverse_swaps_queues(self.server.connected_buffer());
        }
        match sender {
            Mode::Client => {
                let send_answer = self.client.send(net, data);
                let ghost net_between = net@;
                let r = match send_answer {
                    Ok(_) => self.server.recv(net, data),
                    Err(error) => Err(error),
                };
                assert(C::sent(
                    old(self).client(),
                    old(net)@,
                    old(data)@,
                    self.client(),
                    net_between,
                    send_answer,
                ));
                r
            },
            Mode::Server => {
                let send_answer = self.server.send(net, data);
                let ghost net_between = net@;
                let r = match send_answer {
                    Ok(_) => self.client.recv(net, data),
                    Err(error) => Err(error),
                };
                assert(S::sent(
                    old(self).server(),
                    old(net)@,
                    old(data)@,
                    self.server(),
                    net_between,
                    send_answer,
                ));
                r
            },
        }
    }

    /// Sends `data` from the client to the server, which receives it into `data`,
    /// and then from the server back to the client, which receives it into `data`
    /// again. The first leg that fails ends the transfer, and its error is the answer.
    pub fn round_trip_transfer(&mut self, net: &mut Network, data: &mut [u8]) -> (r: Result<
        (),
        Error,
    >)
        requires
            old(self).connected_in(old(net)@),
        ensures
            round_trip_run(
                old(self).client(),
                old(self).server(),
                old(net)@,
                old(data)@,
                final(self).client(),
                final(self).server(),
                final(net)@,
                final(data)@,
                r,
            ),
            final(data)@.len() == old(data)@.len(),
            final(self).client().connected_buffer() == old(self).client().connected_buffer(),
            final(self).server().connected_buffer() == old(self).server().connected_buffer(),
            old(self).server().connected_buffer().only_link_changed(old(net)@, final(net)@),
            final(self).connected_in(final(net)@),
    {
        let there = self.transfer(net, Mode::Client, data);
        let ghost client_between = self.client();
        let ghost server_between = self.server();
        let ghost net_between = net@;
        let ghost data_between = data@;
        let r = match there {
            Ok(_) => self.transfer(net, Mode::Server, data),
            Err(error) => Err(error),
        };
        assert(client_to_server_run(
            old(self).client(),
            old(self).server(),
            old(net)@,
            old(data)@,
            client_between,
            server_between,
            net_between,
            data_between,
            there,
        ));
        r
    }

    /// Releases the protocol buffers of both connections, and keeps both sessions.
    pub fn shrink_connection_buffers(&mut self)
        ensures
            final(self).is_paired() == old(self).is_paired(),
            C::released(old(self).client(), final(self).client()),
            S::released(old(self).server(), final(self).server()),
            same_session(old(self).client(), final(self).client()),
            same_session(old(self).server(), final(self).server()),
    {
        self.client.shrink_connection_buffers();
        self.server.shrink_connection_buffers();
    }

    /// Empties the queues of the pair's link, from the client's end and from the
    /// server's.
    pub fn shrink_connected_buffers(&mut self, net: &mut Network)
        requires
            old(self).connected_in(old(net)@),
        ensures
            links_emptied_run(
                old(self).client(),
                old(self).server(),
                old(net)@,
                final(self).client(),
                final(self).server(),
                final(net)@,
            ),
            final(net)@ == old(self).server().connected_buffer().after_shrink(old(net)@),
            final(self).client() == old(self).client(),
            final(self).server() == old(self).server(),
            final(self).connected_in(final(net)@),
    {
        proof {
            lemma_inverse_connected(self.server.connected_buffer(), net@);
            lemma_shrink_is_idempotent(self.server.connected_buffer(), net@);
        }
        self.client.shrink_connected_buffer(net);
        let ghost net_between = net@;
        self.server.shrink_connected_buffer(net);
        assert(C::link_emptied(
            old(self).client(),
            old(net)@,
            self.client(),
            net_between,
        ));
    }
}

} // verus!
