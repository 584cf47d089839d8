//! What the adapter of the polled, callback-driven backend decides.

use bench::s2n_tls::{
    security_policy, ClientAuthType, FlushStatus, HostNameHandler, NegotiateStatus, Progress,
    TransferStatus,
    Version,
};
use bench::{
    CipherSuite, ConnectedBuffer, CryptoConfig, ECGroup, Error, HandshakeType, Mode, Network,
    PemType, S2NConnection, SigType,
};

#[test]
fn security_policy_of_each_pairing() {
    let aes_128 = CipherSuite::AES_128_GCM_SHA256;
    let aes_256 = CipherSuite::AES_256_GCM_SHA384;
    assert_eq!(security_policy(aes_128, ECGroup::SECP256R1), "20230317");
    assert_eq!(security_policy(aes_256, ECGroup::SECP256R1), "20190802");
    assert_eq!(security_policy(aes_128, ECGroup::X25519), "default_tls13");
    assert_eq!(security_policy(aes_256, ECGroup::X25519), "20190801");
}

#[test]
fn config_of_a_server_that_alone_authenticates() {
    let crypto_config =
        CryptoConfig::new(CipherSuite::AES_256_GCM_SHA384, ECGroup::X25519, SigType::Rsa2048);
    let config =
        S2NConnection::make_config(Mode::Server, crypto_config, HandshakeType::ServerAuth).unwrap();
    assert_eq!(config.mode, Mode::Server);
    assert_eq!(config.security_policy, "20190801");
    assert_eq!(config.client_auth_type, ClientAuthType::NotRequested);
    assert_eq!(config.sig_type, SigType::Rsa2048);
    assert_eq!(config.trusted_ca, None);
    assert!(config.verify_host.is_none());
    assert_eq!(config.cert_chain_and_key, Some((PemType::ServerCertChain, PemType::ServerKey)));
}

#[test]
fn config_of_a_client_that_only_verifies() {
    let config = S2NConnection::make_config(
        Mode::Client,
        CryptoConfig::default(),
        HandshakeType::ServerAuth,
    )
    .unwrap();
    assert_eq!(config.mode, Mode::Client);
    assert_eq!(config.security_policy, "default_tls13");
    assert_eq!(config.client_auth_type, ClientAuthType::NotRequested);
    assert_eq!(config.sig_type, SigType::Ec384);
    assert_eq!(config.trusted_ca, Some(PemType::CACert));
    assert_eq!(config.verify_host.unwrap().expected_server_name, "localhost");
    assert_eq!(config.cert_chain_and_key, None);
}

#[test]
fn config_of_both_roles_with_mutual_authentication() {
    let crypto_config =
        CryptoConfig::new(CipherSuite::AES_128_GCM_SHA256, ECGroup::SECP256R1, SigType::Rsa4096);
    let client =
        S2NConnection::make_config(Mode::Client, crypto_config, HandshakeType::MutualAuth).unwrap();
    let server =
        S2NConnection::make_config(Mode::Server, crypto_config, HandshakeType::MutualAuth).unwrap();
    for config in [client, server] {
        assert_eq!(config.security_policy, "20230317");
        assert_eq!(config.client_auth_type, ClientAuthType::Required);
        assert_eq!(config.sig_type, SigType::Rsa4096);
        assert_eq!(config.trusted_ca, Some(PemType::CACert));
        assert_eq!(config.verify_host.unwrap().expected_server_name, "localhost");
    }
    assert_eq!(client.cert_chain_and_key, Some((PemType::ClientCertChain, PemType::ClientKey)));
    assert_eq!(server.cert_chain_and_key, Some((PemType::ServerCertChain, PemType::ServerKey)));
}

#[test]
fn every_combination_of_parameters_has_a_config() {
    for mode in [Mode::Client, Mode::Server] {
        for handshake_type in [HandshakeType::ServerAuth, HandshakeType::MutualAuth] {
            for cipher_suite in [CipherSuite::AES_128_GCM_SHA256, CipherSuite::AES_256_GCM_SHA384] {
                for ec_group in [ECGroup::SECP256R1, ECGroup::X25519] {
                    for sig_type in [SigType::Rsa2048, SigType::Rsa4096, SigType::Ec384] {
                        let crypto_config = CryptoConfig::new(cipher_suite, ec_group, sig_type);
                        let config =
                            S2NConnection::make_config(mode, crypto_config, handshake_type)
                                .unwrap();
                        assert_eq!(config.security_policy, security_policy(cipher_suite, ec_group));
                        assert_eq!(config.sig_type, sig_type);
                    }
                }
            }
        }
    }
}

#[test]
fn config_that_the_engine_does_not_know_is_unsupported() {
    let config = S2NConnection::make_config(
        Mode::Client,
        CryptoConfig::default(),
        HandshakeType::ServerAuth,
    )
    .unwrap();
    let accepted = S2NConnection::config_accepted(config, true).unwrap();
    assert_eq!(accepted.security_policy, "default_tls13");
    assert_eq!(
        S2NConnection::config_accepted(config, false).unwrap_err(),
        Error::UnsupportedParameterCombination
    );
}

#[test]
fn engine_that_cannot_be_bound_has_failed() {
    let mut net = Network::new();
    let buffer = ConnectedBuffer::new(&mut net);
    let bound = connection(&mut net).engine_bound(true).unwrap();
    assert_eq!(bound.mode(), Mode::Client);
    assert!(!bound.handshake_completed());
    assert_ne!(bound.clone_connected_buffer(), buffer);
    assert_eq!(connection(&mut net).engine_bound(false).err(), Some(Error::EngineFailed));
}

#[test]
fn host_name_is_compared_letter_for_letter() {
    let handler = HostNameHandler { expected_server_name: "localhost" };
    assert!(handler.verify_host_name("localhost"));
    assert!(!handler.verify_host_name("Localhost"));
    assert!(!handler.verify_host_name("localhost."));
    assert!(!handler.verify_host_name("localhos"));
    assert!(!handler.verify_host_name(""));
}

fn connection(net: &mut Network) -> S2NConnection {
    let config = S2NConnection::make_config(
        Mode::Client,
        CryptoConfig::default(),
        HandshakeType::ServerAuth,
    )
    .unwrap();
    S2NConnection::new_from_config(&config, ConnectedBuffer::new(net)).unwrap()
}

#[test]
fn new_connection_is_bound_and_not_completed() {
    let mut net = Network::new();
    let buffer = ConnectedBuffer::new(&mut net);
    let config = S2NConnection::make_config(
        Mode::Server,
        CryptoConfig::default(),
        HandshakeType::ServerAuth,
    )
    .unwrap();
    let connection = S2NConnection::new_from_config(&config, buffer).unwrap();
    assert_eq!(connection.mode(), Mode::Server);
    assert!(!connection.handshake_completed());
    assert_eq!(connection.clone_connected_buffer(), buffer);
}

#[test]
fn handshake_step_follows_the_engine() {
    let mut net = Network::new();
    let mut connection = connection(&mut net);
    let buffer = connection.clone_connected_buffer();
    assert_eq!(connection.handshake(NegotiateStatus::InProgress), Ok(()));
    assert!(!connection.handshake_completed());
    assert_eq!(connection.handshake(NegotiateStatus::Failed), Err(Error::HandshakeFailed));
    assert!(!connection.handshake_completed());
    assert_eq!(connection.handshake(NegotiateStatus::Complete), Ok(()));
    assert!(connection.handshake_completed());
    assert_eq!(connection.handshake(NegotiateStatus::Failed), Err(Error::HandshakeFailed));
    assert!(connection.handshake_completed());
    assert_eq!(connection.handshake(NegotiateStatus::InProgress), Ok(()));
    assert!(!connection.handshake_completed());
    assert_eq!(connection.clone_connected_buffer(), buffer);
}

#[test]
fn cipher_suite_by_the_name_the_engine_gives_it() {
    let mut net = Network::new();
    let mut connection = connection(&mut net);
    connection.handshake(NegotiateStatus::Complete).unwrap();
    assert_eq!(
        connection.get_negotiated_cipher_suite("TLS_AES_128_GCM_SHA256"),
        Ok(CipherSuite::AES_128_GCM_SHA256)
    );
    assert_eq!(
        connection.get_negotiated_cipher_suite("TLS_AES_256_GCM_SHA384"),
        Ok(CipherSuite::AES_256_GCM_SHA384)
    );
    let unknown_names =
        ["TLS_CHACHA20_POLY1305_SHA256", "", "tls_aes_128_gcm_sha256", "AES_128_GCM_SHA256"];
    for unknown in unknown_names {
        assert_eq!(
            connection.get_negotiated_cipher_suite(unknown),
            Err(Error::UnknownCipherSuite)
        );
    }
}

#[test]
fn only_tls13_is_tls13() {
    let mut net = Network::new();
    let mut connection = connection(&mut net);
    connection.handshake(NegotiateStatus::Complete).unwrap();
    assert!(connection.negotiated_tls13(Version::TLS13));
    for version in [Version::SSLV2, Version::SSLV3, Version::TLS10, Version::TLS11, Version::TLS12]
    {
        assert!(!connection.negotiated_tls13(version));
    }
}

#[test]
fn transfer_goes_on_until_all_is_moved() {
    for decide in [S2NConnection::send, S2NConnection::recv] {
        assert_eq!(decide(0, 10, TransferStatus::Moved(10)), Ok(Progress::Done));
        assert_eq!(decide(0, 10, TransferStatus::Moved(4)), Ok(Progress::Continue(4)));
        assert_eq!(decide(4, 10, TransferStatus::Moved(5)), Ok(Progress::Continue(9)));
        assert_eq!(decide(9, 10, TransferStatus::Moved(1)), Ok(Progress::Done));
        assert_eq!(decide(9, 10, TransferStatus::Moved(7)), Ok(Progress::Done));
        assert_eq!(decide(0, 1, TransferStatus::Moved(usize::MAX)), Ok(Progress::Done));
        assert_eq!(
            decide(usize::MAX - 1, usize::MAX, TransferStatus::Moved(usize::MAX)),
            Ok(Progress::Done)
        );
        assert_eq!(decide(0, 10, TransferStatus::Blocked), Err(Error::TransportExhausted));
        assert_eq!(decide(9, 10, TransferStatus::Blocked), Err(Error::TransportExhausted));
        assert_eq!(decide(3, 10, TransferStatus::Moved(0)), Err(Error::TransportExhausted));
        assert_eq!(decide(0, 10, TransferStatus::Failed), Err(Error::EngineFailed));
        assert_eq!(decide(9, 10, TransferStatus::Failed), Err(Error::EngineFailed));
    }
}

#[test]
fn flush_that_does_not_finish_is_an_error() {
    assert_eq!(S2NConnection::flush(FlushStatus::Flushed), Ok(()));
    assert_eq!(S2NConnection::flush(FlushStatus::Blocked), Err(Error::TransportExhausted));
    assert_eq!(S2NConnection::flush(FlushStatus::Failed), Err(Error::EngineFailed));
}

#[test]
fn send_callback_appends_and_answers_the_length() {
    let mut net = Network::new();
    let context = ConnectedBuffer::new(&mut net);
    assert_eq!(S2NConnection::send_cb(&context, &mut net, &[1, 2, 3]), 3);
    assert_eq!(S2NConnection::send_cb(&context, &mut net, &[]), 0);
    assert_eq!(S2NConnection::send_cb(&context, &mut net, &[4]), 1);
    let mut dest = [0u8; 8];
    assert_eq!(context.inverse().read(&mut net, &mut dest), Ok(4));
    assert_eq!(dest, [1, 2, 3, 4, 0, 0, 0, 0]);
}

#[test]
fn receive_callback_answers_the_count_or_signals_would_block() {
    let mut net = Network::new();
    let context = ConnectedBuffer::new(&mut net);
    let mut dest = [0u8; 4];

    errno::set_errno(errno::Errno(0));
    assert_eq!(S2NConnection::recv_cb(&context, &mut net, &mut dest), -1);
    assert_eq!(errno::errno().0, libc::EWOULDBLOCK);
    assert_eq!(dest, [0; 4]);

    context.inverse().write(&mut net, &[1, 2, 3, 4, 5, 6]);
    errno::set_errno(errno::Errno(0));
    assert_eq!(S2NConnection::recv_cb(&context, &mut net, &mut dest), 4);
    assert_eq!(errno::errno().0, 0);
    assert_eq!(dest, [1, 2, 3, 4]);
    assert_eq!(S2NConnection::recv_cb(&context, &mut net, &mut dest), 2);
    assert_eq!(dest, [5, 6, 3, 4]);

    assert_eq!(S2NConnection::recv_cb(&context, &mut net, &mut dest), -1);
    assert_eq!(errno::errno().0, libc::EWOULDBLOCK);
}

#[test]
fn shrinking_the_link_keeps_the_connection() {
    let mut net = Network::new();
    let mut connection = connection(&mut net);
    connection.handshake(NegotiateStatus::Complete).unwrap();
    let buffer = connection.clone_connected_buffer();
    buffer.write(&mut net, &[1, 2]);
    buffer.inverse().write(&mut net, &[3]);
    connection.shrink_connected_buffer(&mut net);
    connection.shrink_connected_buffer(&mut net);
    assert_eq!(net.readable_len(&buffer), 0);
    assert_eq!(net.readable_len(&buffer.inverse()), 0);
    assert!(connection.handshake_completed());
    assert_eq!(connection.clone_connected_buffer(), buffer);
}
