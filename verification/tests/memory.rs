//! The memory benchmark: its names, its plan and its actions one after the other.

use bench::memory::{
    announcement, bring_up, connect, dir_name, handshake_and_release, keep, library_command,
    make_configs, measures_library_size, memory_bench, memory_bench_library_size,
    reserve_buffers, snapshot_command, snapshot_dir, warm_up, xtree_command, xtree_dir, Action,
    MemoryBenchConn, MemoryBenchMode, TlsStruct, CONNECTIONS,
};
use bench::{
    CipherSuite, ConnectedBuffer, CryptoConfig, Error, HandshakeType, Mode, Network, TlsConnPair,
    TlsConnection,
};
use std::sync::atomic::{AtomicUsize, Ordering};

static CONFIGS_MADE: AtomicUsize = AtomicUsize::new(0);
static CONNECTIONS_MADE: AtomicUsize = AtomicUsize::new(0);
static RELEASES: AtomicUsize = AtomicUsize::new(0);
static FAIL_AT_CONNECTION: AtomicUsize = AtomicUsize::new(usize::MAX);

fn count(counter: &AtomicUsize) -> usize {
    counter.fetch_add(1, Ordering::SeqCst) + 1
}

fn read(counter: &AtomicUsize) -> usize {
    counter.load(Ordering::SeqCst)
}

/// A backend whose handshake is one byte each way.
struct Quiet {
    mode: Mode,
    buffer: ConnectedBuffer,
    steps: usize,
    heard: bool,
}

impl TlsConnection for Quiet {
    type Config = Mode;

    fn connected_buffer(&self) -> ConnectedBuffer {
        self.buffer
    }

    fn completed(&self) -> bool {
        self.heard
    }

    fn negotiated_cipher_suite(&self) -> Result<CipherSuite, Error> {
        Ok(CipherSuite::AES_128_GCM_SHA256)
    }

    fn tls13(&self) -> bool {
        self.heard
    }

    fn make_config(mode: Mode, _: CryptoConfig, _: HandshakeType) -> Result<Mode, Error> {
        count(&CONFIGS_MADE);
        Ok(mode)
    }

    fn new_from_config(config: &Mode, connected_buffer: ConnectedBuffer) -> Result<Self, Error> {
        if count(&CONNECTIONS_MADE) >= read(&FAIL_AT_CONNECTION) {
            return Err(Error::UnsupportedParameterCombination);
        }
        Ok(Quiet { mode: *config, buffer: connected_buffer, steps: 0, heard: false })
    }

    fn handshake(&mut self, net: &mut Network) -> Result<(), Error> {
        if self.steps == 0 {
            self.buffer.write(net, &[self.mode as u8]);
        }
        self.steps += 1;
        let mut byte = [0u8; 1];
        if self.buffer.read(net, &mut byte).is_ok() {
            self.heard = true;
        }
        Ok(())
    }

    fn handshake_completed(&self) -> bool {
        self.heard
    }

    fn get_negotiated_cipher_suite(&self) -> Result<CipherSuite, Error> {
        self.negotiated_cipher_suite()
    }

    fn negotiated_tls13(&self) -> bool {
        self.heard
    }

    fn send(&mut self, net: &mut Network, data: &[u8]) -> Result<(), Error> {
        self.buffer.write(net, data);
        Ok(())
    }

    fn recv(&mut self, net: &mut Network, data: &mut [u8]) -> Result<(), Error> {
        match self.buffer.read(net, data) {
            Ok(len) if len == data.len() => Ok(()),
            _ => Err(Error::TransportExhausted),
        }
    }

    fn shrink_connection_buffers(&mut self) {
        count(&RELEASES);
    }

    fn shrink_connected_buffer(&mut self, net: &mut Network) {
        self.buffer.shrink(net);
    }

    fn clone_connected_buffer(&self) -> ConnectedBuffer {
        self.buffer
    }
}

#[test]
fn default_mode_measures_pairs() {
    assert_eq!(MemoryBenchMode::default(), MemoryBenchMode::Pair);
}

#[test]
fn names_of_a_run() {
    assert_eq!(dir_name(MemoryBenchMode::Client, "s2n-tls"), "s2n-tls_client");
    assert_eq!(dir_name(MemoryBenchMode::Server, "rustls"), "rustls_server");
    assert_eq!(dir_name(MemoryBenchMode::Pair, "openssl"), "openssl_pair");
    assert_eq!(dir_name(MemoryBenchMode::Pair, ""), "_pair");
    assert_eq!(announcement("s2n-tls_client"), "testing s2n-tls_client");
    assert_eq!(snapshot_dir("s2n-tls_client"), "target/memory/s2n-tls_client");
    assert_eq!(xtree_dir(), "target/memory/xtree");
    assert_eq!(xtree_command("rustls_pair"), "xtmemory target/memory/xtree/rustls_pair.out");
    assert_eq!(library_command("openssl"), "xtmemory target/memory/xtree/openssl_library.out");
}

#[test]
fn snapshot_commands_are_numbered_in_decimal() {
    assert_eq!(snapshot_command("x_pair", 0), "snapshot target/memory/x_pair/0.snapshot");
    assert_eq!(snapshot_command("x_pair", 7), "snapshot target/memory/x_pair/7.snapshot");
    assert_eq!(snapshot_command("x_pair", 10), "snapshot target/memory/x_pair/10.snapshot");
    assert_eq!(snapshot_command("x_pair", 100), "snapshot target/memory/x_pair/100.snapshot");
    assert_eq!(
        snapshot_command("x_pair", 9_007_199_254_740_993),
        "snapshot target/memory/x_pair/9007199254740993.snapshot"
    );
    for i in 0..=CONNECTIONS {
        assert_eq!(
            snapshot_command("s2n-tls_server", i),
            format!("snapshot target/memory/s2n-tls_server/{i}.snapshot")
        );
    }
}

#[test]
fn runs_of_a_benchmark() {
    assert_eq!(memory_bench(MemoryBenchMode::Client), vec![MemoryBenchMode::Client]);
    assert_eq!(memory_bench(MemoryBenchMode::Server), vec![MemoryBenchMode::Server]);
    assert_eq!(
        memory_bench(MemoryBenchMode::Pair),
        vec![MemoryBenchMode::Pair, MemoryBenchMode::Client, MemoryBenchMode::Server]
    );
    assert!(measures_library_size(MemoryBenchMode::Pair));
    assert!(!measures_library_size(MemoryBenchMode::Client));
    assert!(!measures_library_size(MemoryBenchMode::Server));
}

#[test]
fn reserved_links_are_empty_and_all_different() {
    let mut net = Network::new();
    let earlier = ConnectedBuffer::new(&mut net);
    earlier.write(&mut net, &[1, 2, 3]);
    let buffers = reserve_buffers(&mut net, 7);
    assert_eq!(buffers.len(), 7);
    for (i, buffer) in buffers.iter().enumerate() {
        assert!(net.connects(buffer));
        assert_eq!(net.readable_len(buffer), 0);
        assert_eq!(net.readable_len(&buffer.inverse()), 0);
        assert_ne!(*buffer, earlier);
        assert_ne!(*buffer, earlier.inverse());
        for other in &buffers[i + 1..] {
            assert_ne!(buffer, other);
            assert_ne!(*buffer, other.inverse());
        }
    }
    assert_eq!(net.readable_len(&earlier.inverse()), 3);
    assert!(reserve_buffers(&mut net, 0).is_empty());
}

#[test]
fn connect_puts_the_client_on_the_link_it_is_given() {
    for generate_new_config_each_time in [false, true] {
        let mut net = Network::new();
        let buffer = ConnectedBuffer::new(&mut net);
        let configs_before = read(&CONFIGS_MADE);
        let harness: TlsConnPair<Quiet, Quiet> =
            connect(generate_new_config_each_time, &Mode::Client, &Mode::Server, buffer).unwrap();
        let made = read(&CONFIGS_MADE) - configs_before;
        assert_eq!(made, if generate_new_config_each_time { 2 } else { 0 });
        assert!(!harness.handshake_completed());
        let (client, server) = harness.unwrap();
        assert_eq!(client.mode, Mode::Client);
        assert_eq!(server.mode, Mode::Server);
        assert_eq!(client.clone_connected_buffer(), buffer);
        assert_eq!(server.clone_connected_buffer(), buffer.inverse());
    }
}

#[test]
fn connect_answers_the_first_failure() {
    let mut net = Network::new();
    let buffer = ConnectedBuffer::new(&mut net);
    FAIL_AT_CONNECTION.store(read(&CONNECTIONS_MADE) + 2, Ordering::SeqCst);
    let harness = connect::<Quiet>(false, &Mode::Client, &Mode::Server, buffer);
    assert_eq!(harness.err(), Some(Error::UnsupportedParameterCombination));
}

#[test]
fn handshake_and_release_leaves_the_link_empty() {
    for keep_internal_buffers in [false, true] {
        let mut net = Network::new();
        let mut harness = TlsConnPair::<Quiet, Quiet>::default(&mut net).unwrap();
        let releases_before = read(&RELEASES);
        handshake_and_release(&mut harness, &mut net, keep_internal_buffers).unwrap();
        let released = read(&RELEASES) - releases_before;
        assert_eq!(released, if keep_internal_buffers { 0 } else { 2 });
        assert!(harness.handshake_completed());
        let (client, server) = harness.unwrap();
        assert_eq!(net.readable_len(&client.clone_connected_buffer()), 0);
        assert_eq!(net.readable_len(&server.clone_connected_buffer()), 0);
    }
}

#[test]
fn keep_holds_on_to_what_the_mode_measures() {
    let mut net = Network::new();
    let make = |net: &mut Network| TlsConnPair::<Quiet, Quiet>::default(net).unwrap();
    match keep(MemoryBenchMode::Client, make(&mut net)) {
        TlsStruct::Client(client) => assert_eq!(client.mode, Mode::Client),
        _ => panic!("the client was to be kept"),
    }
    match keep(MemoryBenchMode::Server, make(&mut net)) {
        TlsStruct::Server(server) => assert_eq!(server.mode, Mode::Server),
        _ => panic!("the server was to be kept"),
    }
    match keep(MemoryBenchMode::Pair, make(&mut net)) {
        TlsStruct::Pair(harness) => {
            let (client, server) = harness.unwrap();
            assert_eq!(client.clone_connected_buffer(), server.clone_connected_buffer().inverse());
        }
        _ => panic!("the pair was to be kept"),
    }
}

#[test]
fn library_size_is_measured_on_one_pair_at_rest() {
    let mut net = Network::new();
    let earlier = ConnectedBuffer::new(&mut net);
    earlier.write(&mut net, &[5; 9]);
    let releases_before = read(&RELEASES);
    let (harness, action) = memory_bench_library_size::<Quiet>("quiet", &mut net).unwrap();
    let command = "xtmemory target/memory/xtree/quiet_library.out".to_string();
    assert_eq!(action, Action::MonitorCommand(command));
    assert_eq!(read(&RELEASES) - releases_before, 2);
    assert!(harness.handshake_completed());
    let (client, server) = harness.unwrap();
    assert_ne!(server.clone_connected_buffer(), earlier);
    assert_eq!(net.readable_len(&client.clone_connected_buffer()), 0);
    assert_eq!(net.readable_len(&server.clone_connected_buffer()), 0);
    assert_eq!(net.readable_len(&earlier.inverse()), 9);
}

#[test]
fn warm_up_runs_the_handshake_and_releases_nothing() {
    let mut net = Network::new();
    let releases_before = read(&RELEASES);
    let harness = warm_up::<Quiet>(&mut net).unwrap();
    assert_eq!(read(&RELEASES), releases_before);
    assert!(harness.handshake_completed());
    let (client, server) = harness.unwrap();
    assert_eq!(client.steps, 2);
    assert_eq!(server.steps, 2);
    assert!(net.connects(&server.clone_connected_buffer()));
}

#[test]
fn warm_up_answers_the_first_failure() {
    let mut net = Network::new();
    FAIL_AT_CONNECTION.store(read(&CONNECTIONS_MADE) + 1, Ordering::SeqCst);
    assert_eq!(warm_up::<Quiet>(&mut net).err(), Some(Error::UnsupportedParameterCombination));
}

#[test]
fn shared_configs_are_one_for_each_role() {
    let before = read(&CONFIGS_MADE);
    assert_eq!(make_configs::<Quiet>(), Ok((Mode::Client, Mode::Server)));
    assert_eq!(read(&CONFIGS_MADE) - before, 2);
}

#[test]
fn bring_up_keeps_what_the_mode_measures_of_a_pair_at_rest() {
    for (mode, keep_internal_buffers) in [
        (MemoryBenchMode::Client, false),
        (MemoryBenchMode::Server, true),
        (MemoryBenchMode::Pair, false),
    ] {
        let mut net = Network::new();
        let buffer = ConnectedBuffer::new(&mut net);
        let releases_before = read(&RELEASES);
        let kept = bring_up::<Quiet>(
            false,
            keep_internal_buffers,
            mode,
            &Mode::Client,
            &Mode::Server,
            buffer,
            &mut net,
        )
        .unwrap();
        let released = read(&RELEASES) - releases_before;
        assert_eq!(released, if keep_internal_buffers { 0 } else { 2 });
        assert_eq!(net.readable_len(&buffer), 0);
        assert_eq!(net.readable_len(&buffer.inverse()), 0);
        match (mode, kept) {
            (MemoryBenchMode::Client, TlsStruct::Client(client)) => {
                assert!(client.heard);
                assert_eq!(client.mode, Mode::Client);
                assert_eq!(client.clone_connected_buffer(), buffer);
            }
            (MemoryBenchMode::Server, TlsStruct::Server(server)) => {
                assert!(server.heard);
                assert_eq!(server.mode, Mode::Server);
                assert_eq!(server.clone_connected_buffer(), buffer.inverse());
            }
            (MemoryBenchMode::Pair, TlsStruct::Pair(harness)) => {
                assert!(harness.handshake_completed());
            }
            _ => panic!("something else was kept"),
        }
    }
}

#[test]
fn bring_up_answers_the_first_failure() {
    let mut net = Network::new();
    let buffer = ConnectedBuffer::new(&mut net);
    FAIL_AT_CONNECTION.store(read(&CONNECTIONS_MADE) + 1, Ordering::SeqCst);
    let kept = bring_up::<Quiet>(
        true,
        false,
        MemoryBenchMode::Pair,
        &Mode::Client,
        &Mode::Server,
        buffer,
        &mut net,
    );
    assert_eq!(kept.err(), Some(Error::UnsupportedParameterCombination));
    assert_eq!(net.readable_len(&buffer), 0);
}

#[test]
fn library_size_that_cannot_be_measured_has_no_command() {
    let mut net = Network::new();
    FAIL_AT_CONNECTION.store(read(&CONNECTIONS_MADE) + 2, Ordering::SeqCst);
    let measured = memory_bench_library_size::<Quiet>("quiet", &mut net);
    assert_eq!(measured.err(), Some(Error::UnsupportedParameterCombination));
}

fn actions_of_a_run(mode: MemoryBenchMode, generate: bool, keep_buffers: bool) -> Vec<Action> {
    let mut benchmark = MemoryBenchConn::<Quiet>::new(mode, "quiet", generate, keep_buffers);
    let mut actions = Vec::new();
    let mut kept = 0;
    loop {
        assert!(!benchmark.is_finished());
        let action = benchmark.next().unwrap();
        if action == Action::Finished {
            break;
        }
        if let Action::MonitorCommand(command) = &action {
            if command.starts_with("snapshot") && !command.ends_with("/0.snapshot") {
                kept += 1;
            }
        }
        // what was brought up is still there when the driver acts
        assert_eq!(benchmark.kept_len(), kept);
        actions.push(action);
    }
    assert_eq!(kept, CONNECTIONS);
    assert!(benchmark.is_finished());
    assert_eq!(benchmark.kept_len(), 0);
    assert_eq!(benchmark.next(), Ok(Action::Finished));
    assert_eq!(benchmark.next(), Ok(Action::Finished));
    assert!(benchmark.is_finished());
    actions
}

#[test]
fn a_run_asks_for_a_snapshot_after_every_pair() {
    let actions = actions_of_a_run(MemoryBenchMode::Server, false, false);
    assert_eq!(actions.len(), 3 + 1 + CONNECTIONS + 1);
    assert_eq!(actions[0], Action::Print("testing quiet_server".to_string()));
    assert_eq!(actions[1], Action::CreateDir("target/memory/quiet_server".to_string()));
    assert_eq!(actions[2], Action::CreateDir("target/memory/xtree".to_string()));
    for i in 0..=CONNECTIONS {
        let command = format!("snapshot target/memory/quiet_server/{i}.snapshot");
        assert_eq!(actions[3 + i], Action::MonitorCommand(command));
    }
    let last = "xtmemory target/memory/xtree/quiet_server.out".to_string();
    assert_eq!(actions[4 + CONNECTIONS], Action::MonitorCommand(last));
}

#[test]
fn a_run_makes_its_configs_once_or_for_every_connection() {
    let before = read(&CONFIGS_MADE);
    actions_of_a_run(MemoryBenchMode::Pair, false, true);
    // the pair that warms the backend up, and the two configs that are shared
    assert_eq!(read(&CONFIGS_MADE) - before, 2 + 2);
    let before = read(&CONFIGS_MADE);
    actions_of_a_run(MemoryBenchMode::Client, true, true);
    assert_eq!(read(&CONFIGS_MADE) - before, 2 + 2 + 2 * CONNECTIONS);
}

#[test]
fn a_run_releases_the_protocol_buffers_unless_they_are_kept() {
    let before = read(&RELEASES);
    actions_of_a_run(MemoryBenchMode::Pair, false, true);
    assert_eq!(read(&RELEASES) - before, 0);
    let before = read(&RELEASES);
    actions_of_a_run(MemoryBenchMode::Pair, false, false);
    assert_eq!(read(&RELEASES) - before, 2 * CONNECTIONS);
}

#[test]
fn a_run_ends_with_the_first_error() {
    let mut benchmark = MemoryBenchConn::<Quiet>::new(MemoryBenchMode::Pair, "quiet", false, false);
    for _ in 0..4 {
        benchmark.next().unwrap();
    }
    assert_eq!(
        benchmark.next(),
        Ok(Action::MonitorCommand("snapshot target/memory/quiet_pair/1.snapshot".to_string()))
    );
    assert_eq!(benchmark.kept_len(), 1);
    // the server of the next pair cannot be made
    FAIL_AT_CONNECTION.store(read(&CONNECTIONS_MADE) + 2, Ordering::SeqCst);
    assert_eq!(benchmark.next(), Err(Error::UnsupportedParameterCombination));
    assert!(benchmark.is_finished());
    assert_eq!(benchmark.next(), Ok(Action::Finished));
}

#[test]
fn a_run_that_cannot_warm_up_ends_at_once() {
    let mut benchmark =
        MemoryBenchConn::<Quiet>::new(MemoryBenchMode::Client, "quiet", true, false);
    for _ in 0..3 {
        benchmark.next().unwrap();
    }
    FAIL_AT_CONNECTION.store(0, Ordering::SeqCst);
    assert_eq!(benchmark.next(), Err(Error::UnsupportedParameterCombination));
    assert!(benchmark.is_finished());
    assert_eq!(benchmark.kept_len(), 0);
}
