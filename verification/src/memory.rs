//! The memory benchmark: many connections are brought up one after the other, and a
//! snapshot of the heap is asked for after each.
//!
//! Asking for a snapshot, making a directory and printing are the driver's work.
//! What is done between them, in which order, and under which names is decided
//! here: a benchmark is asked for its next action again and again until it has
//! finished.

use crate::config::{CryptoConfig, HandshakeType, Mode};
use crate::connection::{created, default_crypto_config, TlsConnection};
use crate::error::Error;
use crate::pair::{
    handshake_run, links_emptied_run, pair_created, teardown_run, TlsConnPair,
};
use crate::text::{decimal, lemma_decimal_is_injective, push_decimal};
use crate::transport::{
    lemma_inverse_connected, lemma_inverse_is_involution, lemma_inverse_swaps_queues,
    lemma_shrink_is_idempotent, with_new_link, ConnectedBuffer, Network,
};
use vstd::prelude::*;

verus! {

/// How many connections, or pairs of them, one benchmark brings up.
pub const CONNECTIONS: usize = 100;

/// Whose memory is measured.
#[derive(Debug, Clone, Copy, PartialEq, Eq, Structural)]
pub enum MemoryBenchMode {
    Client,
    Server,
    Pair,
}

impl Default for MemoryBenchMode {
    fn default() -> (r: Self)
        ensures
            r == MemoryBenchMode::Pair,
    {
        MemoryBenchMode::Pair
    }
}

/// What is kept alive of a pair after its handshake.
pub enum TlsStruct<T: TlsConnection> {
    Client(T),
    Server(T),
    Pair(TlsConnPair<T, T>),
}

/// What the driver is to do next.
#[derive(Debug, PartialEq, Eq)]
pub enum Action {
    /// Print this line.
    Print(String),
    /// Make this directory, and those above it.
    CreateDir(String),
    /// Hand this command to the memory profiler.
    MonitorCommand(String),
    /// Nothing is left to do.
    Finished,
}

/// An action, with its text as a sequence of characters.
pub enum ActionView {
    Print(Seq<char>),
    CreateDir(Seq<char>),
    MonitorCommand(Seq<char>),
    Finished,
}

impl View for Action {
    type V = ActionView;

    open spec fn view(&self) -> ActionView {
        match self {
            Action::Print(text) => ActionView::Print(text@),
            Action::CreateDir(text) => ActionView::CreateDir(text@),
            Action::MonitorCommand(text) => ActionView::MonitorCommand(text@),
            Action::Finished => ActionView::Finished,
        }
    }
}

/// Where a benchmark of connections stands.
#[derive(Debug, Clone, Copy, PartialEq, Eq, Structural)]
pub enum Phase {
    /// The name of the run is to be printed.
    Announce,
    /// The directory for the snapshots is to be made.
    CreateSnapshotDir,
    /// The directory for the call trees is to be made.
    CreateXtreeDir,
    /// Links are to be reserved, one pair is to be brought up so that the backend
    /// has initialised itself, the configs are to be made, and the first snapshot is to
    /// be taken.
    Baseline,
    /// The pair of this number, counted from one, is to be brought up and the
    /// snapshot of that number is to be taken.
    Connection(usize),
    /// The call tree is to be taken.
    Xtree,
    /// The connections are to be let go of, now that the last measurement is
    /// taken.
    Release,
    /// Nothing is left to do.
    Finished,
}

/// The suffix that tells the runs of one backend apart.
pub open spec fn mode_suffix(mode: MemoryBenchMode) -> Seq<char> {
    match mode {
        MemoryBenchMode::Client => "_client"@,
        MemoryBenchMode::Server => "_server"@,
        MemoryBenchMode::Pair => "_pair"@,
    }
}

/// The name of a run: the name of the backend and whose memory is measured.
pub open spec fn dir_name_text(mode: MemoryBenchMode, name: Seq<char>) -> Seq<char> {
    name + mode_suffix(mode)
}

/// The line that announces a run.
pub open spec fn announcement_text(dir_name: Seq<char>) -> Seq<char> {
    "testing "@ + dir_name
}

/// The directory for the snapshots of a run.
pub open spec fn snapshot_dir_text(dir_name: Seq<char>) -> Seq<char> {
    "target/memory/"@ + dir_name
}

/// The directory for the call trees of all runs.
pub open spec fn xtree_dir_text() -> Seq<char> {
    "target/memory/xtree"@
}

/// The command for the snapshot of number `i` of a run.
pub open spec fn snapshot_command_text(dir_name: Seq<char>, i: nat) -> Seq<char> {
    "snapshot target/memory/"@ + dir_name + "/"@ + decimal(i) + ".snapshot"@
}

/// The command for the call tree of a run.
pub open spec fn xtree_command_text(dir_name: Seq<char>) -> Seq<char> {
    "xtmemory target/memory/xtree/"@ + dir_name + ".out"@
}

/// The command for the call tree of a backend that holds one pair and nothing
/// else.
pub open spec fn library_command_text(lib_name: Seq<char>) -> Seq<char> {
    xtree_command_text(lib_name + "_library"@)
}

/// What the driver is asked to do in a phase.
pub open spec fn action_of(phase: Phase, dir_name: Seq<char>) -> ActionView {
    match phase {
        Phase::Announce => ActionView::Print(announcement_text(dir_name)),
        Phase::CreateSnapshotDir => ActionView::CreateDir(snapshot_dir_text(dir_name)),
        Phase::CreateXtreeDir => ActionView::CreateDir(xtree_dir_text()),
        Phase::Baseline => ActionView::MonitorCommand(snapshot_command_text(dir_name, 0)),
        Phase::Connection(i) => ActionView::MonitorCommand(
            snapshot_command_text(dir_name, i as nat),
        ),
        Phase::Xtree => ActionView::MonitorCommand(xtree_command_text(dir_name)),
        Phase::Release => ActionView::Finished,
        Phase::Finished => ActionView::Finished,
    }
}

/// The phase that follows a phase that went well.
pub open spec fn phase_after(phase: Phase) -> Phase {
    match phase {
        Phase::Announce => Phase::CreateSnapshotDir,
        Phase::CreateSnapshotDir => Phase::CreateXtreeDir,
        Phase::CreateXtreeDir => Phase::Baseline,
        Phase::Baseline => Phase::Connection(1),
        Phase::Connection(i) => if i < CONNECTIONS {
            Phase::Connection((i + 1) as usize)
        } else {
            Phase::Xtree
        },
        Phase::Xtree => Phase::Release,
        Phase::Release => Phase::Finished,
        Phase::Finished => Phase::Finished,
    }
}

/// Whether connections are brought up in a phase, which is what can fail.
pub open spec fn brings_up_connections(phase: Phase) -> bool {
    phase is Baseline || phase is Connection
}

/// How many pairs have been brought up and kept when a phase begins.
pub open spec fn kept_before(phase: Phase) -> nat {
    match phase {
        Phase::Connection(i) => (i - 1) as nat,
        Phase::Xtree => CONNECTIONS as nat,
        Phase::Release => CONNECTIONS as nat,
        _ => 0,
    }
}

/// Whether what is kept of a pair is what the mode asks for.
pub open spec fn keeps<T: TlsConnection>(mode: MemoryBenchMode, kept: TlsStruct<T>) -> bool {
    match mode {
        MemoryBenchMode::Client => kept is Client,
        MemoryBenchMode::Server => kept is Server,
        MemoryBenchMode::Pair => kept is Pair,
    }
}

/// How many steps are left when a phase begins, if every step goes well.
pub open spec fn steps_left(phase: Phase) -> nat {
    match phase {
        Phase::Announce => (CONNECTIONS + 6) as nat,
        Phase::CreateSnapshotDir => (CONNECTIONS + 5) as nat,
        Phase::CreateXtreeDir => (CONNECTIONS + 4) as nat,
        Phase::Baseline => (CONNECTIONS + 3) as nat,
        Phase::Connection(i) => if i <= CONNECTIONS {
            (CONNECTIONS + 3 - i) as nat
        } else {
            3
        },
        Phase::Xtree => 2,
        Phase::Release => 1,
        Phase::Finished => 0,
    }
}

/// A benchmark comes to its end: every step that goes well leaves fewer steps to
/// take, until none is left.
pub proof fn lemma_phases_come_to_an_end(phase: Phase)
    ensures
        phase != Phase::Finished ==> steps_left(phase_after(phase)) < steps_left(phase),
        steps_left(phase) == 0 <==> phase == Phase::Finished,
{
}

/// The snapshot of number `i` is asked for when `i` pairs have been brought up
/// and are kept: the first one before any pair, and one after every pair.
pub proof fn lemma_snapshot_counts_the_pairs(dir_name: Seq<char>, i: usize)
    requires
        1 <= i <= CONNECTIONS,
    ensures
        action_of(Phase::Baseline, dir_name) == ActionView::MonitorCommand(
            snapshot_command_text(dir_name, 0),
        ),
        kept_before(phase_after(Phase::Baseline)) == 0,
        action_of(Phase::Connection(i), dir_name) == ActionView::MonitorCommand(
            snapshot_command_text(dir_name, i as nat),
        ),
        kept_before(phase_after(Phase::Connection(i))) == i,
{
}

/// The snapshots of a run have each a name of its own.
pub proof fn lemma_snapshot_commands_differ(dir_name: Seq<char>, i: nat, j: nat)
    requires
        i != j,
    ensures
        snapshot_command_text(dir_name, i) != snapshot_command_text(dir_name, j),
{
    let front = "snapshot target/memory/"@ + dir_name + "/"@;
    let back = ".snapshot"@;
    let first = front + decimal(i) + back;
    let second = front + decimal(j) + back;
    if first == second {
        assert(decimal(i).len() == decimal(j).len()) by {
            assert(first.len() == front.len() + decimal(i).len() + back.len());
            assert(second.len() == front.len() + decimal(j).len() + back.len());
        }
        let from = front.len() as int;
        let to = from + decimal(i).len();
        assert(first.subrange(from, to) =~= decimal(i));
        assert(second.subrange(from, to) =~= decimal(j));
        lemma_decimal_is_injective(i, j);
    }
}

/// The name of a run.
pub fn dir_name(mode: MemoryBenchMode, name: &str) -> (text: String)
    ensures
        text@ == dir_name_text(mode, name@),
{
    let mut text = String::from_str(name);
    match mode {
        MemoryBenchMode::Client => text.append("_client"),
        MemoryBenchMode::Server => text.append("_server"),
        MemoryBenchMode::Pair => text.append("_pair"),
    }
    text
}

/// The line that announces a run.
pub fn announcement(dir_name: &str) -> (text: String)
    ensures
        text@ == announcement_text(dir_name@),
{
    let mut text = String::from_str("testing ");
    text.append(dir_name);
    text
}

/// The directory for the snapshots of a run.
pub fn snapshot_dir(dir_name: &str) -> (text: String)
    ensures
        text@ == snapshot_dir_text(dir_name@),
{
    let mut text = String::from_str("target/memory/");
    text.append(dir_name);
    text
}

/// The directory for the call trees of all runs.
pub fn xtree_dir() -> (text: String)
    ensures
        text@ == xtree_dir_text(),
{
    String::from_str("target/memory/xtree")
}

/// The command for the snapshot of number `i` of a run.
pub fn snapshot_command(dir_name: &str, i: usize) -> (text: String)
    ensures
        text@ == snapshot_command_text(dir_name@, i as nat),
{
    let mut text = String::from_str("snapshot target/memory/");
    text.append(dir_name);
    text.append("/");
    push_decimal(&mut text, i as u64);
    text.append(".snapshot");
    text
}

/// The command for the call tree of a run.
pub fn xtree_command(dir_name: &str) -> (text: String)
    ensures
        text@ == xtree_command_text(dir_name@),
{
    let mut text = String::from_str("xtmemory target/memory/xtree/");
    text.append(dir_name);
    text.append(".out");
    text
}

/// The command for the call tree of a backend that holds one pair and nothing
/// else.
pub fn library_command(lib_name: &str) -> (text: String)
    ensures
        text@ == library_command_text(lib_name@),
{
    let mut dir_name = String::from_str(lib_name);
    dir_name.append("_library");
    xtree_command(dir_name.as_str())
}

/// `buffers` are `count` new links on `net_before`, numbered in the order they were
/// opened, and `net_after` is `net_before` with their queues, all empty, behind its
/// own.
pub open spec fn links_reserved(
    net_before: Seq<Seq<u8>>,
    count: nat,
    net_after: Seq<Seq<u8>>,
    buffers: Seq<ConnectedBuffer>,
) -> bool {
    &&& buffers.len() == count
    &&& net_after.len() == net_before.len() + 2 * count
    &&& forall|q: int| 0 <= q < net_before.len() ==> net_after[q] == net_before[q]
    &&& forall|q: int| net_before.len() <= q < net_after.len() ==> net_after[q].len() == 0
    &&& forall|i: int|
        0 <= i < count ==> (#[trigger] buffers[i]).recv_queue() == net_before.len() + 2 * i
            && buffers[i].send_queue() == net_before.len() + 2 * i + 1
}

/// Opens `count` links and empties each, so that the links of a benchmark are all
/// there before the first snapshot.
pub fn reserve_buffers(net: &mut Network, count: usize) -> (buffers: Vec<ConnectedBuffer>)
    ensures
        links_reserved(old(net)@, count as nat, final(net)@, buffers@),
        forall|i: int| 0 <= i < count ==> (#[trigger] buffers@[i]).connected_in(final(net)@),
{
    let mut buffers: Vec<ConnectedBuffer> = Vec::with_capacity(count);
    let mut opened: usize = 0;
    while opened < count
        invariant
            opened <= count,
            links_reserved(old(net)@, opened as nat, net@, buffers@),
            forall|i: int| 0 <= i < opened ==> (#[trigger] buffers@[i]).connected_in(net@),
        decreases count - opened,
    {
        let buffer = ConnectedBuffer::new(net);
        buffer.shrink(net);
        buffers.push(buffer);
        opened += 1;
    }
    buffers
}

/// Making one connection of a pair may answer `r`: the connection is made from a
/// config of its own with the default parameters, or from `config`.
pub open spec fn connection_made<T: TlsConnection>(
    generate_new_config_each_time: bool,
    mode: Mode,
    config: T::Config,
    buffer: ConnectedBuffer,
    r: Result<T, Error>,
) -> bool {
    if generate_new_config_each_time {
        created::<T>(mode, default_crypto_config(), HandshakeType::ServerAuth, buffer, r)
    } else {
        T::bound(config, buffer, r)
    }
}

/// `connect` may answer `r`: the client is made at `buffer`, and then, unless that
/// failed, the server at the other end. `r` is the first failure, or the pair of
/// the two.
pub open spec fn connect_run<T: TlsConnection>(
    generate_new_config_each_time: bool,
    client_config: T::Config,
    server_config: T::Config,
    buffer: ConnectedBuffer,
    r: Result<TlsConnPair<T, T>, Error>,
) -> bool {
    exists|client: Result<T, Error>| #[trigger]
        connection_made::<T>(
            generate_new_config_each_time,
            Mode::Client,
            client_config,
            buffer,
            client,
        ) && match client {
            Ok(client) => exists|server: Result<T, Error>| #[trigger]
                connection_made::<T>(
                    generate_new_config_each_time,
                    Mode::Server,
                    server_config,
                    buffer.inverted(),
                    server,
                ) && match server {
                    Ok(server) => (r matches Ok(pair) && pair.client() == client
                        && pair.server() == server),
                    Err(error) => (r matches Err(e) && e == error),
                },
            Err(error) => (r matches Err(e) && e == error),
        }
}

/// `handshake_and_release` may take a pair and the network from `before` to
/// `after` and answer `r`: the handshake is run, and then, unless it failed, the
/// protocol buffers of both sides are released, if they are not to be kept, and
/// only then the queues of the link are emptied. The order matters: protocol
/// buffers may point into the queues, so a queue that was emptied first could
/// still be counted as held.
pub open spec fn handshake_and_release_run<T: TlsConnection>(
    keep_internal_buffers: bool,
    client_before: T,
    server_before: T,
    net_before: Seq<Seq<u8>>,
    client_after: T,
    server_after: T,
    net_after: Seq<Seq<u8>>,
    r: Result<(), Error>,
) -> bool {
    exists|
        client_between: T,
        server_between: T,
        net_between: Seq<Seq<u8>>,
        handshake_answer: Result<(), Error>,
    | #[trigger]
        handshake_run(
            client_before,
            server_before,
            net_before,
            client_between,
            server_between,
            net_between,
            handshake_answer,
        ) && match handshake_answer {
            Ok(_) => {
                &&& r is Ok
                &&& if keep_internal_buffers {
                    &&& client_after == client_between
                    &&& server_after == server_between
                    &&& links_emptied_run(
                        client_after,
                        server_after,
                        net_between,
                        client_after,
                        server_after,
                        net_after,
                    )
                    &&& net_after == server_after.connected_buffer().after_shrink(net_between)
                } else {
                    teardown_run(
                        client_between,
                        server_between,
                        net_between,
                        client_after,
                        server_after,
                        net_after,
                    )
                }
            },
            Err(_) => client_after == client_between && server_after == server_between
                && net_after == net_between && r == handshake_answer,
        }
}

/// Brings up the two connections of a pair, the client at `buffer` and the server
/// at the other end: each from a config made for it alone, or from the config
/// that was made once for its role.
pub fn connect<T: TlsConnection>(
    generate_new_config_each_time: bool,
    client_config: &T::Config,
    server_config: &T::Config,
    buffer: ConnectedBuffer,
) -> (r: Result<TlsConnPair<T, T>, Error>)
    ensures
        connect_run(generate_new_config_each_time, *client_config, *server_config, buffer, r),
        r matches Ok(pair) ==> pair.is_paired() && pair.client().connected_buffer() == buffer
            && !pair.client().completed() && !pair.server().completed(),
{
    let client = if generate_new_config_each_time {
        T::new(Mode::Client, CryptoConfig::default(), HandshakeType::default(), buffer)
    } else {
        T::new_from_config(client_config, buffer)
    };
    let ghost client_answer = client;
    let r = match client {
        Ok(client) => {
            let peer = client.clone_connected_buffer().inverse();
            let server = if generate_new_config_each_time {
                T::new(Mode::Server, CryptoConfig::default(), HandshakeType::default(), peer)
            } else {
                T::new_from_config(server_config, peer)
            };
            let ghost server_answer = server;
            let r = match server {
                Ok(server) => {
                    proof {
                        lemma_inverse_is_involution(server.connected_buffer());
                        lemma_inverse_is_involution(buffer);
                    }
                    Ok(TlsConnPair::wrap(client, server))
                },
                Err(error) => Err(error),
            };
            assert(connection_made::<T>(
                generate_new_config_each_time,
                Mode::Server,
                *server_config,
                buffer.inverted(),
                server_answer,
            ));
            r
        },
        Err(error) => Err(error),
    };
    assert(connection_made::<T>(
        generate_new_config_each_time,
        Mode::Client,
        *client_config,
        buffer,
        client_answer,
    ));
    r
}

/// Runs the handshake of a pair and then releases what a connection at rest does
/// not need: the protocol buffers of both sides, unless they are to be kept, and
/// after them the queues of the link.
pub fn handshake_and_release<T: TlsConnection>(
    harness: &mut TlsConnPair<T, T>,
    net: &mut Network,
    keep_internal_buffers: bool,
) -> (r: Result<(), Error>)
    requires
        old(harness).connected_in(old(net)@),
    ensures
        handshake_and_release_run(
            keep_internal_buffers,
            old(harness).client(),
            old(harness).server(),
            old(net)@,
            final(harness).client(),
            final(harness).server(),
            final(net)@,
            r,
        ),
        final(harness).connected_in(final(net)@),
        final(harness).server().connected_buffer() == old(harness).server().connected_buffer(),
        final(harness).client().connected_buffer() == old(harness).client().connected_buffer(),
        old(harness).server().connected_buffer().only_link_changed(old(net)@, final(net)@),
        r is Ok ==> final(harness).server().connected_buffer().readable(final(net)@).len() == 0
            && final(harness).client().connected_buffer().readable(final(net)@).len() == 0,
{
    let handshake_answer = harness.handshake(net);
    let ghost client_between = harness.client();
    let ghost server_between = harness.server();
    let ghost net_between = net@;
    let r = match handshake_answer {
        Ok(_) => {
            if !keep_internal_buffers {
                harness.shrink_connection_buffers();
            }
            proof {
                lemma_shrink_is_idempotent(harness.server().connected_buffer(), net@);
                lemma_inverse_swaps_queues(harness.server().connected_buffer());
            }
            harness.shrink_connected_buffers(net);
            Ok(())
        },
        Err(error) => Err(error),
    };
    assert(handshake_run(
        old(harness).client(),
        old(harness).server(),
        old(net)@,
        client_between,
        server_between,
        net_between,
        handshake_answer,
    ));
    r
}

/// What is kept of a pair in a mode.
pub open spec fn kept_of<T: TlsConnection>(
    mode: MemoryBenchMode,
    harness: TlsConnPair<T, T>,
) -> TlsStruct<T> {
    match mode {
        MemoryBenchMode::Client => TlsStruct::Client(harness.client()),
        MemoryBenchMode::Server => TlsStruct::Server(harness.server()),
        MemoryBenchMode::Pair => TlsStruct::Pair(harness),
    }
}

/// The runs of a benchmark that was asked for in a mode.
pub open spec fn runs_of(mode: MemoryBenchMode) -> Seq<MemoryBenchMode> {
    if mode == MemoryBenchMode::Pair {
        seq![MemoryBenchMode::Pair, MemoryBenchMode::Client, MemoryBenchMode::Server]
    } else {
        seq![mode]
    }
}

/// What is kept of a pair: the side whose memory is measured, or both.
pub fn keep<T: TlsConnection>(mode: MemoryBenchMode, harness: TlsConnPair<T, T>) -> (kept:
    TlsStruct<T>)
    ensures
        kept == kept_of(mode, harness),
{
    match mode {
        MemoryBenchMode::Client => TlsStruct::Client(harness.unwrap().0),
        MemoryBenchMode::Server => TlsStruct::Server(harness.unwrap().1),
        MemoryBenchMode::Pair => TlsStruct::Pair(harness),
    }
}

/// The runs of a benchmark of one backend: the run that was asked for, and after
/// a run of pairs one of clients and one of servers.
pub fn memory_bench(mode: MemoryBenchMode) -> (runs: Vec<MemoryBenchMode>)
    ensures
        runs@ == runs_of(mode),
{
    let mut runs: Vec<MemoryBenchMode> = Vec::new();
    runs.push(mode);
    if mode == MemoryBenchMode::Pair {
        runs.push(MemoryBenchMode::Client);
        runs.push(MemoryBenchMode::Server);
    }
    assert(runs@ =~= runs_of(mode));
    runs
}

/// Whether the benchmark of a backend ends with the measurement of the backend
/// itself, which it does after a run of pairs.
pub fn measures_library_size(mode: MemoryBenchMode) -> (r: bool)
    ensures
        r == (mode == MemoryBenchMode::Pair),
{
    mode == MemoryBenchMode::Pair
}

/// `memory_bench_library_size` may take the network from `before` to `after` and
/// answer `r`: a pair with the default parameters is made on a new link, and then,
/// unless that failed, its handshake is run, its protocol buffers are released and
/// after them the queues of its link are emptied. `r` is the first failure, and
/// then there is no command for the profiler; or it is the pair as it is after all
/// that, with the one command that asks for the call tree of the backend.
pub open spec fn library_size_run<T: TlsConnection>(
    lib_name: Seq<char>,
    net_before: Seq<Seq<u8>>,
    net_after: Seq<Seq<u8>>,
    r: Result<(TlsConnPair<T, T>, Action), Error>,
) -> bool {
    exists|connected_buffer: ConnectedBuffer, made: Result<TlsConnPair<T, T>, Error>|
        #![trigger
            connected_buffer.created_on(net_before),
            pair_created(default_crypto_config(), HandshakeType::ServerAuth, connected_buffer, made)
        ]
        connected_buffer.created_on(net_before) && pair_created(
            default_crypto_config(),
            HandshakeType::ServerAuth,
            connected_buffer,
            made,
        ) && (match made {
            Ok(pair) => exists|harness: TlsConnPair<T, T>, answer: Result<(), Error>|
                #[trigger] handshake_and_release_run(
                    false,
                    pair.client(),
                    pair.server(),
                    with_new_link(net_before),
                    harness.client(),
                    harness.server(),
                    net_after,
                    answer,
                ) && (match answer {
                    Ok(_) => (r matches Ok(measured) && measured.0 == harness && measured.1@
                        == ActionView::MonitorCommand(library_command_text(lib_name))),
                    Err(error) => (r matches Err(e) && e == error),
                }),
            Err(error) => (r matches Err(e) && e == error) && net_after == with_new_link(
                net_before,
            ),
        })
}

/// Brings up one pair with the default parameters on a link of its own, runs its
/// handshake, releases its protocol buffers and then empties its link: what a
/// backend holds then is what it needs for itself and one pair at rest. The answer
/// is that pair, which is to be kept while the profiler works, and the command
/// that asks the profiler for the call tree. Where a step fails there is no
/// command.
pub fn memory_bench_library_size<T: TlsConnection>(lib_name: &str, net: &mut Network) -> (r:
    Result<(TlsConnPair<T, T>, Action), Error>)
    ensures
        library_size_run(lib_name@, old(net)@, final(net)@, r),
        final(net)@.len() == old(net)@.len() + 2,
        forall|q: int| 0 <= q < old(net)@.len() ==> final(net)@[q] == old(net)@[q],
        r matches Ok(measured) ==> measured.0.connected_in(final(net)@)
            && measured.0.server().connected_buffer().created_on(old(net)@)
            && measured.0.server().connected_buffer().readable(final(net)@).len() == 0
            && measured.0.client().connected_buffer().readable(final(net)@).len() == 0,
{
    let made = TlsConnPair::<T, T>::default(net);
    let ghost net_made = net@;
    assert(net_made == with_new_link(old(net)@));
    let ghost made_answer = made;
    let ghost connected_buffer = choose|connected_buffer: ConnectedBuffer| #[trigger]
        connected_buffer.created_on(old(net)@) && pair_created(
            default_crypto_config(),
            HandshakeType::ServerAuth,
            connected_buffer,
            made_answer,
        );
    match made {
        Ok(harness) => {
            let mut harness = harness;
            let ghost pair = harness;
            proof {
                lemma_inverse_swaps_queues(harness.server().connected_buffer());
            }
            let answer = handshake_and_release(&mut harness, net, false);
            let ghost harness_after = harness;
            let r = match answer {
                Ok(_) => Ok((harness, Action::MonitorCommand(library_command(lib_name)))),
                Err(error) => Err(error),
            };
            assert(handshake_and_release_run(
                false,
                pair.client(),
                pair.server(),
                net_made,
                harness_after.client(),
                harness_after.server(),
                net@,
                answer,
            ) && (match answer {
                Ok(_) => (r matches Ok(measured) && measured.0 == harness_after && measured.1@
                    == ActionView::MonitorCommand(library_command_text(lib_name@))),
                Err(error) => (r matches Err(e) && e == error),
            }));
            r
        },
        Err(error) => Err(error),
    }
}

/// `warm_up` may take the network from `before` to `after` and answer `r`: a pair
/// with the default parameters is made on a new link, and then, unless that
/// failed, its handshake is run. `r` is the first failure, or the pair as it is
/// then.
pub open spec fn warm_up_run<T: TlsConnection>(
    net_before: Seq<Seq<u8>>,
    net_after: Seq<Seq<u8>>,
    r: Result<TlsConnPair<T, T>, Error>,
) -> bool {
    exists|connected_buffer: ConnectedBuffer, made: Result<TlsConnPair<T, T>, Error>|
        #![trigger
            connected_buffer.created_on(net_before),
            pair_created(default_crypto_config(), HandshakeType::ServerAuth, connected_buffer, made)
        ]
        connected_buffer.created_on(net_before) && pair_created(
            default_crypto_config(),
            HandshakeType::ServerAuth,
            connected_buffer,
            made,
        ) && (match made {
            Ok(pair) => exists|harness: TlsConnPair<T, T>, answer: Result<(), Error>|
                #[trigger] handshake_run(
                    pair.client(),
                    pair.server(),
                    with_new_link(net_before),
                    harness.client(),
                    harness.server(),
                    net_after,
                    answer,
                ) && (match answer {
                    Ok(_) => r == Ok::<TlsConnPair<T, T>, Error>(harness),
                    Err(error) => (r matches Err(e) && e == error),
                }),
            Err(error) => (r matches Err(e) && e == error) && net_after == with_new_link(
                net_before,
            ),
        })
}

/// Brings up one pair with the default parameters on a link of its own and runs
/// its handshake, so that the backend has initialised itself before the first
/// measurement.
pub fn warm_up<T: TlsConnection>(net: &mut Network) -> (r: Result<TlsConnPair<T, T>, Error>)
    ensures
        warm_up_run(old(net)@, final(net)@, r),
        final(net)@.len() == old(net)@.len() + 2,
        forall|q: int| 0 <= q < old(net)@.len() ==> final(net)@[q] == old(net)@[q],
        r matches Ok(harness) ==> harness.connected_in(final(net)@),
{
    let made = TlsConnPair::<T, T>::default(net);
    let ghost net_made = net@;
    assert(net_made == with_new_link(old(net)@));
    match made {
        Ok(harness) => {
            let mut harness = harness;
            let ghost pair = harness;
            proof {
                lemma_inverse_swaps_queues(harness.server().connected_buffer());
            }
            let answer = harness.handshake(net);
            let ghost harness_after = harness;
            let r = match answer {
                Ok(_) => Ok(harness),
                Err(error) => Err(error),
            };
            assert(handshake_run(
                pair.client(),
                pair.server(),
                net_made,
                harness_after.client(),
                harness_after.server(),
                net@,
                answer,
            ) && (match answer {
                Ok(_) => r == Ok::<TlsConnPair<T, T>, Error>(harness_after),
                Err(error) => (r matches Err(e) && e == error),
            }));
            r
        },
        Err(error) => Err(error),
    }
}

/// `make_configs` may answer `r`: the config of a client with the default
/// parameters is made, and then, unless that failed, the config of a server. `r`
/// is the first failure, or the two configs.
pub open spec fn configs_made<T: TlsConnection>(r: Result<(T::Config, T::Config), Error>) -> bool {
    exists|client: Result<T::Config, Error>| #[trigger]
        T::config_made(
            Mode::Client,
            default_crypto_config(),
            HandshakeType::ServerAuth,
            client,
        ) && (match client {
            Ok(client_config) => exists|server: Result<T::Config, Error>| #[trigger]
                T::config_made(
                    Mode::Server,
                    default_crypto_config(),
                    HandshakeType::ServerAuth,
                    server,
                ) && (match server {
                    Ok(server_config) => r == Ok::<(T::Config, T::Config), Error>(
                        (client_config, server_config),
                    ),
                    Err(error) => (r matches Err(e) && e == error),
                }),
            Err(error) => (r matches Err(e) && e == error),
        })
}

/// Makes the configs that the connections of a benchmark share: one for the
/// clients and one for the servers, both with the default parameters.
pub fn make_configs<T: TlsConnection>() -> (r: Result<(T::Config, T::Config), Error>)
    ensures
        configs_made::<T>(r),
{
    let client = T::make_config(Mode::Client, CryptoConfig::default(), HandshakeType::default());
    let ghost client_answer = client;
    let r = match client {
        Ok(client_config) => {
            let server = T::make_config(
                Mode::Server,
                CryptoConfig::default(),
                HandshakeType::default(),
            );
            let ghost server_answer = server;
            let r = match server {
                Ok(server_config) => Ok((client_config, server_config)),
                Err(error) => Err(error),
            };
            assert(T::config_made(
                Mode::Server,
                default_crypto_config(),
                HandshakeType::ServerAuth,
                server_answer,
            ));
            r
        },
        Err(error) => Err(error),
    };
    assert(T::config_made(
        Mode::Client,
        default_crypto_config(),
        HandshakeType::ServerAuth,
        client_answer,
    ));
    r
}

/// `bring_up` may take the network from `before` to `after` and answer `r`: the
/// pair is connected on `buffer`, and then, unless that failed, its handshake is
/// run and its buffers are released. `r` is the first failure, or what the mode
/// keeps of the pair as it is then.
pub open spec fn bring_up_run<T: TlsConnection>(
    generate_new_config_each_time: bool,
    keep_internal_buffers: bool,
    mode: MemoryBenchMode,
    client_config: T::Config,
    server_config: T::Config,
    buffer: ConnectedBuffer,
    net_before: Seq<Seq<u8>>,
    net_after: Seq<Seq<u8>>,
    r: Result<TlsStruct<T>, Error>,
) -> bool {
    exists|connected: Result<TlsConnPair<T, T>, Error>| #[trigger]
        connect_run(
            generate_new_config_each_time,
            client_config,
            server_config,
            buffer,
            connected,
        ) && (match connected {
            Ok(pair) => exists|harness: TlsConnPair<T, T>, answer: Result<(), Error>|
                #[trigger] handshake_and_release_run(
                    keep_internal_buffers,
                    pair.client(),
                    pair.server(),
                    net_before,
                    harness.client(),
                    harness.server(),
                    net_after,
                    answer,
                ) && (match answer {
                    Ok(_) => r == Ok::<TlsStruct<T>, Error>(kept_of(mode, harness)),
                    Err(error) => (r matches Err(e) && e == error),
                }),
            Err(error) => (r matches Err(e) && e == error) && net_after == net_before,
        })
}

/// Brings up one pair of a benchmark on a reserved link: connects it, runs its
/// handshake, releases its buffers and keeps of it what the mode asks for.
pub fn bring_up<T: TlsConnection>(
    generate_new_config_each_time: bool,
    keep_internal_buffers: bool,
    mode: MemoryBenchMode,
    client_config: &T::Config,
    server_config: &T::Config,
    buffer: ConnectedBuffer,
    net: &mut Network,
) -> (r: Result<TlsStruct<T>, Error>)
    requires
        buffer.connected_in(old(net)@),
    ensures
        bring_up_run(
            generate_new_config_each_time,
            keep_internal_buffers,
            mode,
            *client_config,
            *server_config,
            buffer,
            old(net)@,
            final(net)@,
            r,
        ),
        final(net)@.len() == old(net)@.len(),
        buffer.only_link_changed(old(net)@, final(net)@),
        r matches Ok(kept) ==> keeps(mode, kept),
{
    let connected = connect::<T>(
        generate_new_config_each_time,
        client_config,
        server_config,
        buffer,
    );
    let ghost connected_answer = connected;
    match connected {
        Ok(harness) => {
            let mut harness = harness;
            let ghost pair = harness;
            proof {
                lemma_inverse_connected(harness.server().connected_buffer(), net@);
                lemma_inverse_is_involution(harness.server().connected_buffer());
                lemma_inverse_swaps_queues(harness.server().connected_buffer());
            }
            let answer = handshake_and_release(&mut harness, net, keep_internal_buffers);
            let ghost harness_after = harness;
            let r = match answer {
                Ok(_) => Ok(keep(mode, harness)),
                Err(error) => Err(error),
            };
            assert(handshake_and_release_run(
                keep_internal_buffers,
                pair.client(),
                pair.server(),
                old(net)@,
                harness_after.client(),
                harness_after.server(),
                net@,
                answer,
            ) && (match answer {
                Ok(_) => r == Ok::<TlsStruct<T>, Error>(kept_of(mode, harness_after)),
                Err(error) => (r matches Err(e) && e == error),
            }));
            r
        },
        Err(error) => Err(error),
    }
}

/// A benchmark of the connections of one backend in one mode.
pub struct MemoryBenchConn<T: TlsConnection> {
    mode: MemoryBenchMode,
    dir_name: String,
    generate_new_config_each_time: bool,
    keep_internal_buffers: bool,
    phase: Phase,
    net: Network,
    buffers: Vec<ConnectedBuffer>,
    tls_structs: Vec<TlsStruct<T>>,
    warm_up: Option<TlsConnPair<T, T>>,
    configs: Option<(T::Config, T::Config)>,
}

impl<T: TlsConnection> MemoryBenchConn<T> {
    /// Whose memory is measured.
    pub closed spec fn mode(&self) -> MemoryBenchMode {
        self.mode
    }

    /// The name of the run.
    pub closed spec fn dir_name(&self) -> Seq<char> {
        self.dir_name@
    }

    /// Whether every connection gets a config of its own.
    pub closed spec fn generates_configs(&self) -> bool {
        self.generate_new_config_each_time
    }

    /// Whether the connections keep their protocol buffers.
    pub closed spec fn keeps_buffers(&self) -> bool {
        self.keep_internal_buffers
    }

    /// Where the benchmark stands.
    pub closed spec fn phase(&self) -> Phase {
        self.phase
    }

    /// The queues of all links of the benchmark.
    pub closed spec fn net(&self) -> Seq<Seq<u8>> {
        self.net@
    }

    /// The links that wait for their pair. The last of them is the next to be
    /// used.
    pub closed spec fn reserved(&self) -> Seq<ConnectedBuffer> {
        self.buffers@
    }

    /// What has been kept of the pairs brought up so far, oldest first.
    pub closed spec fn kept(&self) -> Seq<TlsStruct<T>> {
        self.tls_structs@
    }

    /// The pair that was brought up before the first measurement.
    pub closed spec fn warmed_up(&self) -> Option<TlsConnPair<T, T>> {
        self.warm_up
    }

    /// The config of the clients and the config of the servers.
    pub closed spec fn configs(&self) -> Option<(T::Config, T::Config)> {
        self.configs
    }

    /// What holds of a benchmark between two actions: as many pairs are kept as
    /// the phase says, each kept as the mode asks, and for every pair still to come a
    /// link is reserved.
    pub closed spec fn well_formed(&self) -> bool {
        &&& self.phase matches Phase::Connection(i) ==> 1 <= i <= CONNECTIONS
        &&& self.tls_structs@.len() == kept_before(self.phase)
        &&& forall|i: int|
            0 <= i < self.tls_structs@.len() ==> keeps(self.mode, #[trigger] self.tls_structs@[i])
        &&& self.buffers@.len() == if self.phase is Connection {
            CONNECTIONS - kept_before(self.phase)
        } else {
            0
        }
        &&& forall|i: int|
            0 <= i < self.buffers@.len() ==> (#[trigger] self.buffers@[i]).connected_in(self.net@)
        &&& self.phase is Connection ==> self.configs is Some
    }

    /// The phase aside, `after` is as `before`.
    pub open spec fn nothing_done(before: Self, after: Self) -> bool {
        &&& after.net() == before.net()
        &&& after.reserved() == before.reserved()
        &&& after.kept() == before.kept()
        &&& after.warmed_up() == before.warmed_up()
        &&& after.configs() == before.configs()
    }

    /// Nothing is held any more: no connection, no link in reserve, no config.
    pub open spec fn holds_nothing(&self) -> bool {
        &&& self.reserved().len() == 0
        &&& self.kept().len() == 0
        &&& self.warmed_up() is None
        &&& self.configs() is None
    }

    /// The step before the first snapshot: the links of all pairs are reserved, one
    /// pair is brought up to warm the backend up, and the configs are made. `r` is
    /// an error if one of the two failed.
    pub open spec fn prepared(before: Self, after: Self, r: Result<Action, Error>) -> bool {
        exists|
            net_reserved: Seq<Seq<u8>>,
            reserved: Seq<ConnectedBuffer>,
            net_warm: Seq<Seq<u8>>,
            warm: Result<TlsConnPair<T, T>, Error>,
        |
            #![trigger
                links_reserved(before.net(), CONNECTIONS as nat, net_reserved, reserved),
                warm_up_run(net_reserved, net_warm, warm)
            ]
            links_reserved(before.net(), CONNECTIONS as nat, net_reserved, reserved)
                && warm_up_run(net_reserved, net_warm, warm) && (match warm {
                Ok(harness) => exists|configs: Result<(T::Config, T::Config), Error>|
                    #[trigger] configs_made::<T>(configs) && (match configs {
                        Ok(configs) => {
                            &&& r is Ok
                            &&& after.net() == net_warm
                            &&& after.reserved() == reserved
                            &&& after.kept().len() == 0
                            &&& after.warmed_up() == Some(harness)
                            &&& after.configs() == Some(configs)
                        },
                        Err(error) => (r matches Err(e) && e == error),
                    }),
                Err(error) => (r matches Err(e) && e == error),
            })
    }

    /// The step before every other snapshot: one pair is brought up on the link
    /// that was reserved last, and what the mode keeps of it is kept behind what was
    /// kept before. `r` is an error if bringing it up failed.
    pub open spec fn brought_up(before: Self, after: Self, r: Result<Action, Error>) -> bool {
        exists|net_after: Seq<Seq<u8>>, kept: Result<TlsStruct<T>, Error>| #[trigger]
            bring_up_run(
                before.generates_configs(),
                before.keeps_buffers(),
                before.mode(),
                before.configs()->Some_0.0,
                before.configs()->Some_0.1,
                before.reserved().last(),
                before.net(),
                net_after,
                kept,
            ) && (match kept {
                Ok(kept) => {
                    &&& r is Ok
                    &&& after.net() == net_after
                    &&& after.reserved() == before.reserved().drop_last()
                    &&& after.kept() == before.kept().push(kept)
                    &&& after.warmed_up() == before.warmed_up()
                    &&& after.configs() == before.configs()
                },
                Err(error) => (r matches Err(e) && e == error),
            })
    }

    /// What one step does to the benchmark, phase by phase.
    pub open spec fn stepped(before: Self, after: Self, r: Result<Action, Error>) -> bool {
        match before.phase() {
            Phase::Baseline => Self::prepared(before, after, r),
            Phase::Connection(_) => Self::brought_up(before, after, r),
            Phase::Release => r is Ok && after.holds_nothing(),
            _ => r is Ok && Self::nothing_done(before, after),
        }
    }

    /// A benchmark that has not begun.
    pub fn new(
        mode: MemoryBenchMode,
        name: &str,
        generate_new_config_each_time: bool,
        keep_internal_buffers: bool,
    ) -> (bench: Self)
        ensures
            bench.well_formed(),
            bench.mode() == mode,
            bench.dir_name() == dir_name_text(mode, name@),
            bench.generates_configs() == generate_new_config_each_time,
            bench.keeps_buffers() == keep_internal_buffers,
            bench.phase() == Phase::Announce,
            bench.net().len() == 0,
            bench.holds_nothing(),
    {
        MemoryBenchConn {
            mode,
            dir_name: dir_name(mode, name),
            generate_new_config_each_time,
            keep_internal_buffers,
            phase: Phase::Announce,
            net: Network::new(),
            buffers: Vec::new(),
            tls_structs: Vec::new(),
            warm_up: None,
            configs: None,
        }
    }

    /// How many pairs have been brought up and kept.
    pub fn kept_len(&self) -> (n: usize)
        ensures
            n == self.kept().len(),
    {
        self.tls_structs.len()
    }

    /// Whether nothing is left to do.
    pub fn is_finished(&self) -> (b: bool)
        ensures
            b == (self.phase() == Phase::Finished),
    {
        self.phase == Phase::Finished
    }

    /// Reserves the links, brings up one pair so that the backend has initialised
    /// itself, and makes the config of each role.
    fn prepare(&mut self) -> (r: Result<Action, Error>)
        requires
            old(self).well_formed(),
            old(self).phase == Phase::Baseline,
        ensures
            Self::prepared(*old(self), *final(self), r),
            final(self).well_formed(),
            final(self).mode == old(self).mode,
            final(self).dir_name == old(self).dir_name,
            final(self).generate_new_config_each_time == old(self).generate_new_config_each_time,
            final(self).keep_internal_buffers == old(self).keep_internal_buffers,
            r matches Ok(action) ==> final(self).phase == Phase::Connection(1) && action@
                == action_of(Phase::Baseline, old(self).dir_name@),
            r is Err ==> final(self).phase == Phase::Finished && final(self).holds_nothing(),
    {
        let kept: Vec<TlsStruct<T>> = Vec::with_capacity(CONNECTIONS);
        let reserved = reserve_buffers(&mut self.net, CONNECTIONS);
        let ghost net_reserved = self.net@;
        let ghost links = reserved@;
        let warm = warm_up::<T>(&mut self.net);
        let ghost net_warm = self.net@;
        let ghost warm_answer = warm;
        let r = match warm {
            Ok(harness) => {
                let configs = make_configs::<T>();
                let ghost configs_answer = configs;
                let r = match configs {
                    Ok(configs) => {
                        self.tls_structs = kept;
                        self.buffers = reserved;
                        self.warm_up = Some(harness);
                        self.configs = Some(configs);
                        self.phase = Phase::Connection(1);
                        Ok(Action::MonitorCommand(snapshot_command(self.dir_name.as_str(), 0)))
                    },
                    Err(error) => {
                        self.give_up();
                        Err(error)
                    },
                };
                assert(configs_made::<T>(configs_answer));
                r
            },
            Err(error) => {
                self.give_up();
                Err(error)
            },
        };
        assert(links_reserved(old(self).net(), CONNECTIONS as nat, net_reserved, links)
            && warm_up_run(net_reserved, net_warm, warm_answer));
        r
    }

    /// Brings up the next pair on the link that was reserved last, and keeps of it
    /// what the mode asks for.
    fn bring_up_next(&mut self, number: usize) -> (r: Result<Action, Error>)
        requires
            old(self).well_formed(),
            old(self).phase == Phase::Connection(number),
        ensures
            Self::brought_up(*old(self), *final(self), r),
            final(self).well_formed(),
            final(self).mode == old(self).mode,
            final(self).dir_name == old(self).dir_name,
            final(self).generate_new_config_each_time == old(self).generate_new_config_each_time,
            final(self).keep_internal_buffers == old(self).keep_internal_buffers,
            r matches Ok(action) ==> final(self).phase == phase_after(old(self).phase)
                && action@ == action_of(old(self).phase, old(self).dir_name@),
            r is Err ==> final(self).phase == Phase::Finished && final(self).holds_nothing(),
    {
        let buffer = match self.buffers.pop() {
            Some(buffer) => buffer,
            None => vstd::pervasive::unreached(),
        };
        let brought_up = match &self.configs {
            Some((client_config, server_config)) => bring_up::<T>(
                self.generate_new_config_each_time,
                self.keep_internal_buffers,
                self.mode,
                client_config,
                server_config,
                buffer,
                &mut self.net,
            ),
            None => vstd::pervasive::unreached(),
        };
        let ghost net_after = self.net@;
        let ghost answer = brought_up;
        let r = match brought_up {
            Ok(kept) => {
                self.tls_structs.push(kept);
                if number < CONNECTIONS {
                    self.phase = Phase::Connection(number + 1);
                } else {
                    self.phase = Phase::Xtree;
                }
                Ok(Action::MonitorCommand(snapshot_command(self.dir_name.as_str(), number)))
            },
            Err(error) => {
                self.give_up();
                Err(error)
            },
        };
        assert(bring_up_run(
            old(self).generates_configs(),
            old(self).keeps_buffers(),
            old(self).mode(),
            old(self).configs()->Some_0.0,
            old(self).configs()->Some_0.1,
            old(self).reserved().last(),
            old(self).net(),
            net_after,
            answer,
        ));
        r
    }

    /// Does what is to be done before the next action of the driver, and answers
    /// that action. The phases follow each other in a fixed order, and each has its
    /// action. Only where connections are brought up can there be an error, and it
    /// ends the benchmark: nothing is held any more, and nothing is left to do.
    pub fn next(&mut self) -> (r: Result<Action, Error>)
        requires
            old(self).well_formed(),
        ensures
            final(self).well_formed(),
            final(self).mode() == old(self).mode(),
            final(self).dir_name() == old(self).dir_name(),
            final(self).generates_configs() == old(self).generates_configs(),
            final(self).keeps_buffers() == old(self).keeps_buffers(),
            Self::stepped(*old(self), *final(self), r),
            r matches Ok(action) ==> action@ == action_of(old(self).phase(), old(self).dir_name())
                && final(self).phase() == phase_after(old(self).phase()),
            r is Err ==> brings_up_connections(old(self).phase()) && final(self).phase()
                == Phase::Finished && final(self).holds_nothing(),
            final(self).kept().len() == kept_before(final(self).phase()),
            forall|i: int|
                0 <= i < final(self).kept().len() ==> keeps(
                    final(self).mode(),
                    #[trigger] final(self).kept()[i],
                ),
    {
        match self.phase {
            Phase::Announce => {
                self.phase = Phase::CreateSnapshotDir;
                Ok(Action::Print(announcement(self.dir_name.as_str())))
            },
            Phase::CreateSnapshotDir => {
                self.phase = Phase::CreateXtreeDir;
                Ok(Action::CreateDir(snapshot_dir(self.dir_name.as_str())))
            },
            Phase::CreateXtreeDir => {
                self.phase = Phase::Baseline;
                Ok(Action::CreateDir(xtree_dir()))
            },
            Phase::Baseline => self.prepare(),
            Phase::Connection(number) => self.bring_up_next(number),
            Phase::Xtree => {
                self.phase = Phase::Release;
                Ok(Action::MonitorCommand(xtree_command(self.dir_name.as_str())))
            },
            Phase::Release => {
                self.give_up();
                Ok(Action::Finished)
            },
            Phase::Finished => Ok(Action::Finished),
        }
    }

    /// Lets go of everything and ends the benchmark.
    fn give_up(&mut self)
        ensures
            final(self).well_formed(),
            final(self).mode == old(self).mode,
            final(self).dir_name == old(self).dir_name,
            final(self).generate_new_config_each_time == old(self).generate_new_config_each_time,
            final(self).keep_internal_buffers == old(self).keep_internal_buffers,
            final(self).phase == Phase::Finished,
            final(self).holds_nothing(),
    {
        self.phase = Phase::Finished;
        self.tls_structs = Vec::new();
        self.buffers = Vec::new();
        self.warm_up = None;
        self.configs = None;
    }
}

} // verus!
