//! The simulated network: byte queues shared between the two ends of a link.
//!
//! The queues of every link live in one [`Network`]. A [`ConnectedBuffer`] is one
//! end's view of a link: it names the queue it reads from and the queue it writes
//! to, and the other end names the same two queues the other way round. Two views
//! are equal exactly when they name the same queues, whatever those queues hold.

use std::collections::VecDeque;
use vstd::prelude::*;

verus! {

/// The room reserved in each queue of a new link.
pub const QUEUE_CAPACITY: usize = 10000;

/// What a read answers when it could not move a single byte: there is no data yet,
/// which is different from the end of the stream.
#[derive(Debug, Clone, Copy, PartialEq, Eq, Structural)]
pub struct WouldBlock;

/// The queues of all links, each known by its position.
pub struct Network {
    queues: Vec<VecDeque<u8>>,
}

impl View for Network {
    type V = Seq<Seq<u8>>;

    /// What each queue holds, oldest byte first.
    closed spec fn view(&self) -> Seq<Seq<u8>> {
        Seq::new(self.queues@.len(), |q: int| self.queues@[q]@)
    }
}

/// One end's view of a link.
#[derive(Debug, Clone, Copy, PartialEq, Eq, Structural)]
pub struct ConnectedBuffer {
    recv: usize,
    send: usize,
}

impl ConnectedBuffer {
    /// The position of the queue this end reads from.
    pub closed spec fn recv_queue(self) -> int {
        self.recv as int
    }

    /// The position of the queue this end writes to.
    pub closed spec fn send_queue(self) -> int {
        self.send as int
    }

    /// The other end's view of the same link.
    pub closed spec fn inverted(self) -> Self {
        ConnectedBuffer { recv: self.send, send: self.recv }
    }

    /// Both queues exist in `net` and are two different queues.
    pub open spec fn connected_in(self, net: Seq<Seq<u8>>) -> bool {
        &&& 0 <= self.recv_queue() < net.len()
        &&& 0 <= self.send_queue() < net.len()
        &&& self.recv_queue() != self.send_queue()
    }

    /// The view that `new` hands out on a network of `net`'s size.
    pub open spec fn created_on(self, net: Seq<Seq<u8>>) -> bool {
        &&& self.recv_queue() == net.len()
        &&& self.send_queue() == net.len() + 1
    }

    /// The bytes waiting to be read at this end.
    pub open spec fn readable(self, net: Seq<Seq<u8>>) -> Seq<u8> {
        net[self.recv_queue()]
    }

    /// The bytes written at this end that the other end has not read yet.
    pub open spec fn in_flight(self, net: Seq<Seq<u8>>) -> Seq<u8> {
        net[self.send_queue()]
    }

    /// How many bytes a read into a destination of `want` bytes moves.
    pub open spec fn read_len(self, net: Seq<Seq<u8>>, want: nat) -> nat {
        if want <= self.readable(net).len() {
            want
        } else {
            self.readable(net).len()
        }
    }

    /// The network after a read into a destination of `want` bytes.
    pub open spec fn after_read(self, net: Seq<Seq<u8>>, want: nat) -> Seq<Seq<u8>> {
        net.update(self.recv_queue(), self.readable(net).skip(self.read_len(net, want) as int))
    }

    /// The network after `data` was written at this end.
    pub open spec fn after_write(self, net: Seq<Seq<u8>>, data: Seq<u8>) -> Seq<Seq<u8>> {
        net.update(self.send_queue(), self.in_flight(net) + data)
    }

    /// The network after both queues of the link were emptied.
    pub open spec fn after_shrink(self, net: Seq<Seq<u8>>) -> Seq<Seq<u8>> {
        net.update(self.recv_queue(), Seq::<u8>::empty()).update(
            self.send_queue(),
            Seq::<u8>::empty(),
        )
    }

    /// `after` has the queues of `before`, and every queue that is not one of this
    /// link's two holds what it held.
    pub open spec fn only_link_changed(self, before: Seq<Seq<u8>>, after: Seq<Seq<u8>>) -> bool {
        &&& after.len() == before.len()
        &&& forall|q: int|
            0 <= q < before.len() && q != self.recv_queue() && q != self.send_queue()
                ==> #[trigger] after[q] == before[q]
    }
}

/// The network with the two empty queues of a new link behind its own.
pub open spec fn with_new_link(net: Seq<Seq<u8>>) -> Seq<Seq<u8>> {
    net.push(Seq::<u8>::empty()).push(Seq::<u8>::empty())
}

/// Hands spare room of a queue back: `VecDeque::shrink_to_fit`, which keeps the
/// elements and their order and only lowers the capacity.
#[verifier::external_body]
fn release_spare_capacity(queue: &mut VecDeque<u8>)
    ensures
        final(queue)@ == old(queue)@,
{
    queue.shrink_to_fit();
}

impl Network {
    /// A network without links.
    pub fn new() -> (net: Self)
        ensures
            net@ == Seq::<Seq<u8>>::empty(),
    {
        let net = Network { queues: Vec::new() };
        assert(net@ =~= Seq::<Seq<u8>>::empty());
        net
    }

    /// Whether `buffer` is a view of a link of this network.
    pub fn connects(&self, buffer: &ConnectedBuffer) -> (r: bool)
        ensures
            r == buffer.connected_in(self@),
    {
        buffer.recv < self.queues.len() && buffer.send < self.queues.len() && buffer.recv
            != buffer.send
    }

    /// How many bytes wait to be read at `buffer`'s end.
    pub fn readable_len(&self, buffer: &ConnectedBuffer) -> (n: usize)
        requires
            buffer.connected_in(self@),
        ensures
            n == buffer.readable(self@).len(),
    {
        self.queues[buffer.recv].len()
    }
}

impl ConnectedBuffer {
    /// Opens a new link with two empty queues, with room reserved in each so that
    /// they need not grow while a measurement runs, and hands out the view of the end
    /// that opened it.
    pub fn new(net: &mut Network) -> (buffer: Self)
        ensures
            buffer.created_on(old(net)@),
            final(net)@ == with_new_link(old(net)@),
            buffer.connected_in(final(net)@),
    {
        let mut recv_queue: VecDeque<u8> = VecDeque::new();
        let mut send_queue: VecDeque<u8> = VecDeque::new();
        recv_queue.reserve(QUEUE_CAPACITY);
        send_queue.reserve(QUEUE_CAPACITY);
        let recv = net.queues.len();
        net.queues.push(recv_queue);
        let send = net.queues.len();
        net.queues.push(send_queue);
        assert(net@ =~= with_new_link(old(net)@));
        ConnectedBuffer { recv, send }
    }

    /// The other end's view: the same two queues with reading and writing swapped.
    pub fn inverse(self) -> (buffer: Self)
        ensures
            buffer == self.inverted(),
    {
        ConnectedBuffer { recv: self.send, send: self.recv }
    }

    /// Empties both queues of the link and hands their spare room back.
    pub fn shrink(&self, net: &mut Network)
        requires
            self.connected_in(old(net)@),
        ensures
            final(net)@ == self.after_shrink(old(net)@),
    {
        net.queues[self.recv].clear();
        release_spare_capacity(&mut net.queues[self.recv]);
        net.queues[self.send].clear();
        release_spare_capacity(&mut net.queues[self.send]);
        assert(net@ =~= self.after_shrink(old(net)@));
    }

    /// Moves the oldest waiting bytes into `dest`, as many as fit, and answers how
    /// many were moved. Where not a single byte could be moved the answer is
    /// `WouldBlock`, never a count of zero.
    pub fn read(&self, net: &mut Network, dest: &mut [u8]) -> (r: Result<usize, WouldBlock>)
        requires
            self.connected_in(old(net)@),
        ensures
            final(net)@ == self.after_read(old(net)@, old(dest)@.len()),
            final(dest)@ == self.readable(old(net)@).take(
                self.read_len(old(net)@, old(dest)@.len()) as int,
            ) + old(dest)@.skip(self.read_len(old(net)@, old(dest)@.len()) as int),
            self.read_len(old(net)@, old(dest)@.len()) == 0 ==> r == Err::<usize, WouldBlock>(
                WouldBlock,
            ),
            self.read_len(old(net)@, old(dest)@.len()) > 0 ==> r == Ok::<usize, WouldBlock>(
                self.read_len(old(net)@, old(dest)@.len()) as usize,
            ),
    {
        let ghost waiting = self.readable(net@);
        let available = net.queues[self.recv].len();
        let count: usize = if dest.len() <= available {
            dest.len()
        } else {
            available
        };
        let mut moved: usize = 0;
        assert(waiting.skip(0) =~= waiting);
        assert(dest@ =~= waiting.take(0) + old(dest)@.skip(0));
        while moved < count
            invariant
                moved <= count,
                count == self.read_len(old(net)@, old(dest)@.len()),
                waiting == old(net).queues@[self.recv as int]@,
                self.recv < net.queues@.len(),
                net.queues@.len() == old(net).queues@.len(),
                dest@.len() == old(dest)@.len(),
                net.queues@[self.recv as int]@ == waiting.skip(moved as int),
                forall|q: int|
                    0 <= q < net.queues@.len() && q != self.recv ==> net.queues@[q] == old(
                        net,
                    ).queues@[q],
                dest@ == waiting.take(moved as int) + old(dest)@.skip(moved as int),
            decreases count - moved,
        {
            dest[moved] = match net.queues[self.recv].pop_front() {
                Some(byte) => byte,
                None => vstd::pervasive::unreached(),
            };
            moved += 1;
            assert(net.queues@[self.recv as int]@ =~= waiting.skip(moved as int));
            assert(dest@ =~= waiting.take(moved as int) + old(dest)@.skip(moved as int));
        }
        assert(net@ =~= self.after_read(old(net)@, old(dest)@.len()));
        if moved == 0 {
            Err(WouldBlock)
        } else {
            Ok(moved)
        }
    }

    /// Appends all of `src` to what the other end will read and answers its
    /// length. Writing never blocks and never fails.
    pub fn write(&self, net: &mut Network, src: &[u8]) -> (n: usize)
        requires
            self.connected_in(old(net)@),
        ensures
            n == src@.len(),
            final(net)@ == self.after_write(old(net)@, src@),
    {
        let mut copied: usize = 0;
        let ghost in_flight = self.in_flight(net@);
        assert(in_flight + src@.take(0) =~= in_flight);
        while copied < src.len()
            invariant
                copied <= src@.len(),
                in_flight == old(net).queues@[self.send as int]@,
                self.send < net.queues@.len(),
                net.queues@.len() == old(net).queues@.len(),
                net.queues@[self.send as int]@ == in_flight + src@.take(copied as int),
                forall|q: int|
                    0 <= q < net.queues@.len() && q != self.send ==> net.queues@[q] == old(
                        net,
                    ).queues@[q],
            decreases src@.len() - copied,
        {
            net.queues[self.send].push_back(src[copied]);
            copied += 1;
            assert(net.queues@[self.send as int]@ =~= in_flight + src@.take(copied as int));
        }
        assert(src@.take(copied as int) =~= src@);
        assert(net@ =~= self.after_write(old(net)@, src@));
        copied
    }

    /// Nothing is held back between a write and the other end's read, so there is
    /// nothing to flush.
    pub fn flush(&self, net: &mut Network)
        ensures
            *final(net) == *old(net),
    {
    }
}

/// Two views are the same view exactly when they name the same queues.
pub proof fn lemma_same_queues(a: ConnectedBuffer, b: ConnectedBuffer)
    ensures
        a == b <==> (a.recv_queue() == b.recv_queue() && a.send_queue() == b.send_queue()),
{
}

/// The other end reads from the queue this end writes to, and writes to the queue
/// this end reads from.
pub proof fn lemma_inverse_swaps_queues(buffer: ConnectedBuffer)
    ensures
        buffer.inverted().recv_queue() == buffer.send_queue(),
        buffer.inverted().send_queue() == buffer.recv_queue(),
{
}

/// The other end of the other end is this end again.
pub proof fn lemma_inverse_is_involution(buffer: ConnectedBuffer)
    ensures
        buffer.inverted().inverted() == buffer,
{
}

/// Both ends of a link are views of the same network.
pub proof fn lemma_inverse_connected(buffer: ConnectedBuffer, net: Seq<Seq<u8>>)
    ensures
        buffer.inverted().connected_in(net) == buffer.connected_in(net),
{
}

/// Two links that were opened one after the other share no queue, so no end of the
/// one is the other end of the other, and no two of their ends are equal.
pub proof fn lemma_separate_links_are_not_paired(
    first: ConnectedBuffer,
    second: ConnectedBuffer,
    net_first: Seq<Seq<u8>>,
    net_second: Seq<Seq<u8>>,
)
    requires
        first.created_on(net_first),
        second.created_on(net_second),
        net_first.len() + 2 <= net_second.len(),
    ensures
        first != second.inverted(),
        first.inverted() != second,
        first != second,
        first.inverted() != second.inverted(),
{
}

/// A view that was valid before a link was opened is no end of the new link.
pub proof fn lemma_new_link_is_fresh(
    earlier: ConnectedBuffer,
    opened: ConnectedBuffer,
    net: Seq<Seq<u8>>,
)
    requires
        earlier.connected_in(net),
        opened.created_on(net),
    ensures
        earlier != opened,
        earlier != opened.inverted(),
{
}

/// What one end writes is what the other end finds waiting, behind what was
/// already waiting and in the order it was written.
pub proof fn lemma_written_is_readable_at_other_end(
    writer: ConnectedBuffer,
    net: Seq<Seq<u8>>,
    data: Seq<u8>,
)
    requires
        writer.connected_in(net),
    ensures
        writer.inverted().readable(writer.after_write(net, data)) == writer.inverted().readable(
            net,
        ) + data,
        writer.inverted().in_flight(writer.after_write(net, data)) == writer.inverted().in_flight(
            net,
        ),
{
}

/// On a link with nothing waiting, a write at one end followed by a read of the
/// same length at the other end moves exactly the written bytes and leaves the
/// network as it was.
pub proof fn lemma_write_then_read_returns_data(
    writer: ConnectedBuffer,
    net: Seq<Seq<u8>>,
    data: Seq<u8>,
)
    requires
        writer.connected_in(net),
        writer.in_flight(net).len() == 0,
    ensures
        ({
            let reader = writer.inverted();
            let sent = writer.after_write(net, data);
            &&& reader.read_len(sent, data.len()) == data.len()
            &&& reader.readable(sent).take(data.len() as int) == data
            &&& reader.after_read(sent, data.len()) == net
        }),
{
    let reader = writer.inverted();
    let sent = writer.after_write(net, data);
    assert(reader.readable(sent) =~= data);
    assert(reader.readable(sent).take(data.len() as int) =~= data);
    assert(reader.readable(sent).skip(data.len() as int) =~= net[writer.send_queue()]);
    assert(reader.after_read(sent, data.len()) =~= net);
}

/// Emptying a link a second time changes nothing, and an emptied link is still a
/// link of the network: both of its queues are there, and empty.
pub proof fn lemma_shrink_is_idempotent(buffer: ConnectedBuffer, net: Seq<Seq<u8>>)
    requires
        buffer.connected_in(net),
    ensures
        buffer.after_shrink(buffer.after_shrink(net)) == buffer.after_shrink(net),
        buffer.inverted().after_shrink(net) == buffer.after_shrink(net),
        buffer.connected_in(buffer.after_shrink(net)),
        buffer.readable(buffer.after_shrink(net)).len() == 0,
        buffer.in_flight(buffer.after_shrink(net)).len() == 0,
        buffer.only_link_changed(net, buffer.after_shrink(net)),
{
    assert(buffer.after_shrink(buffer.after_shrink(net)) =~= buffer.after_shrink(net));
    assert(buffer.inverted().after_shrink(net) =~= buffer.after_shrink(net));
}

/// However often a link was emptied, it delivers as a new link does: what is written
/// at one end is what a read of that length finds at the other, and nothing is left
/// over.
pub proof fn lemma_shrunk_link_still_delivers(
    writer: ConnectedBuffer,
    net: Seq<Seq<u8>>,
    data: Seq<u8>,
)
    requires
        writer.connected_in(net),
    ensures
        ({
            let reader = writer.inverted();
            let emptied = writer.after_shrink(writer.after_shrink(net));
            let sent = writer.after_write(emptied, data);
            &&& reader.read_len(sent, data.len()) == data.len()
            &&& reader.readable(sent).take(data.len() as int) == data
            &&& reader.after_read(sent, data.len()) == emptied
        }),
{
    lemma_shrink_is_idempotent(writer, net);
    lemma_write_then_read_returns_data(writer, writer.after_shrink(net), data);
}

/// Reading and writing at one end touch no queue of another link.
pub proof fn lemma_read_write_touch_only_the_link(
    buffer: ConnectedBuffer,
    net: Seq<Seq<u8>>,
    want: nat,
    data: Seq<u8>,
)
    requires
        buffer.connected_in(net),
    ensures
        buffer.only_link_changed(net, buffer.after_read(net, want)),
        buffer.only_link_changed(net, buffer.after_write(net, data)),
        buffer.connected_in(buffer.after_read(net, want)),
        buffer.connected_in(buffer.after_write(net, data)),
{
}

} // verus!
