//! The mathematical model of one socket and of the three operations on it.
//!
//! A socket is two queues of datagrams and two waker slots. Everything the
//! executable functions promise is stated over the functions of this module.

use vstd::prelude::*;
use core::task::Poll;
use crate::address::Endpoint;
use crate::address::IpAddress;
use crate::error::RecvError;
use crate::error::SendError;

verus! {

/// One datagram as a queue holds it: its octets, and the address it came from
/// (in a receive queue) or goes to (in a transmit queue).
pub ghost struct Datagram {
    pub payload: Seq<u8>,
    pub addr: IpAddress,
}

/// The sizes a socket's two packet buffers were made with: for each, the
/// datagrams it has metadata slots for and the octets of payload storage.
pub ghost struct Capacities {
    pub rx_packets: nat,
    pub rx_capacity: nat,
    pub tx_packets: nat,
    pub tx_capacity: nat,
}

/// What is observable of one socket.
pub ghost struct SocketState {
    /// The sizes the packet buffers were made with. They never change.
    pub limits: Capacities,
    /// Datagrams received and not yet read, oldest first.
    pub rx: Seq<Datagram>,
    /// Datagrams enqueued and not yet transmitted, oldest first.
    pub tx: Seq<Datagram>,
    /// Octets the transmit ring holds: those of `tx`, and the padding between them.
    pub tx_octets: nat,
    /// The lengths of a datagram that the transmit buffer would take now.
    pub tx_room: Set<nat>,
    /// Whether a waker waits for a datagram to arrive.
    pub recv_waker: bool,
    /// Whether a waker waits for the transmit buffer to drain.
    pub send_waker: bool,
}

impl SocketState {
    /// A socket as it is made: nothing queued, no waker, and room for any one
    /// datagram that fits the payload storage, provided there is a metadata slot.
    pub open spec fn fresh(
        rx_packets: usize,
        rx_capacity: usize,
        tx_packets: usize,
        tx_capacity: usize,
    ) -> SocketState {
        SocketState {
            limits: Capacities {
                rx_packets: rx_packets as nat,
                rx_capacity: rx_capacity as nat,
                tx_packets: tx_packets as nat,
                tx_capacity: tx_capacity as nat,
            },
            rx: Seq::empty(),
            tx: Seq::empty(),
            tx_octets: 0,
            tx_room: Set::new(|len: nat| tx_packets >= 1 && len <= tx_capacity),
            recv_waker: false,
            send_waker: false,
        }
    }
}

/// The octets of all datagrams of a queue together.
pub open spec fn total_octets(queue: Seq<Datagram>) -> nat
    decreases queue.len(),
{
    if queue.len() == 0 {
        0
    } else {
        total_octets(queue.drop_last()) + queue.last().payload.len()
    }
}

/// What taking one datagram into a buffer of `capacity` octets returns. A
/// datagram longer than the buffer is an error, never a partial read.
pub open spec fn dequeue_result(pre: SocketState, capacity: nat) -> Result<
    (usize, IpAddress),
    RecvError,
> {
    if pre.rx.len() == 0 {
        Err(RecvError::Exhausted)
    } else if capacity < pre.rx[0].payload.len() {
        Err(RecvError::Truncated)
    } else {
        Ok((pre.rx[0].payload.len() as usize, pre.rx[0].addr))
    }
}

/// The socket after one datagram was taken: the head of the receive queue is
/// gone, whether it fitted the buffer or not.
pub open spec fn dequeue_next(pre: SocketState) -> SocketState {
    if pre.rx.len() == 0 {
        pre
    } else {
        SocketState { rx: pre.rx.drop_first(), ..pre }
    }
}

/// The buffer after one datagram was taken into it: the datagram's octets in
/// front, the rest untouched; unchanged where nothing was handed out.
pub open spec fn dequeue_buffer(pre: SocketState, buffer: Seq<u8>) -> Seq<u8> {
    if pre.rx.len() > 0 && pre.rx[0].payload.len() <= buffer.len() {
        pre.rx[0].payload + buffer.skip(pre.rx[0].payload.len() as int)
    } else {
        buffer
    }
}

/// Whether the transmit buffer takes a datagram of `len` octets now.
pub open spec fn has_room(pre: SocketState, len: nat) -> bool {
    pre.tx_room.contains(len)
}

/// Room is never more than the limits allow: none without a free metadata
/// slot, and none for a datagram longer than the payload storage.
pub open spec fn room_within_limits(pre: SocketState, len: nat) -> bool {
    has_room(pre, len) ==> len <= pre.limits.tx_capacity && pre.tx.len() < pre.limits.tx_packets
}

/// How enqueueing `payload` for `dst` relates the socket before and after, and
/// what it returns. The receive side, the wakers and the limits stay as they
/// are.
pub open spec fn enqueued(
    pre: SocketState,
    payload: Seq<u8>,
    dst: IpAddress,
    r: Result<(), SendError>,
    post: SocketState,
) -> bool {
    &&& room_within_limits(pre, payload.len())
    &&& post.limits == pre.limits
    &&& post.rx == pre.rx
    &&& post.recv_waker == pre.recv_waker
    &&& post.send_waker == pre.send_waker
    &&& if dst.is_unspecified() {
        r == Err::<(), SendError>(SendError::Unaddressable) && post == pre
    } else if has_room(pre, payload.len()) {
        &&& r == Ok::<(), SendError>(())
        &&& post.tx == pre.tx.push(Datagram { payload, addr: dst })
        &&& post.tx_octets >= pre.tx_octets + payload.len()
    } else {
        &&& r == Err::<(), SendError>(SendError::BufferFull)
        &&& post.tx == pre.tx
        &&& post.tx_octets >= pre.tx_octets
    }
}

/// The answer of a receive poll to what the socket returned: a datagram and a
/// truncation end the operation, an empty queue suspends it.
pub open spec fn recv_verdict(outcome: Result<(usize, IpAddress), RecvError>) -> Poll<
    Result<(usize, IpAddress), RecvError>,
> {
    match outcome {
        Ok(received) => Poll::Ready(Ok(received)),
        Err(RecvError::Truncated) => Poll::Ready(Err(RecvError::Truncated)),
        Err(RecvError::Exhausted) => Poll::Pending,
    }
}

/// The answer of a send poll to what the socket returned: a full buffer
/// suspends the operation, everything else ends it.
pub open spec fn send_verdict(outcome: Result<(), SendError>) -> Poll<Result<(), SendError>> {
    match outcome {
        Ok(()) => Poll::Ready(Ok(())),
        Err(SendError::Unaddressable) => Poll::Ready(Err(SendError::Unaddressable)),
        Err(SendError::BufferFull) => Poll::Pending,
    }
}

/// The answer of a flush poll to the octets still queued for transmission.
pub open spec fn flush_verdict(queued: nat) -> Poll<()> {
    if queued == 0 {
        Poll::Ready(())
    } else {
        Poll::Pending
    }
}

/// The result of a receive poll on a socket, for a buffer of `capacity` octets.
pub open spec fn recv_poll_result(pre: SocketState, capacity: nat) -> Poll<
    Result<(usize, IpAddress), RecvError>,
> {
    recv_verdict(dequeue_result(pre, capacity))
}

/// The socket after a receive poll: the head of the queue is consumed, or,
/// where the queue was empty, a waker waits for the next arrival.
pub open spec fn recv_poll_next(pre: SocketState) -> SocketState {
    if pre.rx.len() == 0 {
        SocketState { recv_waker: true, ..pre }
    } else {
        dequeue_next(pre)
    }
}

/// How a send poll through `endpoint` relates the socket before and after, and
/// what it returns.
///
/// An unspecified endpoint suspends without touching anything. An endpoint
/// that names no address, or the all-zero address, fails and touches nothing.
/// Otherwise the datagram joins the transmit queue if the buffer has room for
/// it; if not, the queue stays and a waker is left to wait for room.
pub open spec fn send_poll(
    endpoint: Endpoint,
    pre: SocketState,
    payload: Seq<u8>,
    r: Poll<Result<(), SendError>>,
    post: SocketState,
) -> bool {
    if !endpoint.specified() {
        r == Poll::<Result<(), SendError>>::Pending && post == pre
    } else {
        match endpoint.destination_address() {
            None => r == Poll::Ready(Err::<(), SendError>(SendError::Unaddressable)) && post
                == pre,
            Some(dst) => {
                &&& room_within_limits(pre, payload.len())
                &&& post.limits == pre.limits
                &&& post.rx == pre.rx
                &&& post.recv_waker == pre.recv_waker
                &&& if dst.is_unspecified() {
                    r == Poll::Ready(Err::<(), SendError>(SendError::Unaddressable)) && post
                        == pre
                } else if has_room(pre, payload.len()) {
                    &&& r == Poll::Ready(Ok::<(), SendError>(()))
                    &&& post.tx == pre.tx.push(Datagram { payload, addr: dst })
                    &&& post.tx_octets >= pre.tx_octets + payload.len()
                    &&& post.send_waker == pre.send_waker
                } else {
                    &&& r == Poll::<Result<(), SendError>>::Pending
                    &&& post.tx == pre.tx
                    &&& post.tx_octets >= pre.tx_octets
                    &&& post.send_waker
                }
            },
        }
    }
}

/// The result of a flush poll on a socket.
pub open spec fn flush_poll_result(pre: SocketState) -> Poll<()> {
    flush_verdict(pre.tx_octets)
}

/// The socket after a flush poll: untouched once the transmit ring is empty,
/// else with a waker that waits for it to drain.
pub open spec fn flush_poll_next(pre: SocketState) -> SocketState {
    if pre.tx_octets == 0 {
        pre
    } else {
        SocketState { send_waker: true, ..pre }
    }
}

} // verus!
