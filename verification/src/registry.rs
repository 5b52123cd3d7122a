//! The boundary to the network stack's own code: the socket registry, the ICMP
//! socket it stores, and the waker of `core::task`.
//!
//! Nothing in this module is proved. Each function below makes one call into
//! that code and states what the call does; the rest of the library is
//! verified against these statements.

use vstd::prelude::*;
use core::task::Poll;
use core::task::Waker;
use smoltcp::iface::SocketHandle;
use smoltcp::iface::SocketSet;
use smoltcp::socket::icmp;
use crate::address::IpAddress;
use crate::error::RecvError;
use crate::error::SendError;
use crate::model::dequeue_buffer;
use crate::model::dequeue_next;
use crate::model::dequeue_result;
use crate::model::enqueued;
use crate::model::total_octets;
use crate::model::SocketState;

verus! {

#[verifier::external_type_specification]
#[verifier::external_body]
pub struct ExSocketSet<'a>(SocketSet<'a>);

#[verifier::external_type_specification]
#[verifier::external_body]
pub struct ExSocketHandle(SocketHandle);

#[verifier::external_type_specification]
#[verifier::external_body]
pub struct ExIcmpSocket<'a>(icmp::Socket<'a>);

#[verifier::external_type_specification]
#[verifier::external_body]
pub struct ExWaker(Waker);

#[verifier::external_type_specification]
#[verifier::reject_recursive_types(T)]
pub struct ExPoll<T>(Poll<T>);

/// An upper bound, in octets, on the storage one metadata slot of a packet
/// buffer takes.
pub const METADATA_SLOT: usize = 64;

/// Whether packet storage of this size can be allocated at all: neither the
/// metadata slots nor the payload octets exceed what one allocation may hold.
pub open spec fn allocatable(packets: usize, capacity: usize) -> bool {
    packets * METADATA_SLOT <= isize::MAX && capacity <= isize::MAX
}

/// The ICMP sockets a registry holds, each under its handle.
pub uninterp spec fn registry(sockets: SocketSet<'static>) -> Map<SocketHandle, SocketState>;

/// Whether a registry was made over storage that grows, so that a socket can
/// always be added.
pub uninterp spec fn growable(sockets: SocketSet<'static>) -> bool;

/// What is observable of an ICMP socket.
pub uninterp spec fn socket_state(socket: icmp::Socket<'static>) -> SocketState;

/// `SocketSet::new` over an empty `Vec`: a registry that holds no socket and
/// grows on demand.
#[verifier::external_body]
pub(crate) fn new_registry() -> (made: SocketSet<'static>)
    ensures
        registry(made) == (Map::<SocketHandle, SocketState>::empty()),
        growable(made),
{
    SocketSet::new(Vec::new())
}

/// `icmp::Socket::new` over packet buffers of the given capacities, the
/// storage owned by the socket. The socket starts with both queues empty and
/// no waker; its transmit buffer takes any datagram that fits the payload
/// storage, provided it has a metadata slot at all. Storage beyond what one
/// allocation may hold is left out: making it would panic.
#[verifier::external_body]
pub(crate) fn new_socket(
    rx_packets: usize,
    rx_capacity: usize,
    tx_packets: usize,
    tx_capacity: usize,
) -> (socket: icmp::Socket<'static>)
    requires
        allocatable(rx_packets, rx_capacity),
        allocatable(tx_packets, tx_capacity),
    ensures
        socket_state(socket) == SocketState::fresh(
            rx_packets,
            rx_capacity,
            tx_packets,
            tx_capacity,
        ),
{
    let rx_meta = std::vec![icmp::PacketMetadata::EMPTY; rx_packets];
    let tx_meta = std::vec![icmp::PacketMetadata::EMPTY; tx_packets];
    let rx = icmp::PacketBuffer::new(rx_meta, std::vec![0u8; rx_capacity]);
    let tx = icmp::PacketBuffer::new(tx_meta, std::vec![0u8; tx_capacity]);
    icmp::Socket::new(rx, tx)
}

/// `SocketSet::add`: the socket is stored as it is, under a handle that no
/// stored socket has; the others stay. It panics only on fixed storage that is
/// full, which growable storage never is.
#[verifier::external_body]
pub(crate) fn add_socket(sockets: &mut SocketSet<'static>, socket: icmp::Socket<'static>) -> (handle:
    SocketHandle)
    requires
        growable(*old(sockets)),
    ensures
        !registry(*old(sockets)).contains_key(handle),
        registry(*final(sockets)) == registry(*old(sockets)).insert(handle, socket_state(socket)),
        growable(*final(sockets)),
{
    sockets.add(socket)
}

/// `SocketSet::remove`: the socket under the handle leaves the registry, the
/// others stay. It panics on a handle that refers to no socket.
#[verifier::external_body]
pub(crate) fn remove_socket(sockets: &mut SocketSet<'static>, handle: SocketHandle)
    requires
        registry(*old(sockets)).contains_key(handle),
    ensures
        registry(*final(sockets)) == registry(*old(sockets)).remove(handle),
        growable(*final(sockets)) == growable(*old(sockets)),
{
    sockets.remove(handle);
}

/// `SocketSet::iter`: the handles of the sockets stored. Every stored socket
/// is an ICMP socket, the one protocol the stack is built with here.
#[verifier::external_body]
pub(crate) fn stored_handles(sockets: &SocketSet<'static>) -> (stored: Vec<SocketHandle>)
    ensures
        forall|handle: SocketHandle|
            stored@.contains(handle) <==> registry(*sockets).contains_key(handle),
{
    sockets.iter().map(|(handle, socket)| match socket {
        smoltcp::socket::Socket::Icmp(_) => handle,
    }).collect()
}

/// `SocketHandle`'s `==`: two handles are equal when they name the same slot.
#[verifier::external_body]
pub(crate) fn same_handle(a: SocketHandle, b: SocketHandle) -> (same: bool)
    ensures
        same == (a == b),
{
    a == b
}

/// `SocketSet::get_mut` for an ICMP socket: a borrow of the socket under the
/// handle. What the borrower leaves in it is what the registry then holds
/// there; the other sockets stay. It panics on a handle that refers to no
/// socket, or to a socket of another protocol.
#[verifier::external_body]
pub(crate) fn socket_mut<'s>(sockets: &'s mut SocketSet<'static>, handle: SocketHandle) -> (socket:
    &'s mut icmp::Socket<'static>)
    requires
        registry(*old(sockets)).contains_key(handle),
    ensures
        socket_state(*socket) == registry(*old(sockets))[handle],
        registry(*final(sockets)) == registry(*old(sockets)).insert(
            handle,
            socket_state(*final(socket)),
        ),
        growable(*final(sockets)) == growable(*old(sockets)),
{
    sockets.get_mut::<icmp::Socket>(handle)
}

/// `icmp::Socket::recv_slice`: takes the oldest received datagram out of the
/// socket and copies it to the front of `data`. An empty queue gives
/// `Exhausted` and changes nothing. A datagram longer than `data` is dropped
/// all the same, `data` is left alone, and the result is `Truncated`.
#[verifier::external_body]
pub(crate) fn recv_slice(socket: &mut icmp::Socket<'static>, data: &mut [u8]) -> (r: Result<
    (usize, IpAddress),
    RecvError,
>)
    ensures
        r == dequeue_result(socket_state(*old(socket)), old(data)@.len()),
        socket_state(*final(socket)) == dequeue_next(socket_state(*old(socket))),
        final(data)@ == dequeue_buffer(socket_state(*old(socket)), old(data)@),
{
    match socket.recv_slice(data) {
        Ok((n, smoltcp::wire::IpAddress::Ipv4(a))) => Ok((n, IpAddress::Ipv4(a.octets()))),
        Ok((n, smoltcp::wire::IpAddress::Ipv6(a))) => Ok((n, IpAddress::Ipv6(a.octets()))),
        Err(icmp::RecvError::Exhausted) => Err(RecvError::Exhausted),
        Err(icmp::RecvError::Truncated) => Err(RecvError::Truncated),
    }
}

/// `icmp::Socket::send_slice`: enqueues `data` as one datagram for `dst`. An
/// all-zero `dst` gives `Unaddressable` and changes nothing. Whether the
/// transmit buffer takes the datagram depends on how its ring lies, but it
/// never takes one without a free metadata slot, nor one longer than its
/// payload storage. Where it takes none, the result is `BufferFull` and the
/// queue holds what it held, though the ring may have gained padding.
#[verifier::external_body]
pub(crate) fn send_slice(socket: &mut icmp::Socket<'static>, data: &[u8], dst: IpAddress) -> (r:
    Result<(), SendError>)
    ensures
        enqueued(socket_state(*old(socket)), data@, dst, r, socket_state(*final(socket))),
{
    let dst = match dst {
        IpAddress::Ipv4(octets) => smoltcp::wire::IpAddress::Ipv4(octets.into()),
        IpAddress::Ipv6(octets) => smoltcp::wire::IpAddress::Ipv6(octets.into()),
    };
    match socket.send_slice(data, dst) {
        Ok(()) => Ok(()),
        Err(icmp::SendError::Unaddressable) => Err(SendError::Unaddressable),
        Err(icmp::SendError::BufferFull) => Err(SendError::BufferFull),
    }
}

/// `icmp::Socket::send_queue`: the octets the transmit ring holds, which are
/// those of the queued datagrams and the padding between them.
#[verifier::external_body]
pub(crate) fn send_queue(socket: &icmp::Socket<'static>) -> (queued: usize)
    ensures
        queued == socket_state(*socket).tx_octets,
        queued >= total_octets(socket_state(*socket).tx),
{
    socket.send_queue()
}

/// `icmp::Socket::register_recv_waker`: leaves a waker in the receive slot,
/// in place of any that was there. Nothing else changes.
#[verifier::external_body]
pub(crate) fn register_recv_waker(socket: &mut icmp::Socket<'static>, waker: &Waker)
    ensures
        socket_state(*final(socket)) == (SocketState {
            recv_waker: true,
            ..socket_state(*old(socket))
        }),
{
    socket.register_recv_waker(waker)
}

/// `icmp::Socket::register_send_waker`: leaves a waker in the send slot, in
/// place of any that was there. Nothing else changes.
#[verifier::external_body]
pub(crate) fn register_send_waker(socket: &mut icmp::Socket<'static>, waker: &Waker)
    ensures
        socket_state(*final(socket)) == (SocketState {
            send_waker: true,
            ..socket_state(*old(socket))
        }),
{
    socket.register_send_waker(waker)
}

/// `Waker::wake`: asks the scheduler to poll the waker's task again. It
/// returns nothing and touches nothing the library holds.
#[verifier::external_body]
pub(crate) fn wake(waker: Waker) {
    waker.wake()
}

} // verus!
