//! The socket adapter: a handle into the stack's registry and the endpoint
//! the socket sends to, with the polls that receive, send and flush.

use vstd::prelude::*;
use core::task::Poll;
use core::task::Waker;
use smoltcp::iface::SocketHandle;
use crate::address::Endpoint;
use crate::address::IpAddress;
use crate::decision::flush_step;
use crate::decision::recv_step;
use crate::decision::send_step;
use crate::error::RecvError;
use crate::error::SendError;
use crate::model::dequeue_buffer;
use crate::model::flush_poll_next;
use crate::model::flush_poll_result;
use crate::model::recv_poll_next;
use crate::model::recv_poll_result;
use crate::model::send_poll;
use crate::model::total_octets;
use crate::model::SocketState;
use crate::registry::add_socket;
use crate::registry::allocatable;
use crate::registry::new_socket;
use crate::registry::recv_slice;
use crate::registry::register_recv_waker;
use crate::registry::register_send_waker;
use crate::registry::remove_socket;
use crate::registry::send_queue;
use crate::registry::send_slice;
use crate::registry::socket_mut;
use crate::stack::NetworkStack;

verus! {

/// An ICMP socket.
///
/// The socket lives in the registry of the stack it was made on, from `new`
/// until `close`; every operation takes that stack.
pub struct IcmpSocket {
    handle: SocketHandle,
    endpoint: Endpoint,
}

impl IcmpSocket {
    /// The handle the socket is registered under.
    pub closed spec fn handle(self) -> SocketHandle {
        self.handle
    }

    /// The endpoint the socket was made with.
    pub closed spec fn endpoint(self) -> Endpoint {
        self.endpoint
    }

    /// Whether `stack` holds this socket.
    pub open spec fn registered_in(self, stack: NetworkStack) -> bool {
        stack.sockets().contains_key(self.handle())
    }

    /// What `stack` holds of this socket.
    pub open spec fn state_in(self, stack: NetworkStack) -> SocketState {
        stack.sockets()[self.handle()]
    }

    /// Creates a socket with packet buffers of the given capacities and
    /// registers it on the stack. The handle is one that no registered socket
    /// has, the queues are empty, and the other sockets are untouched.
    pub fn new(
        stack: &mut NetworkStack,
        endpoint: Endpoint,
        rx_packets: usize,
        rx_capacity: usize,
        tx_packets: usize,
        tx_capacity: usize,
    ) -> (socket: Self)
        requires
            old(stack).wf(),
            allocatable(rx_packets, rx_capacity),
            allocatable(tx_packets, tx_capacity),
        ensures
            !socket.registered_in(*old(stack)),
            final(stack).sockets() == old(stack).sockets().insert(
                socket.handle(),
                SocketState::fresh(rx_packets, rx_capacity, tx_packets, tx_capacity),
            ),
            socket.endpoint() == endpoint,
            final(stack).wf(),
            final(stack).driver_registered() == old(stack).driver_registered(),
    {
        let fresh = new_socket(rx_packets, rx_capacity, tx_packets, tx_capacity);
        let handle = add_socket(stack.sockets_mut(), fresh);
        IcmpSocket { handle, endpoint }
    }

    /// Whether `stack` holds this socket, and so whether the polls and
    /// `close` may be called with it.
    pub fn is_registered(&self, stack: &NetworkStack) -> (r: bool)
        ensures
            r == self.registered_in(*stack),
    {
        stack.holds(self.handle)
    }

    /// The handle the socket is registered under, for the code that drives
    /// the interface.
    pub fn socket_handle(&self) -> (handle: SocketHandle)
        ensures
            handle == self.handle(),
    {
        self.handle
    }

    /// The endpoint the socket was made with.
    pub fn configured_endpoint(&self) -> (endpoint: Endpoint)
        ensures
            endpoint == self.endpoint(),
    {
        self.endpoint
    }

    /// Tries to receive one datagram into `buf`.
    ///
    /// With a datagram waiting, the poll is ready: with the datagram's length
    /// and source, and its octets at the front of `buf`; or, where it is
    /// longer than `buf`, with `Truncated`, `buf` untouched. Either way that
    /// datagram has left the queue. With none waiting, the poll is pending and
    /// `waker` is left to be woken on the next arrival. The driver is
    /// notified whichever happens.
    pub fn poll_recv(&self, stack: &mut NetworkStack, buf: &mut [u8], waker: &Waker) -> (r: Poll<
        Result<(usize, IpAddress), RecvError>,
    >)
        requires
            self.registered_in(*old(stack)),
        ensures
            r == recv_poll_result(self.state_in(*old(stack)), old(buf)@.len()),
            final(stack).sockets() == old(stack).sockets().insert(
                self.handle(),
                recv_poll_next(self.state_in(*old(stack))),
            ),
            final(buf)@ == dequeue_buffer(self.state_in(*old(stack)), old(buf)@),
            !final(stack).driver_registered(),
            final(stack).wf() == old(stack).wf(),
    {
        let socket = socket_mut(stack.sockets_mut(), self.handle);
        let r = recv_step(recv_slice(socket, buf));
        if let Poll::Pending = r {
            register_recv_waker(socket, waker);
        }
        stack.notify_driver();
        r
    }

    /// Tries to enqueue `buf` as one datagram for the endpoint's address.
    ///
    /// With an unspecified endpoint the poll is pending and nothing at all
    /// happens: no waker is left, so nothing will ever wake the caller. With
    /// an endpoint that names no address the poll fails with `Unaddressable`,
    /// again touching nothing. Otherwise the socket decides: the datagram
    /// joins the transmit queue and the poll is ready; or the address is
    /// all-zero and the poll fails with `Unaddressable`; or the buffer is full,
    /// the poll is pending and `waker` is left to be woken when room is made.
    /// Whenever the socket has decided, the driver is notified.
    pub fn poll_send(&self, stack: &mut NetworkStack, buf: &[u8], waker: &Waker) -> (r: Poll<
        Result<(), SendError>,
    >)
        requires
            self.registered_in(*old(stack)),
        ensures
            send_poll(
                self.endpoint(),
                self.state_in(*old(stack)),
                buf@,
                r,
                self.state_in(*final(stack)),
            ),
            final(stack).sockets() == old(stack).sockets().insert(
                self.handle(),
                self.state_in(*final(stack)),
            ),
            final(stack).wf() == old(stack).wf(),
            self.endpoint().addressed() ==> !final(stack).driver_registered(),
            !self.endpoint().addressed() ==> final(stack).driver_registered() == old(
                stack,
            ).driver_registered(),
    {
        if !self.endpoint.is_specified() {
            return Poll::Pending;
        }
        let dst = match self.endpoint.destination() {
            Some(dst) => dst,
            None => {
                return Poll::Ready(Err(SendError::Unaddressable));
            },
        };
        let socket = socket_mut(stack.sockets_mut(), self.handle);
        let r = send_step(send_slice(socket, buf, dst));
        if let Poll::Pending = r {
            register_send_waker(socket, waker);
        }
        stack.notify_driver();
        r
    }

    /// Tries to see the transmit buffer empty.
    ///
    /// The poll is ready exactly when the transmit ring holds no octet, and
    /// then no octet of any datagram sent before is still queued. Otherwise
    /// it is pending and `waker` is left to be woken as the ring drains. The
    /// driver is notified either way.
    pub fn poll_flush(&mut self, stack: &mut NetworkStack, waker: &Waker) -> (r: Poll<()>)
        requires
            old(self).registered_in(*old(stack)),
        ensures
            *final(self) == *old(self),
            r == flush_poll_result(old(self).state_in(*old(stack))),
            r == Poll::Ready(()) ==> total_octets(old(self).state_in(*old(stack)).tx) == 0,
            final(stack).sockets() == old(stack).sockets().insert(
                old(self).handle(),
                flush_poll_next(old(self).state_in(*old(stack))),
            ),
            !final(stack).driver_registered(),
            final(stack).wf() == old(stack).wf(),
    {
        let socket = socket_mut(stack.sockets_mut(), self.handle);
        let r = flush_step(send_queue(socket));
        if let Poll::Pending = r {
            register_send_waker(socket, waker);
        }
        stack.notify_driver();
        r
    }

    /// Ends the socket: takes it out of the registry, with everything it
    /// still held. The other sockets are untouched.
    pub fn close(self, stack: &mut NetworkStack)
        requires
            self.registered_in(*old(stack)),
        ensures
            final(stack).sockets() == old(stack).sockets().remove(self.handle()),
            final(stack).wf() == old(stack).wf(),
            final(stack).driver_registered() == old(stack).driver_registered(),
    {
        remove_socket(stack.sockets_mut(), self.handle);
    }
}

} // verus!
