//! The network stack as the sockets see it: the registry they live in, and
//! the waker of the task that drives the interface.
//!
//! A `&mut NetworkStack` is the exclusive access that every socket operation
//! runs under. An operation that has touched a socket ends by notifying the
//! driver, so that the interface is polled again.

use vstd::prelude::*;
use core::task::Waker;
use smoltcp::iface::SocketHandle;
use smoltcp::iface::SocketSet;
use crate::model::SocketState;
use crate::registry::growable;
use crate::registry::new_registry;
use crate::registry::registry;
use crate::registry::same_handle;
use crate::registry::stored_handles;
use crate::registry::wake;

verus! {

/// The state that all sockets of one interface share.
pub struct NetworkStack {
    sockets: SocketSet<'static>,
    driver: Option<Waker>,
}

impl NetworkStack {
    /// The sockets registered, each under its handle.
    pub closed spec fn sockets(self) -> Map<SocketHandle, SocketState> {
        registry(self.sockets)
    }

    /// Whether a socket can be registered: the registry's storage grows.
    pub closed spec fn wf(self) -> bool {
        growable(self.sockets)
    }

    /// Whether the driver has left a waker and has not been notified since.
    pub closed spec fn driver_registered(self) -> bool {
        self.driver is Some
    }

    /// A stack with no socket and no driver waiting.
    pub fn new() -> (stack: Self)
        ensures
            stack.wf(),
            stack.sockets() == (Map::<SocketHandle, SocketState>::empty()),
            !stack.driver_registered(),
    {
        NetworkStack { sockets: new_registry(), driver: None }
    }

    /// Whether a socket is registered under `handle`.
    pub fn holds(&self, handle: SocketHandle) -> (r: bool)
        ensures
            r == self.sockets().contains_key(handle),
    {
        let stored = stored_handles(&self.sockets);
        let mut i: usize = 0;
        while i < stored.len()
            invariant
                i <= stored.len(),
                forall|j: int| 0 <= j < i ==> stored@[j] != handle,
                stored@.contains(handle) <==> self.sockets().contains_key(handle),
            decreases stored.len() - i,
        {
            if same_handle(stored[i], handle) {
                assert(stored@[i as int] == handle);
                return true;
            }
            i += 1;
        }
        false
    }

    /// Leaves the driver's waker, to be woken by the next socket operation. A
    /// waker that was still waiting is woken now, so that no task is forgotten.
    pub fn register_driver(&mut self, waker: Waker)
        ensures
            final(self).driver_registered(),
            final(self).sockets() == old(self).sockets(),
            final(self).wf() == old(self).wf(),
    {
        let replaced = self.driver.take();
        self.driver = Some(waker);
        if let Some(stale) = replaced {
            wake(stale);
        }
    }

    /// Notifies the driver that socket state changed: wakes its waker, if one
    /// waits, and clears the slot.
    pub fn notify_driver(&mut self)
        ensures
            !final(self).driver_registered(),
            final(self).sockets() == old(self).sockets(),
            final(self).wf() == old(self).wf(),
    {
        if let Some(waiting) = self.driver.take() {
            wake(waiting);
        }
    }

    /// Exclusive access to the registry, for the interface to deliver and
    /// collect datagrams, and for the socket operations of this library.
    /// What the borrower leaves is what the stack then holds.
    pub fn sockets_mut(&mut self) -> (sockets: &mut SocketSet<'static>)
        ensures
            registry(*sockets) == old(self).sockets(),
            growable(*sockets) == old(self).wf(),
            final(self).sockets() == registry(*final(sockets)),
            final(self).wf() == growable(*final(sockets)),
            final(self).driver_registered() == old(self).driver_registered(),
    {
        &mut self.sockets
    }
}

} // verus!
