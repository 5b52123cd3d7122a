//! The conditions a receive or a send can end in.

use vstd::prelude::*;

verus! {

/// Why a receive did not hand out a datagram.
#[derive(PartialEq, Eq, Clone, Copy, Debug)]
pub enum RecvError {
    /// No datagram is waiting.
    Exhausted,
    /// The datagram at the head was longer than the buffer offered, and has been dropped.
    Truncated,
}

/// Why a send did not enqueue its datagram.
#[derive(PartialEq, Eq, Clone, Copy, Debug)]
pub enum SendError {
    /// No destination address can be had for the datagram.
    Unaddressable,
    /// The transmit buffer has no room for the datagram now.
    BufferFull,
}

} // verus!
