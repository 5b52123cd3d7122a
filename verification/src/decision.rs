//! What a poll answers to what the socket returned. These are the decisions
//! of the three operations, taken apart from the socket so that they can be
//! held to every outcome.

use vstd::prelude::*;
use core::task::Poll;
use crate::address::IpAddress;
use crate::error::RecvError;
use crate::error::SendError;
use crate::model::flush_verdict;
use crate::model::recv_verdict;
use crate::model::send_verdict;

verus! {

/// The answer of a receive poll: a datagram or a truncation ends the
/// operation with that result; an empty queue suspends it.
pub fn recv_step(outcome: Result<(usize, IpAddress), RecvError>) -> (r: Poll<
    Result<(usize, IpAddress), RecvError>,
>)
    ensures
        r == recv_verdict(outcome),
{
    match outcome {
        Ok(received) => Poll::Ready(Ok(received)),
        Err(RecvError::Truncated) => Poll::Ready(Err(RecvError::Truncated)),
        Err(RecvError::Exhausted) => Poll::Pending,
    }
}

/// The answer of a send poll: an enqueued datagram ends the operation, and so
/// does a destination that cannot be addressed; a full buffer suspends it.
pub fn send_step(outcome: Result<(), SendError>) -> (r: Poll<Result<(), SendError>>)
    ensures
        r == send_verdict(outcome),
{
    match outcome {
        Ok(()) => Poll::Ready(Ok(())),
        Err(SendError::Unaddressable) => Poll::Ready(Err(SendError::Unaddressable)),
        Err(SendError::BufferFull) => Poll::Pending,
    }
}

/// The answer of a flush poll: done once no octet is queued for transmission.
pub fn flush_step(queued: usize) -> (r: Poll<()>)
    ensures
        r == flush_verdict(queued as nat),
{
    if queued == 0 {
        Poll::Ready(())
    } else {
        Poll::Pending
    }
}

} // verus!
