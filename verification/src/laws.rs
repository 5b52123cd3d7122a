//! What holds of the operations taken together, proved from the model.

use vstd::prelude::*;
use core::task::Poll;
use smoltcp::iface::SocketHandle;
use crate::address::Endpoint;
use crate::address::IpAddress;
use crate::error::RecvError;
use crate::error::SendError;
use crate::model::dequeue_buffer;
use crate::model::flush_poll_next;
use crate::model::flush_poll_result;
use crate::model::recv_poll_next;
use crate::model::recv_poll_result;
use crate::model::send_poll;
use crate::model::Datagram;
use crate::model::SocketState;

verus! {

/// A run of send polls on one socket: poll `i` takes the socket from
/// `states[i]` to `states[i + 1]`, offers `payloads[i]` and answers
/// `results[i]`.
pub open spec fn send_run(
    endpoint: Endpoint,
    states: Seq<SocketState>,
    payloads: Seq<Seq<u8>>,
    results: Seq<Poll<Result<(), SendError>>>,
) -> bool {
    &&& states.len() == results.len() + 1
    &&& payloads.len() == results.len()
    &&& forall|i: int|
        0 <= i < results.len() ==> #[trigger] send_poll(
            endpoint,
            states[i],
            payloads[i],
            results[i],
            states[i + 1],
        )
}

/// The octets of a run of payloads together.
pub open spec fn total_len(payloads: Seq<Seq<u8>>) -> nat
    decreases payloads.len(),
{
    if payloads.len() == 0 {
        0
    } else {
        total_len(payloads.drop_last()) + payloads.last().len()
    }
}

/// The payloads as datagrams for one destination, in order.
pub open spec fn datagrams_to(payloads: Seq<Seq<u8>>, dst: IpAddress) -> Seq<Datagram> {
    Seq::new(payloads.len(), |i: int| Datagram { payload: payloads[i], addr: dst })
}

/// Round trip. A send that completed has put the payload, octet for octet,
/// at the end of the sender's transmit queue, addressed to the endpoint's
/// address. Once that datagram heads a receiver's queue under the sender's
/// address, a receive into a buffer no shorter than the payload is ready with
/// the payload's length and that address, and the front of the buffer holds
/// the octets that were sent; the rest of the buffer is as it was.
pub proof fn lemma_round_trip(
    endpoint: Endpoint,
    sender: SocketState,
    payload: Seq<u8>,
    sent: SocketState,
    receiver: SocketState,
    source: IpAddress,
    buffer: Seq<u8>,
)
    requires
        send_poll(endpoint, sender, payload, Poll::Ready(Ok(())), sent),
        receiver.rx.len() > 0,
        receiver.rx[0] == (Datagram { payload: sent.tx.last().payload, addr: source }),
        payload.len() <= buffer.len() <= usize::MAX,
    ensures
        endpoint.destination_address() is Some,
        sent.tx.last() == (Datagram { payload, addr: endpoint.destination_address().unwrap() }),
        recv_poll_result(receiver, buffer.len()) == Poll::Ready(
            Ok::<(usize, IpAddress), RecvError>((payload.len() as usize, source)),
        ),
        dequeue_buffer(receiver, buffer).len() == buffer.len(),
        dequeue_buffer(receiver, buffer).subrange(0, payload.len() as int) == payload,
        dequeue_buffer(receiver, buffer).skip(payload.len() as int) == buffer.skip(
            payload.len() as int,
        ),
        recv_poll_next(receiver).rx == receiver.rx.drop_first(),
{
}

/// Truncation. With a datagram waiting that is longer than the buffer, a
/// receive is ready with `Truncated`, never pending, and the datagram is
/// gone. The socket stays usable: the next receive, into a buffer that fits
/// the datagram behind it, is ready with that datagram.
pub proof fn lemma_truncation_then_next(receiver: SocketState, small: Seq<u8>, large: Seq<u8>)
    requires
        receiver.rx.len() >= 2,
        small.len() < receiver.rx[0].payload.len(),
        receiver.rx[1].payload.len() <= large.len() <= usize::MAX,
    ensures
        recv_poll_result(receiver, small.len()) == Poll::Ready(
            Err::<(usize, IpAddress), RecvError>(RecvError::Truncated),
        ),
        dequeue_buffer(receiver, small) == small,
        recv_poll_next(receiver).rx == receiver.rx.drop_first(),
        recv_poll_result(recv_poll_next(receiver), large.len()) == Poll::Ready(
            Ok::<(usize, IpAddress), RecvError>(
                (receiver.rx[1].payload.len() as usize, receiver.rx[1].addr),
            ),
        ),
        dequeue_buffer(recv_poll_next(receiver), large).subrange(
            0,
            receiver.rx[1].payload.len() as int,
        ) == receiver.rx[1].payload,
{
}

/// An unspecified endpoint never sends. However many send polls are made,
/// each one is pending, and the socket is as it was before the first: no
/// datagram is queued and no waker is left that could end the wait.
pub proof fn lemma_unspecified_endpoint_never_sends(
    endpoint: Endpoint,
    states: Seq<SocketState>,
    payloads: Seq<Seq<u8>>,
    results: Seq<Poll<Result<(), SendError>>>,
)
    requires
        !endpoint.specified(),
        send_run(endpoint, states, payloads, results),
    ensures
        forall|i: int| 0 <= i < results.len() ==> results[i] == Poll::<Result<(), SendError>>::Pending,
        forall|i: int| 0 <= i < states.len() ==> (#[trigger] states[i]) == states[0],
    decreases results.len(),
{
    if results.len() > 0 {
        let last = results.len() - 1;
        assert(send_poll(
            endpoint,
            states[last],
            payloads[last],
            results[last],
            states[last + 1],
        ));
        assert(send_run(endpoint, states.drop_last(), payloads.drop_last(), results.drop_last()))
            by {
            assert forall|i: int| 0 <= i < results.drop_last().len() implies #[trigger] send_poll(
                endpoint,
                states.drop_last()[i],
                payloads.drop_last()[i],
                results.drop_last()[i],
                states.drop_last()[i + 1],
            ) by {
                assert(send_poll(endpoint, states[i], payloads[i], results[i], states[i + 1]));
            }
        }
        lemma_unspecified_endpoint_never_sends(
            endpoint,
            states.drop_last(),
            payloads.drop_last(),
            results.drop_last(),
        );
        assert forall|i: int| 0 <= i < results.len() implies results[i] == Poll::<
            Result<(), SendError>,
        >::Pending by {
            if i < last {
                assert(results[i] == results.drop_last()[i]);
            }
        }
        assert forall|i: int| 0 <= i < states.len() implies (#[trigger] states[i]) == states[0] by {
            if i <= last {
                assert(states[i] == states.drop_last()[i]);
                assert(states[0] == states.drop_last()[0]);
            } else {
                assert(states[last] == states.drop_last()[last]);
                assert(states[0] == states.drop_last()[0]);
            }
        }
    }
}

/// A datagram longer than the transmit storage never sends. Whatever else is
/// sent in between, each poll that offers such a datagram is pending, or fails
/// for want of an address; it does not complete.
pub proof fn lemma_oversized_datagram_never_sends(
    endpoint: Endpoint,
    states: Seq<SocketState>,
    payloads: Seq<Seq<u8>>,
    results: Seq<Poll<Result<(), SendError>>>,
    i: int,
)
    requires
        send_run(endpoint, states, payloads, results),
        0 <= i < results.len(),
        payloads[i].len() > states[0].limits.tx_capacity,
    ensures
        states[i].limits == states[0].limits,
        results[i] != Poll::Ready(Ok::<(), SendError>(())),
{
    assert(send_poll(endpoint, states[i], payloads[i], results[i], states[i + 1]));
    lemma_limits_never_change(endpoint, states, payloads, results, i);
}

/// The limits of a socket stay what they were made, through any run of sends.
pub proof fn lemma_limits_never_change(
    endpoint: Endpoint,
    states: Seq<SocketState>,
    payloads: Seq<Seq<u8>>,
    results: Seq<Poll<Result<(), SendError>>>,
    i: int,
)
    requires
        send_run(endpoint, states, payloads, results),
        0 <= i < states.len(),
    ensures
        states[i].limits == states[0].limits,
    decreases i,
{
    if i > 0 {
        let before = i - 1;
        assert(send_poll(
            endpoint,
            states[before],
            payloads[before],
            results[before],
            states[before + 1],
        ));
        lemma_limits_never_change(endpoint, states, payloads, results, before);
    }
}

/// Flush waits for every send. After a run of sends that all completed, the
/// transmit queue is the queue from before with one datagram for each, in
/// order, and the transmit ring holds at least the octets from before and
/// those of every payload. So a flush poll is pending while any of these
/// octets is queued: it is ready only when the ring holds none.
pub proof fn lemma_flush_waits_for_every_send(
    endpoint: Endpoint,
    states: Seq<SocketState>,
    payloads: Seq<Seq<u8>>,
    results: Seq<Poll<Result<(), SendError>>>,
)
    requires
        send_run(endpoint, states, payloads, results),
        forall|i: int| 0 <= i < results.len() ==> results[i] == Poll::Ready(Ok::<(), SendError>(())),
    ensures
        results.len() > 0 ==> endpoint.destination_address() is Some,
        results.len() > 0 ==> states.last().tx == states[0].tx + datagrams_to(
            payloads,
            endpoint.destination_address().unwrap(),
        ),
        states.last().tx_octets >= states[0].tx_octets + total_len(payloads),
        total_len(payloads) > 0 ==> flush_poll_result(states.last()) == Poll::<()>::Pending,
        flush_poll_result(states.last()) == Poll::Ready(()) <==> states.last().tx_octets == 0,
    decreases results.len(),
{
    if results.len() > 0 {
        let last = results.len() - 1;
        let dst = endpoint.destination_address().unwrap();
        assert(send_poll(
            endpoint,
            states[last],
            payloads[last],
            results[last],
            states[last + 1],
        ));
        assert(results[last] == Poll::Ready(Ok::<(), SendError>(())));
        assert(send_run(endpoint, states.drop_last(), payloads.drop_last(), results.drop_last()))
            by {
            assert forall|i: int| 0 <= i < results.drop_last().len() implies #[trigger] send_poll(
                endpoint,
                states.drop_last()[i],
                payloads.drop_last()[i],
                results.drop_last()[i],
                states.drop_last()[i + 1],
            ) by {
                assert(send_poll(endpoint, states[i], payloads[i], results[i], states[i + 1]));
            }
        }
        assert forall|i: int| 0 <= i < results.drop_last().len() implies results.drop_last()[i]
            == Poll::Ready(Ok::<(), SendError>(())) by {
            assert(results.drop_last()[i] == results[i]);
        }
        lemma_flush_waits_for_every_send(
            endpoint,
            states.drop_last(),
            payloads.drop_last(),
            results.drop_last(),
        );
        assert(states.drop_last().last() == states[last]);
        assert(states.drop_last()[0] == states[0]);
        assert(states.last() == states[last + 1]);
        assert(states.last().tx == states[0].tx + datagrams_to(payloads, dst)) by {
            if last > 0 {
                assert(states[last].tx == states[0].tx + datagrams_to(payloads.drop_last(), dst));
            } else {
                assert(datagrams_to(payloads.drop_last(), dst) =~= Seq::<Datagram>::empty());
                assert(states[last].tx =~= states[0].tx + datagrams_to(payloads.drop_last(), dst));
            }
            assert(datagrams_to(payloads, dst) =~= datagrams_to(payloads.drop_last(), dst).push(
                Datagram { payload: payloads[last], addr: dst },
            ));
            assert(states.last().tx =~= states[0].tx + datagrams_to(payloads, dst));
        }
    }
}

/// Cleanup. Once a socket is closed its handle refers to nothing. A socket
/// opened afterwards, under whatever handle, the closed one's too, starts
/// with both queues empty and an empty transmit ring: nothing the earlier
/// socket held is seen through it. Sockets under other handles are as they were.
pub proof fn lemma_reopened_slot_is_clean(
    sockets: Map<SocketHandle, SocketState>,
    closed: SocketHandle,
    opened: SocketHandle,
    other: SocketHandle,
    rx_packets: usize,
    rx_capacity: usize,
    tx_packets: usize,
    tx_capacity: usize,
)
    requires
        sockets.contains_key(closed),
        !sockets.remove(closed).contains_key(opened),
    ensures
        !sockets.remove(closed).contains_key(closed),
        ({
            let reopened = sockets.remove(closed).insert(
                opened,
                SocketState::fresh(rx_packets, rx_capacity, tx_packets, tx_capacity),
            );
            &&& reopened[opened].rx == Seq::<Datagram>::empty()
            &&& reopened[opened].tx == Seq::<Datagram>::empty()
            &&& reopened[opened].tx_octets == 0
            &&& recv_poll_result(reopened[opened], 0) == Poll::<
                Result<(usize, IpAddress), RecvError>,
            >::Pending
            &&& flush_poll_result(reopened[opened]) == Poll::Ready(())
            &&& other != closed && other != opened ==> (reopened.contains_key(other)
                <==> sockets.contains_key(other)) && reopened[other] == sockets[other]
        }),
{
}

/// Cancelling a receive is harmless. A receive poll that was pending has
/// changed nothing but the waker slot, and no receive looks at the waker
/// slots: on two sockets with the same receive queue, such as one socket
/// with and without an abandoned poll behind it, a receive gives the same
/// result, fills the buffer alike and leaves the same queue.
pub proof fn lemma_cancelled_recv_is_harmless(
    pre: SocketState,
    abandoned: Seq<u8>,
    later: SocketState,
    undisturbed: SocketState,
    buffer: Seq<u8>,
)
    requires
        recv_poll_result(pre, abandoned.len()) == Poll::<
            Result<(usize, IpAddress), RecvError>,
        >::Pending,
        later.rx == undisturbed.rx,
    ensures
        recv_poll_next(pre) == (SocketState { recv_waker: true, ..pre }),
        dequeue_buffer(pre, abandoned) == abandoned,
        recv_poll_result(later, buffer.len()) == recv_poll_result(undisturbed, buffer.len()),
        dequeue_buffer(later, buffer) == dequeue_buffer(undisturbed, buffer),
        recv_poll_next(later).rx == recv_poll_next(undisturbed).rx,
{
}

/// Cancelling a send is harmless. A send poll that was pending has left both
/// queues as they were. A send poll made after it that completes puts its
/// own payload, and nothing of the abandoned one, at the end of that queue.
pub proof fn lemma_cancelled_send_is_harmless(
    endpoint: Endpoint,
    pre: SocketState,
    abandoned: Seq<u8>,
    mid: SocketState,
    payload: Seq<u8>,
    post: SocketState,
)
    requires
        send_poll(endpoint, pre, abandoned, Poll::Pending, mid),
        send_poll(endpoint, mid, payload, Poll::Ready(Ok(())), post),
    ensures
        mid.tx == pre.tx,
        mid.rx == pre.rx,
        endpoint.destination_address() is Some,
        post.tx == pre.tx.push(
            Datagram { payload, addr: endpoint.destination_address().unwrap() },
        ),
        post.rx == pre.rx,
{
}

/// Cancelling a flush is harmless. A flush poll changes nothing but the
/// waker slot, and its answer does not look at it.
pub proof fn lemma_cancelled_flush_is_harmless(pre: SocketState)
    ensures
        flush_poll_next(pre).tx == pre.tx,
        flush_poll_next(pre).rx == pre.rx,
        flush_poll_next(pre).tx_octets == pre.tx_octets,
        flush_poll_result(flush_poll_next(pre)) == flush_poll_result(pre),
{
}

} // verus!
