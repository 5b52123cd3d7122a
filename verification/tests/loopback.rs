use std::sync::Arc;
use std::sync::Mutex;
use std::task::Poll;
use std::task::Wake;
use std::task::Waker;

use icmp_socket::Endpoint;
use icmp_socket::IcmpSocket;
use icmp_socket::IpAddress;
use icmp_socket::ListenEndpoint;
use icmp_socket::NetworkStack;
use icmp_socket::RecvError;
use smoltcp::iface::Config;
use smoltcp::iface::Interface;
use smoltcp::phy::ChecksumCapabilities;
use smoltcp::phy::Loopback;
use smoltcp::phy::Medium;
use smoltcp::time::Instant;
use smoltcp::wire::HardwareAddress;
use smoltcp::wire::Icmpv4Packet;
use smoltcp::wire::Icmpv4Repr;
use smoltcp::wire::IpCidr;

const IDENT: u16 = 0x22b;
const LOCALHOST: IpAddress = IpAddress::Ipv4([127, 0, 0, 1]);

struct Count(Mutex<usize>);

impl Wake for Count {
    fn wake(self: Arc<Self>) {
        *self.0.lock().unwrap() += 1;
    }
}

fn counting_waker() -> (Arc<Count>, Waker) {
    let count = Arc::new(Count(Mutex::new(0)));
    (count.clone(), Waker::from(count))
}

fn woken(count: &Arc<Count>) -> usize {
    *count.0.lock().unwrap()
}

struct Net {
    iface: Interface,
    device: Loopback,
    stack: NetworkStack,
}

impl Net {
    fn new() -> Net {
        let mut device = Loopback::new(Medium::Ip);
        let config = Config::new(HardwareAddress::Ip);
        let mut iface = Interface::new(config, &mut device, Instant::from_millis(0));
        iface.update_ip_addrs(|addrs| {
            addrs.push(IpCidr::new(smoltcp::wire::IpAddress::v4(127, 0, 0, 1), 8)).unwrap();
        });
        Net { iface, device, stack: NetworkStack::new() }
    }

    /// Lets the interface move what is queued, until nothing moves any more.
    fn settle(&mut self) {
        for round in 0..8 {
            let now = Instant::from_millis(round);
            self.iface.poll(now, &mut self.device, self.stack.sockets_mut());
        }
    }

    fn sender(&mut self, packets: usize, capacity: usize) -> IcmpSocket {
        let endpoint = Endpoint::Udp(ListenEndpoint { addr: Some(LOCALHOST), port: 7 });
        IcmpSocket::new(&mut self.stack, endpoint, 1, 64, packets, capacity)
    }

    fn receiver(&mut self, packets: usize, capacity: usize) -> IcmpSocket {
        let socket =
            IcmpSocket::new(&mut self.stack, Endpoint::Ident(IDENT), packets, capacity, 1, 64);
        let handle = socket.socket_handle();
        self.stack
            .sockets_mut()
            .get_mut::<smoltcp::socket::icmp::Socket>(handle)
            .bind(smoltcp::socket::icmp::Endpoint::Ident(IDENT))
            .unwrap();
        socket
    }
}

fn echo_request(seq_no: u16, data: &[u8]) -> Vec<u8> {
    let repr = Icmpv4Repr::EchoRequest { ident: IDENT, seq_no, data };
    let mut bytes = vec![0u8; repr.buffer_len()];
    repr.emit(&mut Icmpv4Packet::new_unchecked(&mut bytes[..]), &ChecksumCapabilities::default());
    bytes
}

fn echo_reply(seq_no: u16, data: &[u8]) -> Vec<u8> {
    let repr = Icmpv4Repr::EchoReply { ident: IDENT, seq_no, data };
    let mut bytes = vec![0u8; repr.buffer_len()];
    repr.emit(&mut Icmpv4Packet::new_unchecked(&mut bytes[..]), &ChecksumCapabilities::default());
    bytes
}

#[test]
fn datagram_sent_on_one_socket_arrives_on_its_peer() {
    let (_, waker) = counting_waker();
    let mut net = Net::new();
    let sender = net.sender(4, 256);
    let receiver = net.receiver(4, 256);
    let request = echo_request(1, b"round trip");
    assert_eq!(request.len(), 18);

    assert_eq!(sender.poll_send(&mut net.stack, &request, &waker), Poll::Ready(Ok(())));
    let mut buf = [0x55u8; 64];
    assert_eq!(receiver.poll_recv(&mut net.stack, &mut buf, &waker), Poll::Pending);
    net.settle();

    assert_eq!(
        receiver.poll_recv(&mut net.stack, &mut buf, &waker),
        Poll::Ready(Ok((18, LOCALHOST)))
    );
    assert_eq!(&buf[..18], &request[..]);
    assert_eq!(&buf[18..], &[0x55u8; 46][..]);
}

#[test]
fn round_trip_keeps_every_length_up_to_the_buffer() {
    let (_, waker) = counting_waker();
    let mut net = Net::new();
    let sender = net.sender(1, 64);
    let receiver = net.receiver(2, 128);
    let data = [0xc3u8; 40];
    for len in 0..=40usize {
        let request = echo_request(7, &data[..len]);
        let reply = echo_reply(7, &data[..len]);
        assert_eq!(sender.poll_send(&mut net.stack, &request, &waker), Poll::Ready(Ok(())));
        net.settle();

        let mut exact = vec![0u8; request.len()];
        assert_eq!(
            receiver.poll_recv(&mut net.stack, &mut exact, &waker),
            Poll::Ready(Ok((request.len(), LOCALHOST)))
        );
        assert_eq!(exact, request);

        let mut wide = [0u8; 64];
        assert_eq!(
            receiver.poll_recv(&mut net.stack, &mut wide, &waker),
            Poll::Ready(Ok((reply.len(), LOCALHOST)))
        );
        assert_eq!(&wide[..reply.len()], &reply[..]);
        assert_eq!(receiver.poll_recv(&mut net.stack, &mut wide, &waker), Poll::Pending);
    }
}

#[test]
fn short_buffer_truncates_and_the_next_datagram_still_arrives() {
    let (_, waker) = counting_waker();
    let mut net = Net::new();
    let sender = net.sender(4, 256);
    let receiver = net.receiver(8, 256);
    let first = echo_request(1, &[0x11u8; 20]);
    let second = echo_request(2, &[0x22u8; 4]);
    assert_eq!(sender.poll_send(&mut net.stack, &first, &waker), Poll::Ready(Ok(())));
    net.settle();
    assert_eq!(sender.poll_send(&mut net.stack, &second, &waker), Poll::Ready(Ok(())));
    net.settle();

    // The interface answers each echo request, so the queue holds the first
    // request, its reply, the second request and its reply.
    let mut short = [0x55u8; 27];
    assert_eq!(
        receiver.poll_recv(&mut net.stack, &mut short, &waker),
        Poll::Ready(Err(RecvError::Truncated))
    );
    assert_eq!(short, [0x55u8; 27]);
    assert_eq!(
        receiver.poll_recv(&mut net.stack, &mut short, &waker),
        Poll::Ready(Err(RecvError::Truncated))
    );
    assert_eq!(short, [0x55u8; 27]);

    let mut fitting = [0x55u8; 12];
    assert_eq!(
        receiver.poll_recv(&mut net.stack, &mut fitting, &waker),
        Poll::Ready(Ok((12, LOCALHOST)))
    );
    assert_eq!(&fitting[..], &second[..]);
}

#[test]
fn buffer_of_exactly_the_datagram_length_is_enough() {
    let (_, waker) = counting_waker();
    let mut net = Net::new();
    let sender = net.sender(4, 256);
    let receiver = net.receiver(8, 256);
    let request = echo_request(1, &[0x11u8; 20]);
    assert_eq!(sender.poll_send(&mut net.stack, &request, &waker), Poll::Ready(Ok(())));
    net.settle();
    let mut buf = [0u8; 28];
    assert_eq!(
        receiver.poll_recv(&mut net.stack, &mut buf, &waker),
        Poll::Ready(Ok((28, LOCALHOST)))
    );
    assert_eq!(&buf[..], &request[..]);
}

#[test]
fn recv_takes_one_datagram_at_a_time_in_order() {
    let (_, waker) = counting_waker();
    let mut net = Net::new();
    let sender = net.sender(4, 256);
    let receiver = net.receiver(8, 256);
    let first = echo_request(1, b"one");
    let second = echo_request(2, b"second");
    assert_eq!(sender.poll_send(&mut net.stack, &first, &waker), Poll::Ready(Ok(())));
    net.settle();
    assert_eq!(sender.poll_send(&mut net.stack, &second, &waker), Poll::Ready(Ok(())));
    net.settle();

    // The interface answers each echo request, and the answer arrives too.
    let mut buf = [0u8; 64];
    let expected = [first, echo_reply(1, b"one"), second, echo_reply(2, b"second")];
    for datagram in expected.iter() {
        assert_eq!(
            receiver.poll_recv(&mut net.stack, &mut buf, &waker),
            Poll::Ready(Ok((datagram.len(), LOCALHOST)))
        );
        assert_eq!(&buf[..datagram.len()], &datagram[..]);
    }
    assert_eq!(receiver.poll_recv(&mut net.stack, &mut buf, &waker), Poll::Pending);
}

#[test]
fn pending_recv_is_woken_by_an_arrival() {
    let (_, waker) = counting_waker();
    let (recv_count, recv_waker) = counting_waker();
    let mut net = Net::new();
    let sender = net.sender(4, 256);
    let receiver = net.receiver(4, 256);
    let mut buf = [0u8; 64];
    assert_eq!(receiver.poll_recv(&mut net.stack, &mut buf, &recv_waker), Poll::Pending);
    net.settle();
    assert_eq!(woken(&recv_count), 0);

    let request = echo_request(1, b"wake");
    assert_eq!(sender.poll_send(&mut net.stack, &request, &waker), Poll::Ready(Ok(())));
    net.settle();
    assert_eq!(woken(&recv_count), 1);
    assert_eq!(
        receiver.poll_recv(&mut net.stack, &mut buf, &recv_waker),
        Poll::Ready(Ok((request.len(), LOCALHOST)))
    );
}

#[test]
fn abandoned_recv_does_not_disturb_the_next_one() {
    let (_, waker) = counting_waker();
    let (stale_count, stale) = counting_waker();
    let (live_count, live) = counting_waker();
    let mut net = Net::new();
    let sender = net.sender(4, 256);
    let receiver = net.receiver(4, 256);

    let mut abandoned = [0x55u8; 64];
    assert_eq!(receiver.poll_recv(&mut net.stack, &mut abandoned, &stale), Poll::Pending);
    let mut buf = [0u8; 64];
    assert_eq!(receiver.poll_recv(&mut net.stack, &mut buf, &live), Poll::Pending);

    let request = echo_request(9, b"after cancel");
    assert_eq!(sender.poll_send(&mut net.stack, &request, &waker), Poll::Ready(Ok(())));
    net.settle();
    assert_eq!(woken(&stale_count), 0);
    assert_eq!(woken(&live_count), 1);
    assert_eq!(
        receiver.poll_recv(&mut net.stack, &mut buf, &live),
        Poll::Ready(Ok((request.len(), LOCALHOST)))
    );
    assert_eq!(&buf[..request.len()], &request[..]);
    assert_eq!(abandoned, [0x55u8; 64]);
}

#[test]
fn abandoned_send_leaves_no_trace_in_the_queue() {
    let (_, waker) = counting_waker();
    let (stale_count, stale) = counting_waker();
    let mut net = Net::new();
    let sender = net.sender(1, 64);
    let receiver = net.receiver(8, 256);
    let first = echo_request(1, b"first");
    let abandoned = echo_request(2, b"abandoned");
    let third = echo_request(3, b"third");

    assert_eq!(sender.poll_send(&mut net.stack, &first, &waker), Poll::Ready(Ok(())));
    assert_eq!(sender.poll_send(&mut net.stack, &abandoned, &stale), Poll::Pending);
    net.settle();
    assert_eq!(woken(&stale_count), 1);
    assert_eq!(sender.poll_send(&mut net.stack, &third, &waker), Poll::Ready(Ok(())));
    net.settle();

    let mut buf = [0u8; 64];
    let expected = [first, echo_reply(1, b"first"), third, echo_reply(3, b"third")];
    for datagram in expected.iter() {
        assert_eq!(
            receiver.poll_recv(&mut net.stack, &mut buf, &waker),
            Poll::Ready(Ok((datagram.len(), LOCALHOST)))
        );
        assert_eq!(&buf[..datagram.len()], &datagram[..]);
    }
    assert_eq!(receiver.poll_recv(&mut net.stack, &mut buf, &waker), Poll::Pending);
}

#[test]
fn flush_waits_until_every_datagram_has_left() {
    let (_, waker) = counting_waker();
    let (flush_count, flush_waker) = counting_waker();
    let mut net = Net::new();
    let mut sender = net.sender(4, 256);
    for seq_no in 1..=3u16 {
        let request = echo_request(seq_no, b"queued");
        assert_eq!(sender.poll_send(&mut net.stack, &request, &waker), Poll::Ready(Ok(())));
        assert_eq!(sender.poll_flush(&mut net.stack, &flush_waker), Poll::Pending);
    }
    assert_eq!(woken(&flush_count), 0);
    net.settle();
    assert!(woken(&flush_count) >= 1);
    assert_eq!(sender.poll_flush(&mut net.stack, &flush_waker), Poll::Ready(()));
}

#[test]
fn closed_receiver_leaves_nothing_for_the_socket_in_its_slot() {
    let (_, waker) = counting_waker();
    let mut net = Net::new();
    let sender = net.sender(4, 256);
    let receiver = net.receiver(4, 256);
    let slot = receiver.socket_handle();
    let request = echo_request(1, b"left behind");
    assert_eq!(sender.poll_send(&mut net.stack, &request, &waker), Poll::Ready(Ok(())));
    net.settle();
    receiver.close(&mut net.stack);

    let reopened = net.receiver(4, 256);
    assert_eq!(reopened.socket_handle(), slot);
    let mut buf = [0x55u8; 64];
    assert_eq!(reopened.poll_recv(&mut net.stack, &mut buf, &waker), Poll::Pending);
    assert_eq!(buf, [0x55u8; 64]);

    let fresh = echo_request(2, b"fresh");
    assert_eq!(sender.poll_send(&mut net.stack, &fresh, &waker), Poll::Ready(Ok(())));
    net.settle();
    assert_eq!(
        reopened.poll_recv(&mut net.stack, &mut buf, &waker),
        Poll::Ready(Ok((fresh.len(), LOCALHOST)))
    );
    assert_eq!(&buf[..fresh.len()], &fresh[..]);
}
