use redbpf_probes::buf::{NetBuf, RawBuf};
use redbpf_probes::error::Error;
use redbpf_probes::layer2::{Ethernet, L2Proto};
use redbpf_probes::layer3::{Ipv4, L3Proto};
use redbpf_probes::layer4::{L4Proto, Tcp, Udp};
use redbpf_probes::net::{FromBytes, Packet};
use redbpf_probes::protocols;
use redbpf_probes::socket::{SkBuff, SkBuffMeta};
use redbpf_probes::xdp::{XdpContext, XdpMd};

const BASE: u32 = 0x4000;

fn context(data: u32, packet: Vec<u8>) -> XdpContext {
    let md = XdpMd {
        data,
        data_end: data + packet.len() as u32,
        data_meta: data,
        ingress_ifindex: 1,
        rx_queue_index: 0,
    };
    XdpContext::new(md, packet).unwrap()
}

/// An Ethernet header with the given EtherType, then an IPv4 header without
/// options with the given protocol number, then `rest`.
fn frame(ether_type: u16, protocol: u8, rest: &[u8]) -> Vec<u8> {
    let mut p = vec![
        0x02, 0x00, 0x00, 0x00, 0x00, 0x01, // destination
        0x02, 0x00, 0x00, 0x00, 0x00, 0x02, // source
        (ether_type >> 8) as u8, ether_type as u8,
        0x45, 0x00, 0x00, 0x28, // version and length, service, total length
        0xab, 0xcd, 0x40, 0x00, // identification, flags and fragment offset
        0x40, protocol, 0x12, 0x34, // time to live, protocol, checksum
        192, 168, 1, 2, // source address
        10, 0, 0, 1, // destination address
    ];
    p.extend_from_slice(rest);
    p
}

fn tcp_header() -> Vec<u8> {
    vec![
        0x1f, 0x90, 0x00, 0x50, // ports 8080 and 80
        0x00, 0x00, 0x00, 0x01, // sequence number
        0x00, 0x00, 0x00, 0x00, // acknowledgement number
        0x50, 0x02, 0xff, 0xff, // data offset 5, SYN, window
        0x00, 0x00, 0x00, 0x00, // checksum, urgent pointer
    ]
}

fn udp_header() -> Vec<u8> {
    vec![0x00, 0x35, 0xc0, 0x00, 0x00, 0x0c, 0xbe, 0xef]
}

#[test]
fn ethernet_frame_with_ipv4_parses_to_ipv4() {
    let mut ctx = context(BASE, frame(0x0800, 6, &tcp_header()));
    let eth = Ethernet::from_bytes(ctx.data()).unwrap();
    assert_eq!(eth.proto(), 0x0800);
    match L2Proto::Ethernet(eth).parse() {
        Ok(L3Proto::Ipv4(ip)) => {
            assert_eq!(ip.protocol(), 6);
            assert_eq!(ip.hdr, BASE as usize + 14);
        }
        _ => panic!("an IPv4 header was expected"),
    }
}

#[test]
fn ethernet_frame_with_ipv6_is_unimplemented() {
    let mut ctx = context(BASE, frame(0x86dd, 6, &tcp_header()));
    let eth = Ethernet::from_bytes(ctx.data()).unwrap();
    assert_eq!(eth.proto(), 0x86dd);
    let r = L2Proto::Ethernet(eth).parse();
    assert!(matches!(r, Err(Error::UnimplementedProtocol(0x86dd))));
}

#[test]
fn ethernet_parse_is_the_same_on_the_header_and_on_the_enum() {
    let mut ctx = context(BASE, frame(0x0806, 6, &[]));
    let eth = Ethernet::from_bytes(ctx.data()).unwrap();
    assert!(matches!(eth.parse(), Err(Error::UnimplementedProtocol(0x0806))));
    let eth = Ethernet::from_bytes(ctx.data()).unwrap();
    assert!(matches!(eth.parse(), Err(Error::UnimplementedProtocol(0x0806))));
}

#[test]
fn walk_advances_the_cursor_by_the_size_of_each_header() {
    let mut ctx = context(BASE, frame(0x0800, 6, &tcp_header()));
    let buf = ctx.data();
    assert_eq!(buf.offset(), 0);
    let eth = Ethernet::from_bytes(buf).unwrap();
    assert_eq!(eth.offset(), 14);
    let ip = match eth.parse() {
        Ok(L3Proto::Ipv4(ip)) => ip,
        _ => panic!("an IPv4 header was expected"),
    };
    assert_eq!(ip.offset(), 34);
    match ip.parse() {
        Ok(L4Proto::Tcp(tcp)) => {
            assert_eq!(tcp.offset(), 54);
            assert_eq!(tcp.source(), 8080);
            assert_eq!(tcp.dest(), 80);
        }
        _ => panic!("a TCP header was expected"),
    }
}

#[test]
fn protocol_17_parses_to_udp() {
    let mut ctx = context(BASE, frame(0x0800, 17, &udp_header()));
    let eth = Ethernet::from_bytes(ctx.data()).unwrap();
    let l3 = eth.parse().ok().unwrap();
    assert_eq!(l3.offset(), 34);
    match l3.parse() {
        Ok(L4Proto::Udp(udp)) => {
            assert_eq!(udp.offset(), 42);
            assert_eq!(udp.source(), 53);
            assert_eq!(udp.dest(), 0xc000);
            assert_eq!(udp.len(), 12);
            assert_eq!(udp.check(), 0xbeef);
        }
        _ => panic!("a UDP header was expected"),
    }
}

#[test]
fn protocol_1_is_unimplemented() {
    let mut ctx = context(BASE, frame(0x0800, 1, &[]));
    assert_eq!(RawBuf::len(&ctx), 34);
    let eth = Ethernet::from_bytes(ctx.data()).unwrap();
    let l3 = eth.parse().ok().unwrap();
    assert_eq!(l3.offset(), 34);
    assert!(matches!(l3.parse(), Err(Error::UnimplementedProtocol(1))));
}

#[test]
fn headers_alone_leave_no_room_for_layer_4() {
    // 14 + 20 bytes: both headers parse, the cursor reaches 34, and the TCP
    // or UDP header that the protocol number announces does not fit.
    for protocol in [6u8, 17] {
        let mut ctx = context(BASE, frame(0x0800, protocol, &[]));
        let eth = Ethernet::from_bytes(ctx.data()).unwrap();
        assert_eq!(eth.offset(), 14);
        let ip = match eth.parse() {
            Ok(L3Proto::Ipv4(ip)) => ip,
            _ => panic!("an IPv4 header was expected"),
        };
        assert_eq!(ip.offset(), 34);
        assert_eq!(ip.len(), 0);
        assert!(matches!(ip.parse(), Err(Error::OutOfBounds)));
    }
}

#[test]
fn truncated_headers_are_out_of_bounds() {
    let whole = frame(0x0800, 6, &tcp_header());
    for len in 0..14 {
        let mut ctx = context(BASE, whole[..len].to_vec());
        assert!(matches!(Ethernet::from_bytes(ctx.data()), Err(Error::OutOfBounds)));
    }
    for len in 14..34 {
        let mut ctx = context(BASE, whole[..len].to_vec());
        let eth = Ethernet::from_bytes(ctx.data()).unwrap();
        assert!(matches!(eth.parse(), Err(Error::OutOfBounds)), "length {}", len);
    }
    for len in 34..54 {
        let mut ctx = context(BASE, whole[..len].to_vec());
        let eth = Ethernet::from_bytes(ctx.data()).unwrap();
        let l3 = eth.parse().ok().unwrap();
        assert!(matches!(l3.parse(), Err(Error::OutOfBounds)), "length {}", len);
    }
    let mut ctx = context(BASE, whole[..7].to_vec());
    assert!(matches!(Udp::from_bytes(ctx.data()), Err(Error::OutOfBounds)));
    let mut ctx = context(BASE, whole[..19].to_vec());
    assert!(matches!(Tcp::from_bytes(ctx.data()), Err(Error::OutOfBounds)));
    assert!(matches!(Ipv4::from_bytes(ctx.data()), Err(Error::OutOfBounds)));
}

#[test]
fn a_header_at_address_zero_is_a_null_pointer() {
    let mut ctx = context(0, frame(0x0800, 6, &tcp_header()));
    assert!(matches!(Ethernet::from_bytes(ctx.data()), Err(Error::NullPtr)));
    assert!(matches!(Ipv4::from_bytes(ctx.data()), Err(Error::NullPtr)));
    assert!(matches!(Tcp::from_bytes(ctx.data()), Err(Error::NullPtr)));
    assert!(matches!(Udp::from_bytes(ctx.data()), Err(Error::NullPtr)));
    // Too short and at address zero: the bounds are checked first.
    let mut ctx = context(0, vec![0; 13]);
    assert!(matches!(Ethernet::from_bytes(ctx.data()), Err(Error::OutOfBounds)));
    // Only the first header of a buffer at address zero is at address zero.
    let mut ctx = context(0, frame(0x0800, 6, &tcp_header()));
    let buf = NetBuf { buf: &mut ctx, nh_offset: 14 };
    let ip = Ipv4::from_bytes(buf).unwrap();
    assert_eq!(ip.hdr, 14);
    assert_eq!(ip.offset(), 34);
}

#[test]
fn a_failed_parse_leaves_the_packet_alone() {
    let bytes = frame(0x86dd, 6, &tcp_header());
    let mut ctx = context(BASE, bytes.clone());
    let eth = Ethernet::from_bytes(ctx.data()).unwrap();
    assert!(eth.parse().is_err());
    assert_eq!(ctx.packet, bytes);
    assert_eq!(ctx.start(), BASE as usize);
}

#[test]
fn a_cursor_parses_as_itself() {
    let mut ctx = context(BASE, frame(0x0800, 6, &tcp_header()));
    let buf = NetBuf::from_bytes(ctx.data()).ok().unwrap();
    assert_eq!(buf.offset(), 0);
    let buf = buf.data();
    assert_eq!(buf.offset(), 0);
    assert_eq!(buf.data_len(), 54);
    let eth: Ethernet<XdpContext> = buf.parse_as().ok().unwrap();
    assert_eq!(eth.offset(), 14);
    let same: NetBuf<XdpContext> = eth.parse_as().ok().unwrap();
    assert_eq!(same.offset(), 14);
}

#[test]
fn parse_as_ignores_the_announced_protocol() {
    // The EtherType says IPv6; the caller insists on IPv4.
    let mut ctx = context(BASE, frame(0x86dd, 17, &udp_header()));
    let eth = Ethernet::from_bytes(ctx.data()).unwrap();
    let ip: Ipv4<XdpContext> = eth.parse_as().ok().unwrap();
    assert_eq!(ip.protocol(), 17);
    let tcp: Result<Tcp<XdpContext>, Error> = ip.parse_as();
    assert!(matches!(tcp, Err(Error::OutOfBounds)));
}

#[test]
fn body_and_len_describe_what_is_left() {
    let mut rest = tcp_header();
    rest.extend_from_slice(b"hello");
    let mut ctx = context(BASE, frame(0x0800, 6, &rest));
    let eth = Ethernet::from_bytes(ctx.data()).unwrap();
    assert_eq!(eth.len(), 45);
    assert_eq!(eth.body().len(), 45);
    assert_eq!(eth.body()[0], 0x45);
    let l2 = L2Proto::Ethernet(eth);
    assert_eq!(l2.offset(), 14);
    assert_eq!(l2.len(), 45);
    assert_eq!(l2.inner_buf_ref().offset(), 14);
    let l3 = l2.parse().ok().unwrap();
    assert_eq!(l3.len(), 25);
    assert_eq!(l3.inner_buf_ref().offset(), 34);
    let l4 = l3.parse().ok().unwrap();
    assert_eq!(l4.offset(), 54);
    assert_eq!(l4.len(), 5);
    assert_eq!(l4.body(), b"hello");
    assert_eq!(l4.buf_ref().offset(), 54);
    let payload = l4.parse().ok().unwrap();
    assert_eq!(payload.offset(), 54);
    assert_eq!(payload.data_len(), 59);
    assert_eq!(&payload.as_slice()[payload.offset()..], b"hello");
}

#[test]
fn every_layer_gives_up_its_cursor() {
    let mut ctx = context(BASE, frame(0x0800, 17, &udp_header()));
    let eth = Ethernet::from_bytes(ctx.data()).unwrap();
    assert_eq!(L2Proto::Ethernet(eth).inner_buf().offset(), 14);
    let eth = Ethernet::from_bytes(ctx.data()).unwrap();
    assert_eq!(L2Proto::Ethernet(eth).buf().offset(), 14);
    let eth = Ethernet::from_bytes(ctx.data()).unwrap();
    let l3 = eth.parse().ok().unwrap();
    assert_eq!(l3.data().offset(), 34);
    let eth = Ethernet::from_bytes(ctx.data()).unwrap();
    let l3 = eth.parse().ok().unwrap();
    assert_eq!(l3.inner_buf().offset(), 34);
    let eth = Ethernet::from_bytes(ctx.data()).unwrap();
    let l4 = eth.parse().ok().unwrap().parse().ok().unwrap();
    assert!(matches!(l4, L4Proto::Udp(_)));
    assert_eq!(l4.inner_buf().offset(), 42);
    let eth = Ethernet::from_bytes(ctx.data()).unwrap();
    let udp = match eth.parse().ok().unwrap().parse() {
        Ok(L4Proto::Udp(udp)) => udp,
        _ => panic!("a UDP header was expected"),
    };
    assert_eq!(udp.parse().ok().unwrap().offset(), 42);
    let mut ctx = context(BASE, tcp_header());
    let tcp = Tcp::from_bytes(ctx.data()).unwrap();
    assert_eq!(tcp.buf_ref().offset(), 20);
    assert_eq!(tcp.data().offset(), 20);
    let tcp = Tcp::from_bytes(ctx.data()).unwrap();
    assert_eq!(L4Proto::Tcp(tcp).parse().ok().unwrap().offset(), 20);
}

#[test]
fn a_socket_buffer_parses_like_a_packet() {
    let meta = SkBuffMeta {
        len: 54,
        pkt_type: 0,
        mark: 0,
        queue_mapping: 0,
        protocol: 8,
        vlan_present: 0,
        vlan_tci: 0,
        vlan_proto: 0,
        priority: 0,
        ingress_ifindex: 2,
        ifindex: 2,
        tc_index: 0,
        cb: [0; 5],
        hash: 0,
        tc_classid: 0,
        data: BASE,
        data_end: BASE + 54,
        napi_id: 0,
        family: 2,
        remote_ip4: 0,
        local_ip4: 0,
        remote_ip6: [0; 4],
        local_ip6: [0; 4],
        remote_port: 0,
        local_port: 0,
    };
    let mut skb = SkBuff::new(meta, frame(0x0800, 6, &tcp_header())).unwrap();
    let eth = Ethernet::from_bytes(skb.data()).unwrap();
    assert_eq!(eth.proto(), 0x0800);
    assert_eq!(eth.source(), [0x02, 0, 0, 0, 0, 0x02]);
    let l4 = eth.parse().ok().unwrap().parse().ok().unwrap();
    match l4 {
        L4Proto::Tcp(tcp) => {
            assert!(tcp.syn());
            assert_eq!(tcp.doff(), 5);
        }
        _ => panic!("a TCP header was expected"),
    }
}

#[test]
fn the_protocols_are_found_under_one_path() {
    let mut ctx = context(BASE, frame(0x0800, 17, &udp_header()));
    let eth = protocols::Ethernet::from_bytes(ctx.data()).unwrap();
    let l3: protocols::L3Proto<XdpContext> = protocols::L2Proto::Ethernet(eth).parse().ok().unwrap();
    let l4: protocols::L4Proto<XdpContext> = l3.parse().ok().unwrap();
    assert!(matches!(l4, protocols::L4Proto::Udp(_)));
}

#[test]
fn errors_are_told_apart() {
    let all = [
        Error::Other,
        Error::OutOfBounds,
        Error::TypeFromBytes,
        Error::UnknownProtocol,
        Error::WrongProtocol,
        Error::LoadFailed,
        Error::UnimplementedProtocol(6),
        Error::NullPtr,
        Error::Unaligned,
    ];
    for (i, a) in all.iter().enumerate() {
        for (j, b) in all.iter().enumerate() {
            assert_eq!(a == b, i == j);
        }
    }
    assert_ne!(Error::UnimplementedProtocol(6), Error::UnimplementedProtocol(17));
}
