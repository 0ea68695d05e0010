use redbpf_probes::layer2::{EthProto, Ethernet};
use redbpf_probes::layer3::Ipv4;
use redbpf_probes::layer4::{Tcp, Udp};
use redbpf_probes::net::{FromBytes, Packet};
use redbpf_probes::xdp::{XdpContext, XdpMd};

const BASE: u32 = 0x4000;

fn context(packet: Vec<u8>) -> XdpContext {
    let md = XdpMd {
        data: BASE,
        data_end: BASE + packet.len() as u32,
        data_meta: BASE,
        ingress_ifindex: 1,
        rx_queue_index: 0,
    };
    XdpContext::new(md, packet).unwrap()
}

fn eth_bytes() -> Vec<u8> {
    vec![
        0x11, 0x12, 0x13, 0x14, 0x15, 0x16, // destination
        0x21, 0x22, 0x23, 0x24, 0x25, 0x26, // source
        0x08, 0x00, // EtherType
        0xee, 0xee, // what follows
    ]
}

fn ip_bytes(ttl: u8) -> Vec<u8> {
    vec![
        0x46, 0x10, 0x01, 0x02, // version 4, length 6, service, total length
        0xab, 0xcd, 0x00, 0x00, // identification, flags and fragment offset
        ttl, 0x06, 0x12, 0x34, // time to live, protocol, checksum
        192, 168, 1, 2, // source address
        10, 0, 0, 1, // destination address
        0xee, // what follows
    ]
}

fn tcp_bytes(offset_byte: u8, flags_byte: u8) -> Vec<u8> {
    vec![
        0x1f, 0x90, 0x00, 0x50, // ports 8080 and 80
        0x01, 0x02, 0x03, 0x04, // sequence number
        0x0a, 0x0b, 0x0c, 0x0d, // acknowledgement number
        offset_byte, flags_byte, 0xff, 0xfe, // data offset, flags, window
        0xaa, 0xbb, 0xcc, 0xdd, // checksum, urgent pointer
        0xee, // what follows
    ]
}

#[test]
fn eth_proto_value() {
    assert_eq!(EthProto::Ipv4.value(), 0x0800);
}

#[test]
fn ethernet_fields_are_read_as_they_lie() {
    let mut ctx = context(eth_bytes());
    let eth = Ethernet::from_bytes(ctx.data()).unwrap();
    assert_eq!(eth.dest(), [0x11, 0x12, 0x13, 0x14, 0x15, 0x16]);
    assert_eq!(eth.source(), [0x21, 0x22, 0x23, 0x24, 0x25, 0x26]);
    assert_eq!(eth.proto(), 0x0800);
    assert_eq!(eth.hdr, BASE as usize);
}

#[test]
fn ethernet_setters_write_into_the_packet() {
    let mut ctx = context(eth_bytes());
    {
        let mut eth = Ethernet::from_bytes(ctx.data()).unwrap();
        eth.set_source(&[1, 2, 3, 4, 5, 6]);
        assert_eq!(eth.source(), [1, 2, 3, 4, 5, 6]);
        assert_eq!(eth.dest(), [0x11, 0x12, 0x13, 0x14, 0x15, 0x16]);
        eth.set_dest(&[0xa, 0xb, 0xc, 0xd, 0xe, 0xf]);
        assert_eq!(eth.dest(), [0xa, 0xb, 0xc, 0xd, 0xe, 0xf]);
        assert_eq!(eth.source(), [1, 2, 3, 4, 5, 6]);
        eth.set_proto(0x86dd);
        assert_eq!(eth.proto(), 0x86dd);
        assert_eq!(eth.offset(), 14);
    }
    assert_eq!(
        ctx.packet,
        vec![0xa, 0xb, 0xc, 0xd, 0xe, 0xf, 1, 2, 3, 4, 5, 6, 0x86, 0xdd, 0xee, 0xee]
    );
}

#[test]
fn ethernet_set_source_from_its_own_destination() {
    let mut ctx = context(eth_bytes());
    let mut eth = Ethernet::from_bytes(ctx.data()).unwrap();
    let dest = eth.dest();
    eth.set_source(&dest);
    assert_eq!(eth.source(), eth.dest());
}

#[test]
fn udp_setters_write_in_network_order() {
    let mut ctx = context(vec![0; 9]);
    {
        let mut udp = Udp::from_bytes(ctx.data()).unwrap();
        udp.set_source(0x1234);
        udp.set_dest(53);
        udp.set_len(0x0102);
        udp.set_check(0xfffe);
        assert_eq!(udp.source(), 0x1234);
        assert_eq!(udp.dest(), 53);
        assert_eq!(udp.len(), 0x0102);
        assert_eq!(udp.check(), 0xfffe);
    }
    assert_eq!(ctx.packet, vec![0x12, 0x34, 0x00, 0x35, 0x01, 0x02, 0xff, 0xfe, 0x00]);
}

#[test]
fn ipv4_fields_are_read_in_host_order() {
    let mut ctx = context(ip_bytes(64));
    let ip = Ipv4::from_bytes(ctx.data()).unwrap();
    assert_eq!(ip.version(), 4);
    assert_eq!(ip.ihl(), 6);
    assert_eq!(ip.tos(), 0x10);
    assert_eq!(ip.tot_len(), 0x0102);
    assert_eq!(ip.id(), 0xabcd);
    assert!(!ip.df());
    assert!(!ip.mf());
    assert_eq!(ip.ttl(), 64);
    assert_eq!(ip.protocol(), 6);
    assert_eq!(ip.check(), 0x1234);
    assert_eq!(ip.sadder(), 0xc0a8_0102);
    assert_eq!(ip.dadder(), 0x0a00_0001);
    // The cursor moves by the 20 bytes of the fixed header, whatever the
    // header length says.
    assert_eq!(ip.offset(), 20);
}

#[test]
fn ipv4_flags_are_bits_of_the_seventh_byte() {
    for (byte, df, mf) in [(0x00u8, false, false), (0x40, true, false), (0x20, false, true), (0x60, true, true), (0x9f, false, false), (0xff, true, true)] {
        let mut bytes = ip_bytes(64);
        bytes[6] = byte;
        bytes[7] = 0xff;
        let mut ctx = context(bytes);
        let ip = Ipv4::from_bytes(ctx.data()).unwrap();
        assert_eq!(ip.df(), df, "byte {:#x}", byte);
        assert_eq!(ip.mf(), mf, "byte {:#x}", byte);
    }
}

#[test]
fn ipv4_set_and_toggle_flags() {
    let mut bytes = ip_bytes(64);
    bytes[6] = 0x1f;
    bytes[7] = 0xff;
    let mut ctx = context(bytes.clone());
    {
        let mut ip = Ipv4::from_bytes(ctx.data()).unwrap();
        ip.set_df();
        assert!(ip.df());
        assert!(!ip.mf());
        ip.set_df();
        assert!(ip.df());
        ip.toggle_mf();
        assert!(ip.mf());
        assert!(ip.df());
        ip.toggle_df();
        assert!(!ip.df());
        assert!(ip.mf());
        ip.set_mf();
        assert!(ip.mf());
        ip.toggle_mf();
        assert!(!ip.mf());
        ip.toggle_df();
    }
    bytes[6] = 0x5f;
    assert_eq!(ctx.packet, bytes);
}

#[test]
fn ttl_wraps_around() {
    let mut ctx = context(ip_bytes(0));
    {
        let mut ip = Ipv4::from_bytes(ctx.data()).unwrap();
        ip.decr_ttl();
        assert_eq!(ip.ttl(), 255);
        ip.incr_ttl();
        assert_eq!(ip.ttl(), 0);
        ip.incr_ttl();
        assert_eq!(ip.ttl(), 1);
        ip.decr_ttl();
        ip.decr_ttl();
        assert_eq!(ip.ttl(), 255);
    }
    assert_eq!(ctx.packet, ip_bytes(255));
    let mut ctx = context(ip_bytes(255));
    let mut ip = Ipv4::from_bytes(ctx.data()).unwrap();
    ip.incr_ttl();
    assert_eq!(ip.ttl(), 0);
    ip.set_ttl(17);
    ip.decr_ttl();
    assert_eq!(ip.ttl(), 16);
}

#[test]
fn ipv4_setters_write_into_the_packet() {
    let mut ctx = context(vec![0; 21]);
    {
        let mut ip = Ipv4::from_bytes(ctx.data()).unwrap();
        ip.set_version(4);
        ip.set_ihl(5);
        assert_eq!(ip.ihl(), 5);
        ip.set_tos(0x2e);
        ip.set_tot_len(1500);
        ip.set_id(0xbeef);
        ip.set_ttl(64);
        ip.set_protocol(17);
        ip.set_check(0xa1b2);
        ip.sadder_mut(0xc0a8_0001);
        ip.dadder_mut(0x0808_0404);
        assert_eq!(ip.tos(), 0x2e);
        assert_eq!(ip.tot_len(), 1500);
        assert_eq!(ip.id(), 0xbeef);
        assert_eq!(ip.ttl(), 64);
        assert_eq!(ip.protocol(), 17);
        assert_eq!(ip.check(), 0xa1b2);
        assert_eq!(ip.sadder(), 0xc0a8_0001);
        assert_eq!(ip.dadder(), 0x0808_0404);
    }
    assert_eq!(
        ctx.packet,
        vec![0x45, 0x2e, 0x05, 0xdc, 0xbe, 0xef, 0, 0, 64, 17, 0xa1, 0xb2, 192, 168, 0, 1, 8, 8, 4, 4, 0]
    );
}

#[test]
fn ipv4_version_and_length_share_a_byte() {
    let mut ctx = context(ip_bytes(1));
    {
        let mut ip = Ipv4::from_bytes(ctx.data()).unwrap();
        ip.set_ihl(0xff);
        assert_eq!(ip.ihl(), 15);
        ip.set_version(0xf6);
        assert_eq!(ip.ihl(), 15);
        assert_eq!(ip.version(), 4);
        ip.set_ihl(5);
        assert_eq!(ip.ihl(), 5);
    }
    assert_eq!(ctx.packet[0], 0x65);
}

#[test]
fn tcp_fields_are_read_in_host_order() {
    let mut ctx = context(tcp_bytes(0x50, 0x02));
    let tcp = Tcp::from_bytes(ctx.data()).unwrap();
    assert_eq!(tcp.source(), 8080);
    assert_eq!(tcp.dest(), 80);
    assert_eq!(tcp.seq(), 0x0102_0304);
    assert_eq!(tcp.ack_seq(), 0x0a0b_0c0d);
    assert_eq!(tcp.doff(), 5);
    assert!(!tcp.res1());
    assert!(!tcp.res2());
    assert!(tcp.syn());
    assert!(!tcp.ack());
    assert!(!tcp.fin());
    assert!(!tcp.rst());
    assert!(!tcp.psh());
    assert!(!tcp.urg());
    assert!(!tcp.ece());
    assert!(!tcp.cwr());
    assert_eq!(tcp.offset(), 20);
}

fn flags_of(tcp: &Tcp<XdpContext>) -> [bool; 8] {
    [tcp.fin(), tcp.syn(), tcp.rst(), tcp.psh(), tcp.ack(), tcp.urg(), tcp.ece(), tcp.cwr()]
}

#[test]
fn each_flag_is_one_bit_of_the_flags_byte() {
    for bit in 0..8 {
        let mut ctx = context(tcp_bytes(0x50, 1 << bit));
        let tcp = Tcp::from_bytes(ctx.data()).unwrap();
        let mut expected = [false; 8];
        expected[bit] = true;
        assert_eq!(flags_of(&tcp), expected);
        assert_eq!(tcp.res2(), bit >= 6);
        assert!(!tcp.res1());
        assert_eq!(tcp.doff(), 5);
    }
    let mut ctx = context(tcp_bytes(0xff, 0x00));
    let tcp = Tcp::from_bytes(ctx.data()).unwrap();
    assert_eq!(flags_of(&tcp), [false; 8]);
    assert_eq!(tcp.doff(), 15);
    assert!(tcp.res1());
    let mut ctx = context(tcp_bytes(0xa1, 0x00));
    let tcp = Tcp::from_bytes(ctx.data()).unwrap();
    assert_eq!(tcp.doff(), 10);
    assert!(tcp.res1());
}

#[test]
fn setting_ack_leaves_syn_alone() {
    let mut ctx = context(tcp_bytes(0x50, 0x02));
    {
        let mut tcp = Tcp::from_bytes(ctx.data()).unwrap();
        assert!(tcp.syn());
        assert!(!tcp.ack());
        tcp.set_ack();
        assert!(tcp.ack());
        assert!(tcp.syn());
        assert_eq!(flags_of(&tcp), [false, true, false, false, true, false, false, false]);
        assert_eq!(tcp.doff(), 5);
    }
    assert_eq!(ctx.packet, tcp_bytes(0x50, 0x12));
}

#[test]
fn setting_a_flag_changes_no_other_bit() {
    for start in [0x00u8, 0xff, 0x5a, 0xa5] {
        for which in 0..8 {
            let mut ctx = context(tcp_bytes(0x73, start));
            {
                let mut tcp = Tcp::from_bytes(ctx.data()).unwrap();
                match which {
                    0 => tcp.set_fin(),
                    1 => tcp.set_syn(),
                    2 => tcp.set_rst(),
                    3 => tcp.set_psh(),
                    4 => tcp.set_ack(),
                    5 => tcp.set_urg(),
                    6 => tcp.set_ece(),
                    _ => tcp.set_cwr(),
                }
                assert!(flags_of(&tcp)[which]);
                assert_eq!(tcp.doff(), 7);
            }
            assert_eq!(ctx.packet, tcp_bytes(0x73, start | 1 << which));
        }
    }
}

#[test]
fn set_doff_changes_only_the_data_offset() {
    let mut ctx = context(tcp_bytes(0x53, 0xa5));
    {
        let mut tcp = Tcp::from_bytes(ctx.data()).unwrap();
        assert_eq!(tcp.doff(), 5);
        let before = flags_of(&tcp);
        tcp.set_doff(10);
        assert_eq!(tcp.doff(), 10);
        assert_eq!(flags_of(&tcp), before);
        assert!(tcp.res1());
        // Only the low four bits of the value count.
        tcp.set_doff(0xf7);
        assert_eq!(tcp.doff(), 7);
        assert_eq!(flags_of(&tcp), before);
    }
    assert_eq!(ctx.packet, tcp_bytes(0x73, 0xa5));
}

#[test]
fn reserved_bits_are_set_without_touching_the_rest() {
    let mut ctx = context(tcp_bytes(0x50, 0x12));
    {
        let mut tcp = Tcp::from_bytes(ctx.data()).unwrap();
        tcp.set_res1(0x09);
        assert!(tcp.res1());
        assert_eq!(tcp.doff(), 5);
        tcp.set_res2(0x03);
        assert!(tcp.res2());
        assert!(tcp.ece());
        assert!(tcp.cwr());
        assert!(tcp.syn());
        assert!(tcp.ack());
        tcp.set_res2(0x01);
        assert!(tcp.ece());
        assert!(!tcp.cwr());
        tcp.set_res1(0xf0);
        assert!(!tcp.res1());
        tcp.set_res2(0xfc);
        assert!(!tcp.res2());
    }
    assert_eq!(ctx.packet, tcp_bytes(0x50, 0x12));
}

#[test]
fn tcp_setters_write_in_network_order() {
    let mut ctx = context(vec![0; 21]);
    {
        let mut tcp = Tcp::from_bytes(ctx.data()).unwrap();
        tcp.set_source(443);
        tcp.set_dest(0xc001);
        tcp.set_seq(0x0102_0304);
        tcp.set_ack_seq(0xa0b0_c0d0);
        tcp.set_doff(5);
        tcp.set_syn();
        tcp.set_ack();
        assert_eq!(tcp.source(), 443);
        assert_eq!(tcp.dest(), 0xc001);
        assert_eq!(tcp.seq(), 0x0102_0304);
        assert_eq!(tcp.ack_seq(), 0xa0b0_c0d0);
    }
    assert_eq!(
        ctx.packet,
        vec![0x01, 0xbb, 0xc0, 0x01, 1, 2, 3, 4, 0xa0, 0xb0, 0xc0, 0xd0, 0x50, 0x12, 0, 0, 0, 0, 0, 0, 0]
    );
}
