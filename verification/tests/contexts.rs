use redbpf_probes::buf::RawBuf;
use redbpf_probes::error::Error;
use redbpf_probes::pod::Pod;
use redbpf_probes::socket::{SkBuff, SkBuffMeta, SocketError, EFAULT};
use redbpf_probes::user;
use redbpf_probes::user::Flags;
use redbpf_probes::xdp::{MapData, PerfMap, PerfMapFlags, XdpAction, XdpContext, XdpMd, XdpResult};

fn meta(data: u32, len: u32) -> SkBuffMeta {
    SkBuffMeta {
        len,
        pkt_type: 3,
        mark: 0xfeed,
        queue_mapping: 7,
        protocol: 0x0008,
        vlan_present: 1,
        vlan_tci: 100,
        vlan_proto: 0x8100,
        priority: 6,
        ingress_ifindex: 2,
        ifindex: 3,
        tc_index: 11,
        cb: [1, 2, 3, 4, 5],
        hash: 0xabcdef,
        tc_classid: 12,
        data,
        data_end: data + len,
        napi_id: 13,
        family: 2,
        remote_ip4: 0x0100_007f,
        local_ip4: 0x0200_007f,
        remote_ip6: [1, 0, 0, 2],
        local_ip6: [3, 0, 0, 4],
        remote_port: 443,
        local_port: 50000,
    }
}

fn socket_buffer(data: u32, packet: Vec<u8>) -> SkBuff {
    SkBuff::new(meta(data, packet.len() as u32), packet).unwrap()
}

fn xdp_context(data: u32, packet: Vec<u8>) -> XdpContext {
    let md = XdpMd {
        data,
        data_end: data + packet.len() as u32,
        data_meta: data,
        ingress_ifindex: 4,
        rx_queue_index: 9,
    };
    XdpContext::new(md, packet).unwrap()
}

#[test]
fn socket_buffer_tells_what_the_kernel_told() {
    let mut skb = socket_buffer(0x3000, vec![0; 34]);
    assert_eq!(skb.len(), 34);
    assert_eq!(skb.pkt_type(), 3);
    assert_eq!(skb.mark(), 0xfeed);
    assert_eq!(skb.queue_mapping(), 7);
    assert_eq!(skb.protocol(), 0x0008);
    assert!(skb.vlan_present());
    assert_eq!(skb.vlan_tci(), 100);
    assert_eq!(skb.vlan_proto(), 0x8100);
    assert_eq!(skb.priority(), 6);
    assert_eq!(skb.ingress_ifindex(), 2);
    assert_eq!(skb.tc_index(), 11);
    assert_eq!(skb.cb(), &[1, 2, 3, 4, 5]);
    assert_eq!(skb.hash(), 0xabcdef);
    assert_eq!(skb.tc_classid(), 12);
    assert_eq!(skb.napi_id(), 13);
    assert_eq!(skb.family(), 2);
    assert_eq!(skb.remote_ip4(), 0x0100_007f);
    assert_eq!(skb.local_ip4(), 0x0200_007f);
    assert_eq!(skb.remote_ip6(), &[1, 0, 0, 2]);
    assert_eq!(skb.local_ip6(), &[3, 0, 0, 4]);
    assert_eq!(skb.remote_port(), 443);
    assert_eq!(skb.local_port(), 50000);
    assert_eq!(skb.inner().ifindex, 3);
    assert_eq!(skb.start(), 0x3000);
    assert_eq!(skb.end(), 0x3000 + 34);
    assert_eq!(skb.data().offset(), 0);
}

#[test]
fn vlan_is_present_only_for_one() {
    for (value, present) in [(0u32, false), (1, true), (2, false), (u32::MAX, false)] {
        let mut m = meta(0x3000, 0);
        m.vlan_present = value;
        let skb = SkBuff::new(m, Vec::new()).unwrap();
        assert_eq!(skb.vlan_present(), present);
    }
}

#[test]
fn contexts_need_a_range_that_matches_the_packet() {
    assert!(SkBuff::new(meta(0x3000, 4), vec![0; 4]).is_some());
    assert!(SkBuff::new(meta(0x3000, 4), vec![0; 5]).is_none());
    assert!(SkBuff::new(meta(0x3000, 4), vec![0; 3]).is_none());
    let mut inverted = meta(0x3000, 0);
    inverted.data_end = 0x2fff;
    assert!(SkBuff::new(inverted, Vec::new()).is_none());
    let md = XdpMd { data: 8, data_end: 4, data_meta: 0, ingress_ifindex: 0, rx_queue_index: 0 };
    assert!(XdpContext::new(md, Vec::new()).is_none());
    let md = XdpMd { data: 4, data_end: 8, data_meta: 0, ingress_ifindex: 0, rx_queue_index: 0 };
    assert!(XdpContext::new(md, vec![0; 3]).is_none());
    assert!(XdpContext::new(md, vec![0; 4]).is_some());
}

#[test]
fn the_kernel_copy_answers_zero_or_a_negative_number() {
    let skb = socket_buffer(0x3000, vec![10, 11, 12, 13, 14]);
    assert_eq!(skb.skb_load_bytes(0, 5), (0, &[10u8, 11, 12, 13, 14][..]));
    assert_eq!(skb.skb_load_bytes(1, 2), (0, &[11u8, 12][..]));
    assert_eq!(skb.skb_load_bytes(5, 0), (0, &[][..]));
    assert_eq!(skb.skb_load_bytes(4, 2), (-EFAULT, &[][..]));
    assert_eq!(skb.skb_load_bytes(6, 0), (-EFAULT, &[][..]));
    assert_eq!(skb.skb_load_bytes(u32::MAX, u32::MAX), (-EFAULT, &[][..]));
    assert_eq!(EFAULT, 14);
}

#[test]
fn a_negative_answer_is_a_failed_load() {
    assert_eq!(SkBuff::loaded::<u16>(-1, &[]), Err(Error::LoadFailed));
    assert_eq!(SkBuff::loaded::<u16>(-14, &[1, 2]), Err(Error::LoadFailed));
    assert_eq!(SkBuff::loaded::<u16>(i32::MIN, &[]), Err(Error::LoadFailed));
    assert_eq!(SkBuff::loaded::<u16>(0, &[1, 2]), Ok(0x0201));
    assert_eq!(SkBuff::loaded::<u16>(7, &[1, 2]), Ok(0x0201));
    assert_eq!(SkBuff::loaded::<u32>(0, &[1, 2, 3, 4]), Ok(0x0403_0201));
    assert_eq!(SkBuff::loaded::<u8>(i32::MAX, &[9]), Ok(9));
}

#[test]
fn a_load_is_asked_for_only_if_the_offset_fits() {
    assert_eq!(SkBuff::load_request::<u16>(0), Some((0, 2)));
    assert_eq!(SkBuff::load_request::<u64>(7), Some((7, 8)));
    assert_eq!(SkBuff::load_request::<u8>(u32::MAX as usize), Some((u32::MAX, 1)));
    assert_eq!(SkBuff::load_request::<u8>(u32::MAX as usize + 1), None);
    assert_eq!(SkBuff::load_request::<u32>(usize::MAX), None);
}

#[test]
fn socket_buffer_loads_whatever_the_alignment() {
    let skb = socket_buffer(0x3001, vec![0x08, 0x00, 0x45, 0x00, 0x11, 0x22, 0x33, 0x44, 0x55]);
    assert_eq!(skb.load::<u16>(0), Ok(0x0008));
    assert_eq!(skb.load::<u16>(1), Ok(0x4500));
    assert_eq!(skb.load::<u32>(1), Ok(0x1100_4500));
    assert_eq!(skb.load::<u64>(1), Ok(0x5544_3322_1100_4500));
    assert_eq!(skb.load_be::<u16>(0), Ok(0x0800));
    assert_eq!(skb.load_be::<u16>(1), Ok(0x0045));
    assert_eq!(skb.load_be::<u32>(5), Ok(0x2233_4455));
    assert_eq!(skb.load::<u8>(8), Ok(0x55));
}

#[test]
fn socket_buffer_load_fails_outside_the_buffer() {
    let skb = socket_buffer(0x3000, vec![1, 2, 3, 4]);
    assert_eq!(skb.load::<u8>(4), Err(Error::LoadFailed));
    assert_eq!(skb.load::<u16>(3), Err(Error::LoadFailed));
    assert_eq!(skb.load::<u32>(1), Err(Error::LoadFailed));
    assert_eq!(skb.load::<u64>(0), Err(Error::LoadFailed));
    assert_eq!(skb.load_be::<u32>(2), Err(Error::LoadFailed));
    assert_eq!(skb.load::<u8>(usize::MAX), Err(Error::LoadFailed));
    assert_eq!(skb.load::<u8>(u32::MAX as usize + 1), Err(Error::LoadFailed));
    assert_eq!(skb.load::<u32>(0), Ok(0x0403_0201));
}

#[test]
fn a_value_loaded_from_a_socket_buffer_is_what_lies_there() {
    let bytes = vec![0xde, 0xad, 0xbe, 0xef, 0x01, 0x23, 0x45, 0x67, 0x89];
    let skb = socket_buffer(0x3003, bytes.clone());
    for offset in 0..=5 {
        let v: u32 = skb.load(offset).unwrap();
        assert_eq!(&v.encode()[..], &bytes[offset..offset + 4]);
    }
}

#[test]
fn socket_error_has_one_kind() {
    assert_eq!(SocketError::LoadFailed, SocketError::LoadFailed);
}

#[test]
fn actions_have_the_numbers_of_the_hook() {
    assert_eq!(XdpAction::Aborted.value(), 0);
    assert_eq!(XdpAction::Drop.value(), 1);
    assert_eq!(XdpAction::Pass.value(), 2);
    assert_eq!(XdpAction::Tx.value(), 3);
    assert_eq!(XdpAction::Redirect.value(), 4);
    let verdict: XdpResult = Ok(XdpAction::Pass);
    assert_eq!(verdict, Ok(XdpAction::Pass));
    let failed: XdpResult = Err(Error::Other);
    assert_eq!(failed, Err(Error::Other));
}

#[test]
fn xdp_context_gives_access_to_what_the_kernel_told() {
    let mut ctx = xdp_context(0x5000, vec![1, 2, 3]);
    assert_eq!(ctx.inner().ingress_ifindex, 4);
    assert_eq!(ctx.inner().rx_queue_index, 9);
    assert_eq!(ctx.inner().data, 0x5000);
    assert_eq!(ctx.inner().data_end, 0x5003);
    ctx.inner().rx_queue_index = 1;
    assert_eq!(ctx.ctx.unwrap().rx_queue_index, 1);
    assert_eq!(ctx.packet, vec![1, 2, 3]);
    let buf = ctx.data();
    assert_eq!(buf.offset(), 0);
    assert_eq!(buf.start(), 0x5000);
    assert_eq!(buf.end(), 0x5003);
    assert_eq!(buf.load::<u8>(2), Ok(3));
    assert_eq!(buf.load::<u16>(1), Err(Error::Unaligned));
}

#[test]
fn a_new_record_announces_no_payload() {
    let r = MapData::new(0x1234_5678u32);
    assert_eq!(*r.data(), 0x1234_5678);
    assert_eq!(r.offset, 0);
    assert_eq!(r.size, 0);
    let r = MapData::with_payload(7u8, 4, 10);
    assert_eq!(*r.data(), 7);
    assert_eq!(r.offset, 4);
    assert_eq!(r.size, 10);
    let r = user::MapData::new(9u64);
    assert_eq!((*r.data(), r.offset, r.size), (9, 0, 0));
    let r = user::MapData::with_payload(9u64, 4, 10);
    assert_eq!((*r.data(), r.offset, r.size), (9, 4, 10));
}

#[test]
fn a_record_is_its_fields_in_order() {
    let r = MapData::with_payload(0xa1b2_c3d4u32, 4, 10);
    assert_eq!(r.record(), vec![0xd4, 0xc3, 0xb2, 0xa1, 4, 0, 0, 0, 10, 0, 0, 0]);
    let r = MapData::new(0xa1b2u16);
    assert_eq!(r.record(), vec![0xb2, 0xa1, 0, 0, 0, 0, 0, 0, 0, 0]);
    let r = MapData::with_payload(1u8, 0x0102_0304, u32::MAX);
    assert_eq!(r.record(), vec![1, 4, 3, 2, 1, 0xff, 0xff, 0xff, 0xff]);
}

#[test]
fn user_space_reads_the_record_that_was_written() {
    for (data, offset, size) in [(0u32, 0u32, 0u32), (0xdead_beef, 4, 10), (1, u32::MAX, 0x0102_0304)] {
        let written = if offset == 0 && size == 0 {
            MapData::new(data)
        } else {
            MapData::with_payload(data, offset, size)
        };
        let mut sample = written.record();
        let read = user::MapData::<u32>::from_sample(&sample).unwrap();
        assert_eq!((*read.data(), read.offset, read.size), (data, offset, size));
        sample.extend_from_slice(&[9, 8, 7]);
        let read = user::MapData::<u32>::from_sample(&sample).unwrap();
        assert_eq!((*read.data(), read.offset, read.size), (data, offset, size));
    }
}

#[test]
fn a_short_sample_holds_no_record() {
    let sample = MapData::new(5u32).record();
    assert_eq!(sample.len(), 12);
    for len in 0..12 {
        assert!(user::MapData::<u32>::from_sample(&sample[..len]).is_none());
    }
    assert!(user::MapData::<u32>::from_sample(&sample).is_some());
    assert!(user::MapData::<u64>::from_sample(&sample).is_none());
}

#[test]
fn the_payload_is_what_follows_the_record_from_offset_to_size() {
    let record = user::MapData::with_payload(0u16, 2, 5);
    let mut sample = MapData::with_payload(0u16, 2, 5).record();
    sample.extend_from_slice(&[10, 11, 12, 13, 14, 15, 16]);
    assert_eq!(record.payload(&sample), Some(&[12u8, 13, 14][..]));
    assert_eq!(record.payload(&sample[..15]), Some(&[12u8, 13, 14][..]));
    assert_eq!(record.payload(&sample[..14]), None);
    assert_eq!(record.payload(&sample[..3]), None);
    let all = user::MapData::with_payload(0u16, 0, 7);
    assert_eq!(all.payload(&sample), Some(&[10u8, 11, 12, 13, 14, 15, 16][..]));
    let none = user::MapData::with_payload(0u16, 5, 5);
    assert_eq!(none.payload(&sample), Some(&[][..]));
    let inverted = user::MapData::with_payload(0u16, 6, 5);
    assert_eq!(inverted.payload(&sample), None);
    let empty = user::MapData::new(0u16);
    assert_eq!(empty.payload(&sample[..10]), Some(&[][..]));
}

#[test]
fn flags_for_events() {
    assert_eq!(PerfMapFlags::new(), PerfMapFlags { index: None, xdp_size: 0 });
    assert_eq!(PerfMapFlags::with_index(3), PerfMapFlags { index: Some(3), xdp_size: 0 });
    assert_eq!(PerfMapFlags::with_xdp_size(64), PerfMapFlags { index: None, xdp_size: 64 });
}

#[test]
fn insert_appends_as_many_bytes_as_the_record_announces() {
    let mut ctx = xdp_context(0x5000, vec![1, 2, 3, 4, 5, 6]);
    let mut map: PerfMap<u16> = PerfMap::with_max_entries(4);
    assert_eq!(map.max_entries, 4);
    assert!(map.events.is_empty());
    map.insert(&mut ctx, &MapData::with_payload(0xbeef, 1, 4));
    assert_eq!(map.events.len(), 1);
    assert_eq!(map.events[0].flags, PerfMapFlags { index: None, xdp_size: 4 });
    assert_eq!(map.events[0].sample, vec![0xef, 0xbe, 1, 0, 0, 0, 4, 0, 0, 0, 1, 2, 3, 4]);
    map.insert(&mut ctx, &MapData::new(7));
    assert_eq!(map.events.len(), 2);
    assert_eq!(map.events[1].flags, PerfMapFlags { index: None, xdp_size: 0 });
    assert_eq!(map.events[1].sample, vec![7, 0, 0, 0, 0, 0, 0, 0, 0, 0]);
    assert_eq!(ctx.packet, vec![1, 2, 3, 4, 5, 6]);
}

#[test]
fn the_size_of_the_record_wins_over_the_size_in_the_flags() {
    let mut ctx = xdp_context(0x5000, vec![1, 2, 3, 4, 5, 6]);
    let mut map: PerfMap<u8> = PerfMap::with_max_entries(8);
    for in_flags in [0u32, 1, 3, 6, 1000, u32::MAX] {
        let flags = PerfMapFlags { index: Some(2), xdp_size: in_flags };
        map.insert_with_flags(&mut ctx, &MapData::with_payload(0xaa, 0, 3), flags);
        let e = map.events.last().unwrap();
        assert_eq!(e.flags, PerfMapFlags { index: Some(2), xdp_size: 3 });
        assert_eq!(e.sample, vec![0xaa, 0, 0, 0, 0, 3, 0, 0, 0, 1, 2, 3]);
    }
    assert_eq!(map.events.len(), 6);
    map.insert_with_flags(&mut ctx, &MapData::with_payload(0xbb, 0, 6), PerfMapFlags::with_xdp_size(1));
    assert_eq!(map.events.last().unwrap().flags.xdp_size, 6);
    assert_eq!(map.events.last().unwrap().flags.index, None);
    assert_eq!(map.events.last().unwrap().sample.len(), 9 + 6);
}

#[test]
fn a_full_channel_loses_the_event() {
    let mut ctx = xdp_context(0x5000, vec![1, 2, 3]);
    let mut map: PerfMap<u8> = PerfMap::with_max_entries(2);
    map.insert(&mut ctx, &MapData::new(1));
    map.insert(&mut ctx, &MapData::new(2));
    map.insert(&mut ctx, &MapData::new(3));
    assert_eq!(map.events.len(), 2);
    assert_eq!(map.events[0].sample[0], 1);
    assert_eq!(map.events[1].sample[0], 2);
    let mut none: PerfMap<u8> = PerfMap::with_max_entries(0);
    none.insert(&mut ctx, &MapData::new(1));
    assert!(none.events.is_empty());
}

#[test]
fn an_event_that_announces_more_than_the_packet_has_is_lost() {
    let mut ctx = xdp_context(0x5000, vec![1, 2, 3]);
    let mut map: PerfMap<u8> = PerfMap::with_max_entries(2);
    map.insert(&mut ctx, &MapData::with_payload(1, 0, 4));
    assert!(map.events.is_empty());
    map.insert(&mut ctx, &MapData::with_payload(1, 0, 3));
    assert_eq!(map.events.len(), 1);
    assert_eq!(map.events[0].sample, vec![1, 0, 0, 0, 0, 3, 0, 0, 0, 1, 2, 3]);
}

#[test]
fn an_event_is_read_back_in_user_space() {
    let mut ctx = xdp_context(0x5000, vec![0x45, 0x00, 0x11, 0x22, 0x33]);
    let mut map: PerfMap<u32> = PerfMap::with_max_entries(1);
    map.insert(&mut ctx, &MapData::with_payload(0xcafe_f00d, 2, 5));
    let sample = &map.events[0].sample;
    let read = user::MapData::<u32>::from_sample(sample).unwrap();
    assert_eq!((*read.data(), read.offset, read.size), (0xcafe_f00d, 2, 5));
    assert_eq!(read.payload(sample), Some(&[0x11u8, 0x22, 0x33][..]));
}

#[test]
fn attachment_flags() {
    assert_eq!(Flags::default(), Flags::Unset);
    assert_eq!(Flags::Unset.bits(), 0);
    assert_eq!(Flags::UpdateIfNoExist.bits(), 1);
    assert_eq!(Flags::SkbMode.bits(), 2);
    assert_eq!(Flags::DrvMode.bits(), 4);
    assert_eq!(Flags::HwMode.bits(), 8);
    assert_eq!(Flags::Modes.bits(), 14);
    assert_eq!(Flags::Mask.bits(), 15);
    assert_eq!(
        Flags::Modes.bits(),
        Flags::SkbMode.bits() | Flags::DrvMode.bits() | Flags::HwMode.bits()
    );
    assert_eq!(Flags::Mask.bits(), Flags::UpdateIfNoExist.bits() | Flags::Modes.bits());
}
