use relay::sock::{Family, NetAddr, SockAddr};
use relay::time::SECOND;
use relay::token::UDP_BASE;
use relay::udp::{
    batch_len, udp_recvmmsg, udp_sendmmsg_to, DatagramWork, UdpTable, UDP_BATCH_MAX, UDP_PKT_SIZE,
};
use relay::watch::listen_mask;
use std::collections::VecDeque;

fn v4(last: u8, port: u8) -> SockAddr {
    let family = Family::Inet { port: [0, port], addr: [10, 0, 0, last] };
    SockAddr::new(family, vec![2, 0, 0, port, 10, 0, 0, last]).unwrap()
}

fn unix(name: u8) -> SockAddr {
    SockAddr::new(Family::Other, vec![1, 0, name]).unwrap()
}

fn add(table: &mut UdpTable<char>, client: SockAddr, io: char, now: u64) -> usize {
    assert_eq!(table.lookup(&client, now), None);
    let slot = table.reserve();
    table.commit(slot, client, io, now);
    slot
}

#[test]
fn committed_clients_are_found() {
    let mut table: UdpTable<char> = UdpTable::new();
    assert_eq!(add(&mut table, v4(1, 5), 'a', 10), 0);
    assert_eq!(add(&mut table, v4(1, 6), 'b', 11), 1);
    assert_eq!(add(&mut table, unix(9), 'c', 12), 2);
    assert_eq!(table.lookup(&v4(1, 5), 20), Some(0));
    assert_eq!(table.lookup(&v4(1, 6), 21), Some(1));
    assert_eq!(table.lookup(&unix(9), 22), Some(2));
    assert_eq!(table.lookup(&unix(8), 23), None);
    assert_eq!(table.lookup(&v4(2, 5), 23), None);
    let seen: Vec<u64> = table.slots.iter().flatten().map(|a| a.last_act).collect();
    assert_eq!(seen, vec![20, 21, 22]);
    let first = table.slots[0].as_ref().unwrap();
    assert_eq!(first.io, 'a');
    assert_eq!(first.net, Some(NetAddr::V4 { ip: 0x0a00_0001, port: 5 }));
}

#[test]
fn same_internet_address_is_the_same_client() {
    let mut table: UdpTable<char> = UdpTable::new();
    add(&mut table, v4(1, 5), 'a', 0);
    let mut other_bytes = v4(1, 5);
    other_bytes.bytes.push(77);
    assert_eq!(table.lookup(&other_bytes, 1), Some(0));
}

#[test]
fn cancelled_slot_is_reused_last() {
    let mut table: UdpTable<char> = UdpTable::new();
    let slot = table.reserve();
    assert_eq!(slot, 0);
    table.cancel(slot);
    assert_eq!(table.free, VecDeque::from(vec![0]));
    assert_eq!(add(&mut table, v4(1, 1), 'a', 0), 0);
    assert!(table.free.is_empty());
}

#[test]
fn replies_keep_an_association_alive() {
    let mut table: UdpTable<char> = UdpTable::new();
    add(&mut table, v4(1, 1), 'a', 0);
    table.on_reply(0, 0, 5);
    assert_eq!(table.slots[0].as_ref().unwrap().last_act, 0);
    table.on_reply(0, 3, 6);
    assert_eq!(table.slots[0].as_ref().unwrap().last_act, 6);
    table.on_reply(7, 3, 6);
    assert_eq!(table.slots.len(), 1);
}

#[test]
fn sweep_ends_idle_associations() {
    let mut table: UdpTable<char> = UdpTable::new();
    add(&mut table, v4(1, 1), 'a', 0);
    add(&mut table, v4(2, 1), 'b', SECOND);
    add(&mut table, unix(1), 'c', 0);
    assert!(table.sweep(60 * SECOND, 60).is_empty());
    let gone: Vec<(usize, char)> =
        table.sweep(60 * SECOND + 1, 60).into_iter().map(|(slot, a)| (slot, a.io)).collect();
    assert_eq!(gone, vec![(0, 'a'), (2, 'c')]);
    assert_eq!(table.free, VecDeque::from(vec![0, 2]));
    assert_eq!(table.lookup(&v4(1, 1), 0), None);
    assert_eq!(table.lookup(&v4(2, 1), 61 * SECOND), Some(1));
    assert_eq!(add(&mut table, v4(3, 1), 'd', 0), 0);
}

#[test]
fn batches_are_bounded() {
    assert_eq!(UDP_BATCH_MAX, 128);
    assert_eq!(UDP_PKT_SIZE, 1500);
    assert_eq!(batch_len(64, 128), Some(64));
    assert_eq!(batch_len(500, 600), Some(128));
    assert_eq!(batch_len(64, 3), Some(3));
    assert_eq!(batch_len(0, 128), None);
    assert_eq!(batch_len(5, 0), None);
}

#[test]
fn failed_calls_moved_nothing() {
    assert_eq!(udp_sendmmsg_to(-1), 0);
    assert_eq!(udp_sendmmsg_to(0), 0);
    assert_eq!(udp_sendmmsg_to(5), 5);
    let mut lens = vec![9, 9];
    assert_eq!(udp_recvmmsg(-1, &vec![], &mut lens), 0);
    assert_eq!(lens, vec![9, 9]);
}

#[test]
fn sizes_of_received_datagrams_are_kept() {
    let mut lens = vec![9, 9, 9];
    assert_eq!(udp_recvmmsg(2, &vec![100, 200, 300], &mut lens), 2);
    assert_eq!(lens, vec![100, 200, 9]);
}

#[test]
fn new_client_gets_an_upstream_socket() {
    let mut table: UdpTable<char> = UdpTable::new();
    assert_eq!(table.on_datagram(&v4(1, 1), 5), DatagramWork::OpenUpstream);
    assert_eq!(
        table.on_opened(true),
        DatagramWork::Register { slot: 0, token: UDP_BASE, mask: listen_mask() }
    );
    assert_eq!(table.on_registered(0, true, v4(1, 1), 'a', 5), DatagramWork::Forward(0));
    assert_eq!(table.on_datagram(&v4(1, 1), 9), DatagramWork::Forward(0));
    let first = table.slots[0].as_ref().unwrap();
    assert_eq!((first.io, first.last_act), ('a', 9));
    assert_eq!(table.on_datagram(&v4(2, 1), 9), DatagramWork::OpenUpstream);
    assert_eq!(
        table.on_opened(true),
        DatagramWork::Register { slot: 1, token: UDP_BASE + 1, mask: listen_mask() }
    );
}

#[test]
fn datagram_without_an_upstream_socket_is_dropped() {
    let mut table: UdpTable<char> = UdpTable::new();
    assert_eq!(table.on_datagram(&unix(1), 0), DatagramWork::OpenUpstream);
    assert_eq!(table.on_opened(false), DatagramWork::Drop);
    assert!(table.slots.is_empty() && table.free.is_empty());
    table.on_opened(true);
    assert_eq!(table.on_registered(0, false, unix(1), 'a', 0), DatagramWork::Drop);
    assert!(table.slots[0].is_none());
    assert_eq!(table.free, VecDeque::from(vec![0]));
    assert_eq!(table.on_datagram(&unix(1), 1), DatagramWork::OpenUpstream);
    assert_eq!(
        table.on_opened(true),
        DatagramWork::Register { slot: 0, token: UDP_BASE, mask: listen_mask() }
    );
}
