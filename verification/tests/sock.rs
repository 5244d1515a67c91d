use relay::config::Config;
use relay::sock::{
    after_error, after_peek, after_poll, endpoint, nix_storage_eq, pipe_size, resolve, sockaddr_eq,
    storage_to_net, tcp_options, Family, NetAddr, PollOutcome, Probe, SockAddr,
};

use nix::poll::PollFlags;

fn ready(flags: PollFlags) -> Probe {
    after_poll(PollOutcome::Ready(Some(flags.bits())))
}

#[test]
fn options_follow_the_configuration() {
    let mut cfg = Config::default();
    let options = tcp_options(&cfg);
    assert!(options.nodelay && options.quick_ack);
    assert_eq!(options.keepalive_secs, 45);
    assert_eq!(options.interval_secs, 10);
    assert_eq!(options.retries, Some(2));
    assert_eq!(options.user_timeout_ms, None);
    cfg.tcp_keepcnt = 0;
    cfg.tcp_user_timeout_ms = 1500;
    cfg.tcp_keepidle = -1;
    let options = tcp_options(&cfg);
    assert_eq!(options.retries, None);
    assert_eq!(options.user_timeout_ms, Some(1500));
    assert_eq!(options.keepalive_secs, (-1i32) as u64);
}

#[test]
fn pipes_are_as_large_as_a_chunk_within_limits() {
    assert_eq!(pipe_size(131_072), 131_072);
    assert_eq!(pipe_size(1), 16_384);
    assert_eq!(pipe_size(16_384), 16_384);
    assert_eq!(pipe_size(1_048_576), 1_048_576);
    assert_eq!(pipe_size(usize::MAX), 1_048_576);
}

#[test]
fn endpoints_are_host_and_port() {
    assert_eq!(endpoint("example.net", 443), "example.net:443");
    assert_eq!(endpoint("[::1]", 0), "[::1]:0");
}

#[test]
fn literal_addresses_go_before_found_ones() {
    assert_eq!(resolve(Some(1), vec![2, 3]), Ok(1));
    assert_eq!(resolve(None, vec![2, 3]), Ok(2));
    assert_eq!(resolve::<u8>(None, vec![]), Err("no addresses resolved".to_string()));
}

#[test]
fn quiet_sockets_are_alive() {
    assert_eq!(after_poll(PollOutcome::Quiet), Probe::Dead(false));
}

#[test]
fn broken_sockets_are_dead() {
    assert_eq!(ready(PollFlags::POLLERR), Probe::Dead(true));
    assert_eq!(ready(PollFlags::POLLHUP), Probe::Dead(true));
    assert_eq!(ready(PollFlags::POLLNVAL), Probe::Dead(true));
    assert_eq!(ready(PollFlags::POLLIN | PollFlags::POLLHUP), Probe::Dead(true));
}

#[test]
fn readable_sockets_are_peeked_at() {
    assert_eq!(ready(PollFlags::POLLIN), Probe::Peek);
    assert_eq!(ready(PollFlags::POLLOUT), Probe::ReadError);
    assert_eq!(ready(PollFlags::POLLPRI), Probe::ReadError);
    assert_eq!(after_poll(PollOutcome::Ready(None)), Probe::ReadError);
}

#[test]
fn peek_finds_the_end_and_failures() {
    assert_eq!(after_peek(0, false), Probe::Dead(true));
    assert_eq!(after_peek(-1, false), Probe::Dead(true));
    assert_eq!(after_peek(-1, true), Probe::ReadError);
    assert_eq!(after_peek(1, false), Probe::ReadError);
}

#[test]
fn pending_error_is_deadly() {
    assert!(after_error(0, 104));
    assert!(!after_error(0, 0));
    assert!(!after_error(-1, 104));
}

#[test]
fn internet_addresses_are_read_in_network_order() {
    let family = Family::Inet { port: [0x1f, 0x90], addr: [192, 168, 1, 1] };
    let v4 = SockAddr::new(family, vec![2, 0, 0x1f, 0x90, 192, 168, 1, 1]).unwrap();
    assert_eq!(
        storage_to_net(&v4),
        Some(NetAddr::V4 { ip: 0xc0a8_0101, port: 8080 })
    );
    let addr = [0x20, 0x01, 0x0d, 0xb8, 0, 0, 0, 0, 0, 0, 0, 0, 0, 0xff, 0, 1];
    let mut bytes = vec![10, 0, 0xff, 0xff, 0, 0, 0, 0];
    bytes.extend_from_slice(&addr);
    let v6 = SockAddr::new(Family::Inet6 { port: [0xff, 0xff], addr }, bytes).unwrap();
    assert_eq!(
        storage_to_net(&v6),
        Some(NetAddr::V6 { ip: 0x2001_0db8_0000_0000_0000_0000_00ff_0001, port: 65_535 })
    );
    let unix = SockAddr { family: Family::Other, bytes: vec![1, 0] };
    assert_eq!(storage_to_net(&unix), None);
}

fn inet6(flow: u8, scope: u8, port: u8) -> SockAddr {
    let mut addr = [0u8; 16];
    addr[15] = 1;
    let mut bytes = vec![10, 0, 0, port, 0, 0, 0, flow];
    bytes.extend_from_slice(&addr);
    bytes.extend_from_slice(&[scope, 0, 0, 0]);
    SockAddr::new(Family::Inet6 { port: [0, port], addr }, bytes).unwrap()
}

fn inet(last: u8, pad: u8) -> SockAddr {
    let bytes = vec![2, 0, 0, 80, 127, 0, 0, last, pad, 0, 0, 0, 0, 0, 0, 0];
    SockAddr::new(Family::Inet { port: [0, 80], addr: [127, 0, 0, last] }, bytes).unwrap()
}

fn other(name: u8) -> SockAddr {
    SockAddr::new(Family::Other, vec![1, 0, name]).unwrap()
}

#[test]
fn addresses_are_compared_by_ip_and_port() {
    assert!(sockaddr_eq(&inet6(0, 0, 80), &inet6(0, 0, 80)));
    assert!(sockaddr_eq(&inet6(0, 0, 80), &inet6(1, 0, 80)));
    assert!(sockaddr_eq(&inet6(0, 0, 80), &inet6(0, 3, 80)));
    assert!(!sockaddr_eq(&inet6(0, 0, 80), &inet6(0, 0, 81)));
    assert!(sockaddr_eq(&inet(1, 0), &inet(1, 9)));
    assert!(!sockaddr_eq(&inet(1, 0), &inet(2, 0)));
    assert!(!sockaddr_eq(&inet(1, 0), &inet6(0, 0, 80)));
    assert!(!sockaddr_eq(&inet(1, 0), &other(1)));
    assert!(!sockaddr_eq(&other(1), &inet(1, 0)));
    assert!(sockaddr_eq(&other(1), &other(1)));
    assert!(!sockaddr_eq(&other(1), &other(2)));
}

#[test]
fn addresses_are_compared_byte_by_byte() {
    assert!(nix_storage_eq(&other(1), &other(1)));
    assert!(!nix_storage_eq(&other(1), &other(2)));
    assert!(nix_storage_eq(&inet6(0, 0, 80), &inet6(0, 0, 80)));
    assert!(!nix_storage_eq(&inet6(0, 0, 80), &inet6(1, 0, 80)));
    let short = SockAddr::new(Family::Other, vec![1, 0]).unwrap();
    assert!(!nix_storage_eq(&other(1), &short));
    let none = SockAddr::new(Family::Other, vec![]).unwrap();
    assert!(nix_storage_eq(&none, &none));
}

#[test]
fn parts_have_to_be_those_of_the_bytes() {
    let bytes = vec![2, 0, 0, 80, 127, 0, 0, 1];
    let parts = Family::Inet { port: [0, 80], addr: [127, 0, 0, 1] };
    assert!(SockAddr::new(parts, bytes.clone()).is_some());
    assert!(SockAddr::new(parts, vec![0, 2, 0, 80, 127, 0, 0, 1]).is_some());
    assert!(SockAddr::new(parts, bytes[..7].to_vec()).is_none());
    assert!(SockAddr::new(parts, vec![10, 0, 0, 80, 127, 0, 0, 1]).is_none());
    let port = Family::Inet { port: [0, 81], addr: [127, 0, 0, 1] };
    assert!(SockAddr::new(port, bytes.clone()).is_none());
    let addr = Family::Inet { port: [0, 80], addr: [127, 0, 0, 2] };
    assert!(SockAddr::new(addr, bytes.clone()).is_none());
    assert!(SockAddr::new(Family::Other, bytes).is_none());
    let wide = Family::Inet6 { port: [0, 80], addr: [0; 16] };
    assert!(SockAddr::new(wide, vec![10, 0, 0, 80]).is_none());
}
