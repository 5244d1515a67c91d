use relay::token::{
    decode_token, encode_token, route, udp_token, Source, TOKEN_ACCEPT, TOKEN_UDP, UDP_BASE,
};

#[test]
fn tokens_hold_generation_slot_and_side() {
    assert_eq!(encode_token(0, 0, 0), 0);
    assert_eq!(encode_token(0, 0, 1), 1);
    assert_eq!(encode_token(0, 3, 1), 7);
    assert_eq!(encode_token(1, 0, 0), 1 << 48);
    assert_eq!(encode_token(0xffff, 5, 1), 0xffff_0000_0000_000b);
}

#[test]
fn tokens_are_read_back() {
    for gen in [0u16, 1, 255, 65_535] {
        for idx in [0usize, 1, 77, 1 << 30, (1 << 47) - 1] {
            for side in [0u8, 1] {
                let token = encode_token(gen, idx, side);
                assert_eq!(decode_token(token), (gen, idx, side == 1));
            }
        }
    }
}

#[test]
fn tokens_of_an_earlier_generation_differ() {
    assert!(encode_token(4, 9, 0) != encode_token(5, 9, 0));
    assert_eq!(decode_token(encode_token(4, 9, 0)).0, 4);
}

#[test]
fn events_are_routed_by_token() {
    assert_eq!(route(TOKEN_ACCEPT, 10), Source::TcpListener);
    assert_eq!(route(TOKEN_UDP, 10), Source::UdpListener);
    assert_eq!(route(UDP_BASE, 10), Source::UdpUpstream(0));
    assert_eq!(route(udp_token(9), 10), Source::UdpUpstream(9));
    assert_eq!(
        route(encode_token(2, 8, 1), 10),
        Source::Connection { gen: 2, idx: 8, is_remote: true }
    );
}

#[test]
fn tokens_behind_the_upstream_slots_are_connections() {
    let token = udp_token(10);
    assert_eq!(
        route(token, 10),
        Source::Connection { gen: 0, idx: (token >> 1) as usize, is_remote: false }
    );
}

#[test]
fn token_constants() {
    assert_eq!(TOKEN_ACCEPT, u64::MAX);
    assert_eq!(TOKEN_UDP, u64::MAX - 1);
    assert_eq!(UDP_BASE, 1 << 26);
    assert_eq!(udp_token(3), (1 << 26) + 3);
}

#[test]
fn connections_and_upstream_sockets_have_different_tokens() {
    let last = encode_token(0, (1 << 25) - 1, 1);
    assert_eq!(last, UDP_BASE - 1);
    assert!(encode_token(1, 0, 0) > udp_token(0xfbff_ffff));
}
