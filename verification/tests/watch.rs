use relay::conn::ConnState;
use relay::token::decode_token;
use relay::watch::{conn_watch, first_watch, listen_mask};

use nix::sys::epoll::EpollFlags;

const CHUNK: usize = 100;

fn flags(mask: i32) -> EpollFlags {
    EpollFlags::from_bits(mask).unwrap()
}

#[test]
fn open_connection_is_watched_for_reading_on_both_sides() {
    let c = ConnState::new(3, false, 0);
    let plan = conn_watch(&c, 5, CHUNK);
    let reading = EpollFlags::EPOLLET | EpollFlags::EPOLLRDHUP | EpollFlags::EPOLLIN;
    assert_eq!(flags(plan.mask_l), reading);
    assert_eq!(flags(plan.mask_r), reading);
    assert_eq!(decode_token(plan.token_l), (3, 5, false));
    assert_eq!(decode_token(plan.token_r), (3, 5, true));
}

#[test]
fn full_pipe_is_not_read_into_but_its_destination_is_watched() {
    let mut c = ConnState::new(0, false, 0);
    c.l2r.len = CHUNK;
    let plan = conn_watch(&c, 0, CHUNK);
    assert_eq!(flags(plan.mask_l), EpollFlags::EPOLLET | EpollFlags::EPOLLRDHUP);
    assert_eq!(
        flags(plan.mask_r),
        EpollFlags::EPOLLET | EpollFlags::EPOLLRDHUP | EpollFlags::EPOLLIN | EpollFlags::EPOLLOUT
    );
    let mut c = ConnState::new(0, false, 0);
    c.r2l.len = CHUNK;
    let plan = conn_watch(&c, 0, CHUNK);
    assert_eq!(flags(plan.mask_r), EpollFlags::EPOLLET | EpollFlags::EPOLLRDHUP);
    assert!(flags(plan.mask_l).contains(EpollFlags::EPOLLOUT));
}

#[test]
fn partly_filled_pipe_is_read_into_and_drained() {
    let mut c = ConnState::new(0, false, 0);
    c.r2l.len = 1;
    let plan = conn_watch(&c, 0, CHUNK);
    assert!(flags(plan.mask_r).contains(EpollFlags::EPOLLIN));
    assert!(flags(plan.mask_l).contains(EpollFlags::EPOLLIN | EpollFlags::EPOLLOUT));
}

#[test]
fn ended_source_is_not_read_any_more() {
    let mut c = ConnState::new(0, false, 0);
    c.l2r.eof = true;
    c.l2r.shut = true;
    let plan = conn_watch(&c, 0, CHUNK);
    assert_eq!(flags(plan.mask_l), EpollFlags::EPOLLET);
    assert!(!flags(plan.mask_r).contains(EpollFlags::EPOLLOUT));
}

#[test]
fn first_watch_of_a_standing_connection_reads_both_sides() {
    let c = ConnState::new(1, false, 0);
    let plan = first_watch(&c, 2);
    let reading = EpollFlags::EPOLLET | EpollFlags::EPOLLRDHUP | EpollFlags::EPOLLIN;
    assert_eq!(flags(plan.mask_l), reading);
    assert_eq!(flags(plan.mask_r), reading);
    assert_eq!(decode_token(plan.token_r), (1, 2, true));
}

#[test]
fn first_watch_of_a_pending_connection_waits_for_the_remote_end() {
    let c = ConnState::new(1, true, 0);
    let plan = first_watch(&c, 2);
    assert_eq!(flags(plan.mask_l), EpollFlags::EPOLLET | EpollFlags::EPOLLRDHUP);
    assert_eq!(
        flags(plan.mask_r),
        EpollFlags::EPOLLOUT | EpollFlags::EPOLLRDHUP | EpollFlags::EPOLLERR | EpollFlags::EPOLLHUP
    );
}

#[test]
fn listeners_are_watched_for_reading_by_edges() {
    assert_eq!(flags(listen_mask()), EpollFlags::EPOLLIN | EpollFlags::EPOLLET);
    assert_eq!(listen_mask(), i32::MIN + 1);
}
