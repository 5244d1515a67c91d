use relay::accept::{
    after_register, connect_result, exhausted_line, stats_line, AcceptWork, Acceptor, CallError,
    ConnectResult, RegisterWork,
};

#[test]
fn pool_is_asked_first_where_there_is_one() {
    let mut acceptor = Acceptor::new();
    assert_eq!(acceptor.on_client(32), AcceptWork::TakeFromPool);
    assert_eq!(acceptor.on_client(0), AcceptWork::ConnectDirectly);
    assert_eq!(acceptor.accepts, 2);
    assert_eq!(acceptor.pool_hits, 0);
}

#[test]
fn pooled_connection_is_used_at_once() {
    let mut acceptor = Acceptor::new();
    assert_eq!(acceptor.on_pool(true), AcceptWork::MakePipes { connecting: false });
    assert_eq!(acceptor.pool_hits, 1);
    assert_eq!(acceptor.on_pool(false), AcceptWork::ConnectDirectly);
    assert_eq!(acceptor.pool_hits, 1);
    assert_eq!(exhausted_line(), "Exceeded Connections Pool, Direct Out...");
}

#[test]
fn direct_connections_stand_or_are_pending_or_fail() {
    let acceptor = Acceptor::new();
    assert_eq!(
        acceptor.on_direct(ConnectResult::Connected),
        AcceptWork::MakePipes { connecting: false }
    );
    assert_eq!(
        acceptor.on_direct(ConnectResult::InProgress),
        AcceptWork::MakePipes { connecting: true }
    );
    assert_eq!(acceptor.on_direct(ConnectResult::Failed), AcceptWork::GiveUp);
}

#[test]
fn generations_wrap_around() {
    let mut acceptor = Acceptor::new();
    let first = acceptor.open(true, 5);
    assert_eq!((first.gen, first.connecting, first.connect_start), (0, true, 5));
    assert_eq!(acceptor.open(false, 6).gen, 1);
    acceptor.next_gen = u16::MAX;
    assert_eq!(acceptor.open(false, 7).gen, u16::MAX);
    assert_eq!(acceptor.open(false, 8).gen, 0);
}

#[test]
fn registration_decides_how_a_connection_goes_on() {
    assert_eq!(after_register(false, true), RegisterWork::Free);
    assert_eq!(after_register(false, false), RegisterWork::Free);
    assert_eq!(after_register(true, true), RegisterWork::PollRemote);
    assert_eq!(after_register(true, false), RegisterWork::Wait);
}

#[test]
fn figures_are_reported_in_one_line() {
    let mut acceptor = Acceptor::new();
    acceptor.accepts = 8;
    acceptor.pool_hits = 6;
    assert_eq!(
        stats_line(&acceptor, 30, 32, "75", 4),
        "Stats: pool=30/32 hit=75% (6/8) active_tcp=4"
    );
}

#[test]
fn connect_call_stands_or_goes_on_or_fails() {
    assert_eq!(connect_result(Ok(())), ConnectResult::Connected);
    assert_eq!(connect_result(Err(CallError::InProgress)), ConnectResult::InProgress);
    assert_eq!(connect_result(Err(CallError::Other)), ConnectResult::Failed);
}
