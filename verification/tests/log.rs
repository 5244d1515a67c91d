use relay::log::{collect, flush_all, has_room, init, maybe_flush, push, LOG_QUEUE_MAX};
use std::collections::VecDeque;

fn line(i: usize) -> String {
    format!("line {i}")
}

#[test]
fn lines_are_printed_in_order() {
    let mut st = init(true, 24);
    push(&mut st, "a".to_string());
    push(&mut st, "b".to_string());
    assert_eq!(maybe_flush(&mut st, 100), vec!["a".to_string(), "b".to_string()]);
    assert_eq!(st.quota, 22);
    assert!(maybe_flush(&mut st, 100).is_empty());
}

#[test]
fn rate_is_kept_and_the_rest_is_reported() {
    let mut st = init(true, 3);
    for i in 0..5 {
        push(&mut st, line(i));
    }
    assert_eq!(maybe_flush(&mut st, 1), vec![line(0), line(1), line(2)]);
    assert_eq!((st.dropped, st.quota), (2, 0));
    push(&mut st, line(5));
    assert!(maybe_flush(&mut st, 1).is_empty());
    assert_eq!(st.dropped, 3);
    push(&mut st, line(6));
    push(&mut st, line(7));
    push(&mut st, line(8));
    assert_eq!(
        maybe_flush(&mut st, 2),
        vec!["Log dropped: 3".to_string(), line(6), line(7)]
    );
    assert_eq!((st.dropped, st.quota), (1, 0));
}

#[test]
fn no_second_prints_more_than_the_rate() {
    let mut st = init(true, 4);
    let mut printed = 0;
    for round in 0..20 {
        for i in 0..round {
            push(&mut st, line(i));
        }
        printed += maybe_flush(&mut st, 77).len();
    }
    assert_eq!(printed, 4);
}

#[test]
fn full_queue_counts_what_it_drops() {
    let mut st = init(true, 2);
    for i in 0..LOG_QUEUE_MAX + 3 {
        push(&mut st, line(i));
    }
    assert_eq!(st.queue.len(), 4096);
    assert_eq!(st.dropped, 3);
    assert_eq!(maybe_flush(&mut st, 9), vec!["Log dropped: 3".to_string(), line(0)]);
    assert_eq!(st.dropped, 4095);
}

#[test]
fn disabled_log_swallows_everything() {
    let mut st = init(false, 24);
    push(&mut st, line(0));
    assert!(maybe_flush(&mut st, 5).is_empty());
    assert!(st.queue.is_empty());
    assert_eq!((st.dropped, st.last_sec), (0, 0));
}

#[test]
fn zero_rate_prints_nothing_but_counts() {
    let mut st = init(true, 0);
    push(&mut st, line(0));
    assert!(maybe_flush(&mut st, 5).is_empty());
    assert_eq!(st.dropped, 1);
}

#[test]
fn last_flush_prints_everything() {
    let mut st = init(true, 1);
    for i in 0..3 {
        push(&mut st, line(i));
    }
    assert_eq!(maybe_flush(&mut st, 1), vec![line(0)]);
    push(&mut st, line(3));
    push(&mut st, line(4));
    assert_eq!(
        flush_all(&mut st),
        vec!["Log dropped: 2".to_string(), line(3), line(4)]
    );
    assert!(flush_all(&mut st).is_empty());
}

#[test]
fn log_without_room_says_so() {
    let mut st = init(true, 1);
    st.dropped = usize::MAX;
    assert!(has_room(&st, 0));
    assert!(!has_room(&st, 1));
    st.dropped = usize::MAX - 5;
    push(&mut st, line(0));
    assert!(has_room(&st, 4));
    assert!(!has_room(&st, 5));
    assert!(!has_room(&st, usize::MAX));
}

#[test]
fn collected_lines_are_pushed_in_order_and_losses_counted() {
    let mut st = init(true, 24);
    push(&mut st, line(0));
    collect(&mut st, VecDeque::from(vec![line(1), line(2)]), 7);
    assert_eq!(st.dropped, 7);
    assert_eq!(
        maybe_flush(&mut st, 1),
        vec!["Log dropped: 7".to_string(), line(0), line(1), line(2)]
    );
    let many: VecDeque<String> = (0..LOG_QUEUE_MAX + 2).map(line).collect();
    collect(&mut st, many, 1);
    assert_eq!((st.queue.len(), st.dropped), (4096, 3));
}

#[test]
fn every_line_of_a_run_is_printed_or_reported() {
    let mut st = init(true, 3);
    let (mut pushed, mut messages, mut reported) = (0usize, Vec::new(), 0usize);
    for sec in 0..10u64 {
        for _ in 0..(sec % 5) * 2 {
            push(&mut st, line(pushed));
            pushed += 1;
        }
        for text in maybe_flush(&mut st, 100 + sec / 2) {
            match text.strip_prefix("Log dropped: ") {
                Some(n) => reported += n.parse::<usize>().unwrap(),
                None => messages.push(text),
            }
        }
        assert_eq!(pushed, messages.len() + reported + st.queue.len() + st.dropped);
    }
    let numbers: Vec<usize> =
        messages.iter().map(|m| m["line ".len()..].parse::<usize>().unwrap()).collect();
    assert!(numbers.windows(2).all(|w| w[0] < w[1]));
    assert!(reported > 0 && !numbers.is_empty());
}

#[test]
fn last_flush_of_a_disabled_log_prints_what_is_left() {
    let mut st = init(false, 24);
    for i in 0..LOG_QUEUE_MAX + 1 {
        push(&mut st, line(i));
    }
    assert!(maybe_flush(&mut st, 1).is_empty());
    push(&mut st, line(9));
    assert_eq!(flush_all(&mut st), vec!["Log dropped: 1".to_string(), line(9)]);
}
