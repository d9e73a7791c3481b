use actix_learn::stream::{open_stream, render_frame, EmitterState, Pull, PERIOD_MS, STREAM_LEN};

fn chunk(p: Pull) -> String {
    match p {
        Pull::Chunk(c) => c,
        other => panic!("expected a chunk, got {:?}", other),
    }
}

#[test]
fn stream_yields_ten_numbered_frames_in_order() {
    let mut s = open_stream(0);
    let mut got = Vec::new();
    for i in 0..20u64 {
        if let Pull::Chunk(c) = s.poll(i * PERIOD_MS) {
            got.push(c);
        }
    }
    let want: Vec<String> = (1..=10).map(|n| format!("data: {}\n\n", n)).collect();
    assert_eq!(got, want);
    assert_eq!(STREAM_LEN, 10);
}

#[test]
fn first_frame_is_due_at_once() {
    let mut s = open_stream(5_000);
    assert_eq!(s.poll(4_999), Pull::Pending);
    assert_eq!(chunk(s.poll(5_000)), "data: 1\n\n");
}

#[test]
fn less_than_a_period_yields_nothing_a_full_period_yields_one() {
    let mut s = open_stream(0);
    assert_eq!(chunk(s.poll(0)), "data: 1\n\n");
    assert_eq!(s.poll(PERIOD_MS - 1), Pull::Pending);
    assert_eq!(s.sequence_number(), 1);
    assert_eq!(chunk(s.poll(PERIOD_MS)), "data: 2\n\n");
    assert_eq!(s.poll(PERIOD_MS), Pull::Pending);
    assert_eq!(s.next_due(), 2 * PERIOD_MS);
}

#[test]
fn a_late_pull_pushes_the_next_frame_a_period_past_it() {
    let mut s = open_stream(0);
    chunk(s.poll(0));
    assert_eq!(chunk(s.poll(3_500)), "data: 2\n\n");
    assert_eq!(s.poll(4_000), Pull::Pending);
    assert_eq!(s.poll(4_499), Pull::Pending);
    assert_eq!(chunk(s.poll(4_500)), "data: 3\n\n");
}

#[test]
fn after_the_tenth_frame_the_stream_is_exhausted() {
    let mut s = open_stream(0);
    for i in 0..10u64 {
        chunk(s.poll(i * PERIOD_MS));
    }
    assert!(s.is_exhausted());
    assert_eq!(s.remaining_ticks(), 0);
    assert_eq!(s.poll(10 * PERIOD_MS), Pull::Exhausted);
    assert_eq!(s.poll(u64::MAX), Pull::Exhausted);
    assert_eq!(s.sequence_number(), 10);
}

#[test]
fn dropping_a_stream_after_three_frames_is_clean() {
    let mut s = open_stream(0);
    for i in 0..3u64 {
        chunk(s.poll(i * PERIOD_MS));
    }
    assert_eq!(s.sequence_number(), 3);
    assert_eq!(s.remaining_ticks(), 7);
    drop(s);
    let mut fresh = open_stream(0);
    assert_eq!(chunk(fresh.poll(0)), "data: 1\n\n");
}

#[test]
fn pending_pull_leaves_the_state_alone() {
    let mut s = EmitterState::new(100, 50);
    assert_eq!(s.poll(99), Pull::Pending);
    assert_eq!(s.sequence_number(), 0);
    assert_eq!(s.remaining_ticks(), 10);
    assert_eq!(s.next_due(), 100);
    assert_eq!(s.period(), 50);
}

#[test]
fn next_due_stops_at_the_end_of_time() {
    let mut s = EmitterState::new(u64::MAX - 10, 1_000);
    assert_eq!(chunk(s.poll(u64::MAX - 5)), "data: 1\n\n");
    assert_eq!(s.next_due(), u64::MAX);
    assert_eq!(chunk(s.poll(u64::MAX)), "data: 2\n\n");
}

#[test]
fn frames_carry_the_decimal_number() {
    assert_eq!(render_frame(0), "data: 0\n\n");
    assert_eq!(render_frame(10), "data: 10\n\n");
    assert_eq!(render_frame(u64::MAX), format!("data: {}\n\n", u64::MAX));
}
