use coio::datagram::DatagramQueue;
use coio::datagram::RecvPoll;
use coio::evented::Evented;
use coio::evented::OpKind;
use coio::evented::deadline_from;
use coio::listener::ListenerQueue;
use coio::listener::accept_race_pair;
use coio::ready::ReadyFlag;
use coio::ready::ReadySet;
use coio::retry::Attempt;
use coio::retry::Round;
use coio::retry::run_retry_loop;
use coio::retry::SockError;
use coio::retry::Step;
use coio::retry::after_recheck;
use coio::retry::after_wake;
use coio::retry::begin_wait;
use coio::retry::on_attempt;
use coio::retry::short_circuit_write;
use coio::retry::slow_path_pass;
use coio::retry::verify_connect;
use coio::retry::wakeup_in_window_pass;
use coio::stream::ReadPoll;
use coio::stream::StreamBuf;
use coio::stream::read_to_end_chunked;
use coio::waiters::ReadyState;

#[test]
fn ready_set_is_a_bitset() {
    let mut s = ReadySet::none();
    assert!(!s.contains(ReadyFlag::Readable));
    s.insert(ReadyFlag::Readable);
    s.insert(ReadyFlag::HangUp);
    assert!(s.contains(ReadyFlag::Readable));
    assert!(s.contains(ReadyFlag::HangUp));
    assert!(!s.contains(ReadyFlag::Writable));
    assert!(!s.contains(ReadyFlag::Error));
    s.remove(ReadyFlag::Readable);
    assert!(!s.contains(ReadyFlag::Readable));
    assert!(s.contains(ReadyFlag::HangUp));
}

#[test]
fn fast_path_success_and_errors() {
    assert_eq!(on_attempt(Attempt::Done(7usize)), Some(Ok(7)));
    assert_eq!(
        on_attempt::<usize>(Attempt::Fail(13)),
        Some(Err(SockError::Os(13)))
    );
    assert_eq!(on_attempt::<usize>(Attempt::WouldBlock), None);
    assert_eq!(on_attempt::<usize>(Attempt::InProgress), None);
}

#[test]
fn eof_is_success_not_error() {
    // A zero-length read is reported as a success, exactly like any other.
    assert_eq!(on_attempt(Attempt::Done(0usize)), Some(Ok(0)));

    // On the stream model: writer closed, nothing buffered.
    let mut s = StreamBuf::new();
    s.close_writer();
    assert!(matches!(s.poll_read(16), ReadPoll::Eof));
}

#[test]
fn buffered_data_survives_writer_close() {
    let mut s = StreamBuf::new();
    s.commit_write(&vec![1u8, 2, 3], 3);
    s.close_writer();
    match s.poll_read(16) {
        ReadPoll::Data(d) => assert_eq!(d, vec![1u8, 2, 3]),
        _ => panic!("buffered bytes must still be readable"),
    }
    assert!(matches!(s.poll_read(16), ReadPoll::NotReady | ReadPoll::Eof));
}

#[test]
fn round_trip_with_partial_writes_and_reads() {
    let payload = b"abcdefg".to_vec();
    let mut s = StreamBuf::new();
    // The OS accepts the write in two parts...
    s.commit_write(&payload, 3);
    let tail = payload[3..].to_vec();
    s.commit_write(&tail, tail.len());
    // ...and the reader drains it in chunks of at most 2 bytes.
    let got = read_to_end_chunked(&mut s, 2);
    assert_eq!(got, payload);
}

#[test]
fn partial_write_takes_a_prefix() {
    let mut s = StreamBuf::new();
    s.commit_write(&vec![9u8, 8, 7, 6], 2);
    let got = read_to_end_chunked(&mut s, 16);
    assert_eq!(got, vec![9u8, 8, 7, 6][..2].to_vec());
}

#[test]
fn empty_payload_round_trip() {
    let mut s = StreamBuf::new();
    let empty: Vec<u8> = Vec::new();
    s.commit_write(&empty, 0);
    assert_eq!(read_to_end_chunked(&mut s, 4), empty);
}

#[test]
fn write_of_zero_bytes_short_circuits() {
    assert_eq!(short_circuit_write(0), Some(0));
    assert_eq!(short_circuit_write(5), None);
}

#[test]
fn notify_is_a_broadcast() {
    let mut state = ReadyState::new();
    state.register(10, ReadyFlag::Readable);
    state.register(11, ReadyFlag::Readable);
    state.register(12, ReadyFlag::Writable);
    state.register(13, ReadyFlag::Readable);
    let woken = state.notify(ReadyFlag::Readable);
    // Every accept-style waiter wakes; the write waiter stays suspended.
    assert_eq!(woken, vec![10u64, 11, 13]);
    assert_eq!(state.waiters.len(), 1);
    assert_eq!(state.waiters[0].id, 12);
    assert!(state.is_ready(ReadyFlag::Readable));
    assert!(!state.is_ready(ReadyFlag::Writable));
}

#[test]
fn wakeup_in_the_arm_recheck_window_is_not_lost() {
    let mut state = ReadyState::new();
    // The read attempt saw would-block: clear the flag, arm the guard.
    let mut guard = begin_wait(&mut state, 42, ReadyFlag::Readable);
    // Data arrives *now*, between the recheck and the suspension.
    let woken = state.notify(ReadyFlag::Readable);
    assert_eq!(woken, vec![42u64]);
    // The coroutine is made runnable, so its wait returns without expiry;
    // the loop retries and observes the data.
    let r = after_wake(&mut state, &mut guard, false);
    assert_eq!(r, None);
    assert_eq!(on_attempt(Attempt::Done(7usize)), Some(Ok(7)));
    assert_eq!(state.waiters.len(), 0);
}

#[test]
fn loop_absorbs_would_block_until_success() {
    let mut state = ReadyState::new();
    // Two fruitless rounds — woken by readiness that a rival consumed
    // first — then the attempt wins: the caller sees only the success.
    let rounds = vec![
        Round { attempt: Attempt::WouldBlock, recheck: Attempt::WouldBlock, wake_timed_out: false },
        Round { attempt: Attempt::WouldBlock, recheck: Attempt::WouldBlock, wake_timed_out: false },
        Round { attempt: Attempt::Done(7usize), recheck: Attempt::WouldBlock, wake_timed_out: false },
    ];
    let r = run_retry_loop(rounds, &mut state, 5, ReadyFlag::Readable, None, 0);
    assert_eq!(r, Some(Ok(7)));
    assert_eq!(state.waiters.len(), 0);
}

#[test]
fn loop_returns_first_real_error_unretried() {
    let mut state = ReadyState::new();
    let rounds = vec![
        Round { attempt: Attempt::WouldBlock, recheck: Attempt::Fail::<usize>(104), wake_timed_out: false },
        Round { attempt: Attempt::Done(1usize), recheck: Attempt::WouldBlock, wake_timed_out: false },
    ];
    let r = run_retry_loop(rounds, &mut state, 5, ReadyFlag::Readable, None, 0);
    assert_eq!(r, Some(Err(SockError::Os(104))));
}

#[test]
fn loop_times_out_when_the_wait_expires() {
    let mut state = ReadyState::new();
    // One full suspension that expires: the deadline cuts the loop short.
    let rounds = vec![
        Round { attempt: Attempt::WouldBlock, recheck: Attempt::WouldBlock, wake_timed_out: false },
        Round { attempt: Attempt::WouldBlock, recheck: Attempt::WouldBlock, wake_timed_out: true },
        Round { attempt: Attempt::Done(9usize), recheck: Attempt::WouldBlock, wake_timed_out: false },
    ];
    let r = run_retry_loop(rounds, &mut state, 5, ReadyFlag::Readable, Some(200), 100);
    assert_eq!(r, Some(Err(SockError::TimedOut)));
    assert_eq!(state.waiters.len(), 0);
}

#[test]
fn injected_wakeup_reaches_the_armed_waiter() {
    let mut state = ReadyState::new();
    let woken = wakeup_in_window_pass(&mut state, 42, ReadyFlag::Readable);
    assert!(woken.contains(&42));
    assert_eq!(state.waiters.len(), 0);
    assert!(state.is_ready(ReadyFlag::Readable));
}

#[test]
fn racing_accepts_get_distinct_connections() {
    let mut q = ListenerQueue::new();
    let first = q.arrive();
    let second = q.arrive();
    let (a, b) = accept_race_pair(&mut q);
    assert_eq!(a, first);
    assert_eq!(b, second);
    assert_ne!(a, b);
    assert_eq!(q.try_accept(), None);
}

#[test]
fn recheck_catches_readiness_before_suspending() {
    let mut state = ReadyState::new();
    let mut guard = begin_wait(&mut state, 42, ReadyFlag::Readable);
    // The recheck itself succeeds: no suspension, guard released.
    let step = after_recheck(Attempt::Done(3usize), &mut state, &mut guard, None, 0);
    assert!(matches!(step, Step::Return(Ok(3))));
    assert_eq!(state.waiters.len(), 0);
}

#[test]
fn past_deadline_times_out_without_suspending() {
    let mut state = ReadyState::new();
    // A zero timeout yields a deadline equal to `now`: immediate expiry.
    assert_eq!(deadline_from(10, 0), 10);
    let r = slow_path_pass::<usize>(
        Attempt::WouldBlock,
        &mut state,
        1,
        ReadyFlag::Readable,
        Some(10),
        10,
        false,
    );
    assert_eq!(r, Some(Err(SockError::TimedOut)));
    assert_eq!(state.waiters.len(), 0);
}

#[test]
fn elapsed_wait_times_out_and_resource_stays_usable() {
    let mut ev = Evented::new(1);
    ev.set_read_timeout(Some(50));
    let deadline = ev.deadline_for(OpKind::Read, 100);
    assert_eq!(deadline, Some(150));
    // No data ever arrives; the wait elapses.
    let r = slow_path_pass::<usize>(
        Attempt::WouldBlock,
        &mut ev.ready,
        1,
        ReadyFlag::Readable,
        deadline,
        100,
        true,
    );
    assert_eq!(r, Some(Err(SockError::TimedOut)));
    // The timeout is not terminal: no waiter leaked, and a subsequent
    // operation on the same resource proceeds normally.
    assert_eq!(ev.ready.waiters.len(), 0);
    let r2 = slow_path_pass::<usize>(
        Attempt::Done(5),
        &mut ev.ready,
        1,
        ReadyFlag::Writable,
        None,
        0,
        false,
    );
    assert_eq!(r2, Some(Ok(5)));
}

#[test]
fn future_deadline_suspends_until_it() {
    let mut state = ReadyState::new();
    let mut guard = begin_wait(&mut state, 9, ReadyFlag::Writable);
    let step = after_recheck::<usize>(Attempt::WouldBlock, &mut state, &mut guard, Some(150), 100);
    assert!(matches!(step, Step::WaitUntil(150)));
    // Still registered while suspended.
    assert_eq!(state.waiters.len(), 1);
    let r = after_wake(&mut state, &mut guard, true);
    assert_eq!(r, Some(SockError::TimedOut));
    assert_eq!(state.waiters.len(), 0);
}

#[test]
fn deadline_arithmetic_saturates() {
    assert_eq!(deadline_from(u64::MAX, 5), u64::MAX);
    assert_eq!(deadline_from(u64::MAX - 3, 3), u64::MAX);
    assert_eq!(deadline_from(7, 5), 12);
}

#[test]
fn connect_in_progress_is_a_would_block() {
    let mut state = ReadyState::new();
    let r = slow_path_pass::<()>(
        Attempt::InProgress,
        &mut state,
        2,
        ReadyFlag::Writable,
        None,
        0,
        false,
    );
    // Not an error: the connect simply waits for writability.
    assert_eq!(r, None);
    assert_eq!(state.waiters.len(), 0);
}

#[test]
fn connect_is_verified_after_first_readiness() {
    assert_eq!(verify_connect(None), Ok(()));
    assert_eq!(verify_connect(Some(111)), Err(SockError::ConnectionFailed));
}

#[test]
fn os_errors_propagate_unchanged() {
    let mut state = ReadyState::new();
    let r = slow_path_pass::<usize>(
        Attempt::Fail(32),
        &mut state,
        3,
        ReadyFlag::Writable,
        None,
        0,
        false,
    );
    assert_eq!(r, Some(Err(SockError::Os(32))));
}

#[test]
fn accepts_deliver_distinct_connections() {
    let mut q = ListenerQueue::new();
    let a = q.arrive();
    let b = q.arrive();
    let c = q.arrive();
    assert!(a != b && b != c && a != c);
    // Three racing accept calls: each connection is handed out exactly once.
    assert_eq!(q.try_accept(), Some(a));
    assert_eq!(q.try_accept(), Some(b));
    assert_eq!(q.try_accept(), Some(c));
    // The loser of the final race just observes would-block.
    assert_eq!(q.try_accept(), None);
}

#[test]
fn clone_starts_with_independent_fresh_readiness() {
    let mut ev = Evented::new(1);
    ev.set_read_timeout(Some(30));
    let _ = ev.ready.notify(ReadyFlag::Readable);
    let clone = ev.clone_bookkeeping(2);
    // The clone inherits neither flags nor waiters nor deadlines...
    assert!(!clone.ready.is_ready(ReadyFlag::Readable));
    assert_eq!(clone.ready.waiters.len(), 0);
    assert_eq!(clone.get_read_timeout(), None);
    assert_eq!(clone.get_write_timeout(), None);
    assert!(clone.token != ev.token);
    // ...and the original keeps its own state untouched.
    assert!(ev.ready.is_ready(ReadyFlag::Readable));
    assert_eq!(ev.get_read_timeout(), Some(30));
}

#[test]
fn timeout_accessors_are_independent() {
    let mut ev = Evented::new(7);
    ev.set_read_timeout(Some(5));
    ev.set_write_timeout(Some(9));
    assert_eq!(ev.get_read_timeout(), Some(5));
    assert_eq!(ev.get_write_timeout(), Some(9));
    ev.set_read_timeout(None);
    assert_eq!(ev.get_read_timeout(), None);
    assert_eq!(ev.get_write_timeout(), Some(9));
    assert_eq!(ev.deadline_for(OpKind::Write, 100), Some(109));
    assert_eq!(ev.deadline_for(OpKind::Read, 100), None);
}

#[test]
fn closing_a_resource_wakes_every_waiter() {
    let mut state = ReadyState::new();
    state.register(1, ReadyFlag::Readable);
    state.register(2, ReadyFlag::Writable);
    state.register(3, ReadyFlag::Readable);
    // The resource is torn down mid-wait: nobody stays suspended.
    let woken = state.close_all();
    assert_eq!(woken, vec![1u64, 2, 3]);
    assert_eq!(state.waiters.len(), 0);
    assert!(state.is_ready(ReadyFlag::HangUp));
}

#[test]
fn datagram_echo_round_trip() {
    let payload = b"abcdefg".to_vec();
    // The sender's datagram reaches the echoer...
    let mut echoer = DatagramQueue::new();
    echoer.deliver(payload.clone(), 55);
    let (bytes, peer) = match echoer.poll_recv(1024) {
        RecvPoll::Packet(b, p) => (b, p),
        RecvPoll::NotReady => panic!("a datagram was pending"),
    };
    assert_eq!(peer, 55);
    // ...who sends it back whole to the reported address.
    let mut sender = DatagramQueue::new();
    sender.deliver(bytes, 77);
    match sender.poll_recv(1024) {
        RecvPoll::Packet(b, p) => {
            assert_eq!(b, payload);
            assert_eq!(p, 77);
        }
        RecvPoll::NotReady => panic!("the echo was pending"),
    }
    assert!(matches!(sender.poll_recv(1024), RecvPoll::NotReady));
}

#[test]
fn short_receive_truncates_one_datagram_only() {
    let mut q = DatagramQueue::new();
    q.deliver(vec![1u8, 2, 3, 4, 5], 9);
    q.deliver(vec![6u8, 7], 9);
    // A small buffer keeps the head of the first datagram and discards the
    // rest of it; the second datagram is untouched.
    match q.poll_recv(3) {
        RecvPoll::Packet(b, _) => assert_eq!(b, vec![1u8, 2, 3]),
        RecvPoll::NotReady => panic!("a datagram was pending"),
    }
    match q.poll_recv(3) {
        RecvPoll::Packet(b, _) => assert_eq!(b, vec![6u8, 7]),
        RecvPoll::NotReady => panic!("a datagram was pending"),
    }
}

#[test]
fn deregister_leaves_other_waiters() {
    let mut state = ReadyState::new();
    state.register(1, ReadyFlag::Readable);
    state.register(2, ReadyFlag::Writable);
    state.deregister(1);
    assert_eq!(state.waiters.len(), 1);
    assert_eq!(state.waiters[0].id, 2);
    state.deregister(2);
    assert_eq!(state.waiters.len(), 0);
}
