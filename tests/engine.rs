use slowloris::config::{
    KeepAliveConfig, TargetSpec, DEFAULT_MAX_INTERVAL_SECS, DEFAULT_MIN_INTERVAL_SECS,
    PACING_DELAY_MS,
};
use slowloris::random::{random_byte, random_secs_between};
use slowloris::request::{opening_request, partial_request};
use slowloris::supervisor::Supervisor;
use slowloris::unit::{step, UnitAction, UnitEvent, UnitState};

fn has_blank_line(bytes: &[u8]) -> bool {
    bytes.windows(4).any(|w| w == b"\r\n\r\n")
}

#[test]
fn partial_request_exact_bytes() {
    let r = partial_request(b"X11; Linux x86_64");
    assert_eq!(r, b"GET / HTTP/1.0\r\nUser-Agent: X11; Linux x86_64\r\nX-a: ".to_vec());
}

#[test]
fn partial_request_with_empty_agent() {
    let r = partial_request(b"");
    assert_eq!(r, b"GET / HTTP/1.0\r\nUser-Agent: \r\nX-a: ".to_vec());
    assert!(!has_blank_line(&r));
}

#[test]
fn opening_request_never_ends_headers() {
    for _ in 0..1000 {
        let r = opening_request();
        assert!(r.starts_with(b"GET / HTTP/1.0\r\nUser-Agent: "));
        assert!(r.ends_with(b"\r\nX-a: "));
        assert!(!has_blank_line(&r));
        let agent = &r[28..r.len() - 7];
        assert!(!agent.is_empty());
        assert!(!agent.contains(&b'\r') && !agent.contains(&b'\n'));
    }
}

#[test]
fn wait_draws_stay_within_bounds() {
    let c = KeepAliveConfig::new(5, 30).unwrap();
    let mut seen_min = false;
    let mut seen_max = false;
    for _ in 0..5000 {
        let w = c.next_wait_secs();
        assert!((5..=30).contains(&w));
        seen_min |= w == 5;
        seen_max |= w == 30;
    }
    assert!(seen_min && seen_max);
}

#[test]
fn wait_draw_with_equal_bounds() {
    for _ in 0..100 {
        assert_eq!(random_secs_between(7, 7), 7);
    }
}

#[test]
fn keep_alive_bytes_cover_their_range() {
    let mut counts = [0u32; 256];
    let draws = 256 * 400;
    for _ in 0..draws {
        counts[random_byte() as usize] += 1;
    }
    for c in counts.iter() {
        assert!(*c > 200 && *c < 800, "count {}", c);
    }
}

#[test]
fn keep_alive_config_rejects_bad_bounds() {
    assert!(KeepAliveConfig::new(30, 10).is_none());
    assert!(KeepAliveConfig::new(0, u64::MAX).is_none());
    let c = KeepAliveConfig::new(10, 10).unwrap();
    assert_eq!((c.min_secs(), c.max_secs()), (10, 10));
    let d = KeepAliveConfig::default();
    assert_eq!(d.min_secs(), DEFAULT_MIN_INTERVAL_SECS);
    assert_eq!(d.max_secs(), DEFAULT_MAX_INTERVAL_SECS);
    assert_eq!((d.min_secs(), d.max_secs()), (10, 30));
}

#[test]
fn target_port_must_be_valid() {
    assert!(TargetSpec::new("example.org".to_string(), 0).is_none());
    assert!(TargetSpec::new("example.org".to_string(), 65536).is_none());
    let t = TargetSpec::new("example.org".to_string(), 443).unwrap();
    assert_eq!(t.host(), "example.org");
    assert_eq!(t.port(), 443);
    assert_eq!(TargetSpec::new("h".to_string(), 65535).unwrap().port(), 65535);
    assert_eq!(TargetSpec::new("h".to_string(), 1).unwrap().port(), 1);
}

#[test]
fn unit_transitions() {
    assert_eq!(step(UnitState::Connecting, UnitEvent::Connected), (UnitState::HeaderSent, UnitAction::SendHeader));
    assert_eq!(step(UnitState::Connecting, UnitEvent::ConnectFailed), (UnitState::Failed, UnitAction::Close));
    assert_eq!(step(UnitState::HeaderSent, UnitEvent::HeaderWritten), (UnitState::Alive, UnitAction::KeepAlive));
    assert_eq!(step(UnitState::HeaderSent, UnitEvent::HeaderFailed), (UnitState::Failed, UnitAction::Close));
    assert_eq!(step(UnitState::Alive, UnitEvent::ByteWritten), (UnitState::Alive, UnitAction::KeepAlive));
    assert_eq!(step(UnitState::Alive, UnitEvent::WriteFailed), (UnitState::Failed, UnitAction::Close));
    assert_eq!(step(UnitState::Failed, UnitEvent::PaceElapsed), (UnitState::Connecting, UnitAction::Reconnect));
    assert_eq!(step(UnitState::Failed, UnitEvent::WriteFailed), (UnitState::Failed, UnitAction::Ignore));
    assert_eq!(step(UnitState::Alive, UnitEvent::Connected), (UnitState::Alive, UnitAction::Ignore));
    assert_eq!(step(UnitState::Connecting, UnitEvent::PaceElapsed), (UnitState::Connecting, UnitAction::Ignore));
}

#[test]
fn accept_then_close_cycles_once() {
    let mut s = Supervisor::new(1);
    assert_eq!(s.live_count(), 0);
    assert_eq!(s.handle(0, UnitEvent::Connected), UnitAction::SendHeader);
    assert_eq!(s.slot_state(0), UnitState::HeaderSent);
    assert_eq!(s.live_count(), 0);
    assert_eq!(s.handle(0, UnitEvent::HeaderWritten), UnitAction::KeepAlive);
    assert_eq!(s.slot_state(0), UnitState::Alive);
    assert_eq!(s.live_count(), 1);
    assert_eq!(s.handle(0, UnitEvent::WriteFailed), UnitAction::Close);
    assert_eq!(s.slot_state(0), UnitState::Failed);
    assert_eq!(s.live_count(), 0);
    assert_eq!(s.handle(0, UnitEvent::PaceElapsed), UnitAction::Reconnect);
    assert_eq!(s.slot_state(0), UnitState::Connecting);
    assert_eq!(s.handle(0, UnitEvent::PaceElapsed), UnitAction::Ignore);
    assert_eq!(s.live_count(), 0);
}

#[test]
fn unreachable_target_keeps_count_at_zero() {
    let n: usize = 50;
    let mut s = Supervisor::new(n);
    let mut reconnects = 0;
    for _ in 0..100 {
        for slot in 0..n {
            assert_eq!(s.handle(slot, UnitEvent::ConnectFailed), UnitAction::Close);
            assert_eq!(s.live_count(), 0);
            assert_eq!(s.handle(slot, UnitEvent::PaceElapsed), UnitAction::Reconnect);
            reconnects += 1;
        }
    }
    assert_eq!(s.live_count(), 0);
    assert_eq!(reconnects, 100 * n);
    // each reconnect waits one pacing delay, so a slot makes at most this many per second
    assert_eq!(1000 / PACING_DELAY_MS, 100);
    assert!(1000 / PACING_DELAY_MS <= 150);
}

#[test]
fn live_count_reaches_slot_count_and_stays_bounded() {
    for n in [0usize, 1, 7, 200] {
        let mut s = Supervisor::new(n);
        assert_eq!(s.slot_count(), n);
        for slot in 0..n {
            s.handle(slot, UnitEvent::Connected);
            assert!(s.live_count() <= n);
            s.handle(slot, UnitEvent::HeaderWritten);
            assert!(s.live_count() <= n);
            s.handle(slot, UnitEvent::ByteWritten);
            assert_eq!(s.live_count(), slot + 1);
        }
        assert_eq!(s.live_count(), n);
        if n > 0 {
            s.handle(0, UnitEvent::WriteFailed);
            assert_eq!(s.live_count(), n - 1);
            s.handle(0, UnitEvent::PaceElapsed);
            s.handle(0, UnitEvent::Connected);
            s.handle(0, UnitEvent::HeaderWritten);
            assert_eq!(s.live_count(), n);
        }
    }
}

#[test]
fn a_slot_that_never_gets_its_header_out_is_not_counted() {
    let mut s = Supervisor::new(2);
    s.handle(1, UnitEvent::Connected);
    assert_eq!(s.handle(1, UnitEvent::HeaderFailed), UnitAction::Close);
    assert_eq!(s.live_count(), 0);
    assert_eq!(s.slot_state(0), UnitState::Connecting);
    assert_eq!(s.slot_state(1), UnitState::Failed);
}
