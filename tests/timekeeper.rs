use gensmusic::timekeeper::{keeps_ticking, Timekeeper, Wake};

#[test]
fn start_twice_spawns_once() {
    let mut t: Timekeeper<u32> = Timekeeper::new();
    assert!(!t.is_running());
    let mut spawned = 0;
    assert!(t.start(|| {
        spawned += 1;
        7
    }));
    assert!(t.is_running());
    assert!(!t.start(|| 8));
    assert_eq!(spawned, 1);
    assert_eq!(t.stop(), Some(7));
    assert!(!t.is_running());
}

#[test]
fn stop_when_stopped_is_a_no_op() {
    let mut t: Timekeeper<u32> = Timekeeper::new();
    assert_eq!(t.stop(), None);
    assert!(!t.is_running());
    assert_eq!(t.stop(), None);
    assert!(t.start(|| 3));
    assert_eq!(t.stop(), Some(3));
    assert_eq!(t.stop(), None);
}

#[test]
fn only_a_timeout_keeps_the_ticker_going() {
    assert!(keeps_ticking(Wake::Timeout));
    assert!(!keeps_ticking(Wake::Stop));
    assert!(!keeps_ticking(Wake::Disconnected));
}
