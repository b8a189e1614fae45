use multibot::antispam::{
    Antispam, Chatter, MAX_STRIKES, MIN_NON_SPAM_MILLIS, SILENT_DELETE_AMOUNT,
};
use std::time::{Duration, Instant};

fn alice() -> Chatter {
    Chatter::Discord(42)
}

#[test]
fn constants_are_fixed() {
    assert_eq!(MIN_NON_SPAM_MILLIS, 750);
    assert_eq!(MAX_STRIKES, 3);
    assert_eq!(SILENT_DELETE_AMOUNT, 4);
}

#[test]
fn first_contact_is_not_spam() {
    let mut engine = Antispam::new();
    assert!(engine.history_of(&alice()).is_none());
    assert!(!engine.record_at(&alice(), 1000));
    let history = engine.history_of(&alice()).unwrap();
    assert_eq!(history.last_timestamp, 1000);
    assert_eq!(history.strikes, 0);
    assert!(!history.silent_delete);
}

#[test]
fn second_contact_within_the_interval_is_spam() {
    let mut engine = Antispam::new();
    assert!(!engine.record_at(&alice(), 1000));
    assert!(engine.record_at(&alice(), 1749));
    let history = engine.history_of(&alice()).unwrap();
    assert_eq!(history.strikes, 1);
    assert_eq!(history.last_timestamp, 1749);
}

#[test]
fn contact_after_the_interval_clears_the_strikes() {
    let mut engine = Antispam::new();
    assert!(!engine.record_at(&alice(), 0));
    assert!(engine.record_at(&alice(), 100));
    assert!(engine.record_at(&alice(), 200));
    assert_eq!(engine.history_of(&alice()).unwrap().strikes, 2);
    assert!(!engine.record_at(&alice(), 950));
    let history = engine.history_of(&alice()).unwrap();
    assert_eq!(history.strikes, 0);
    assert_eq!(history.last_timestamp, 950);
}

#[test]
fn the_interval_itself_is_long_enough() {
    let mut engine = Antispam::new();
    assert!(!engine.record_at(&alice(), 10));
    assert!(!engine.record_at(&alice(), 760));
    assert!(engine.record_at(&alice(), 1509));
}

#[test]
fn a_clock_that_runs_backwards_counts_as_no_time() {
    let mut engine = Antispam::new();
    assert!(!engine.record_at(&alice(), 5000));
    assert!(engine.record_at(&alice(), 10));
    assert_eq!(engine.history_of(&alice()).unwrap().last_timestamp, 10);
}

#[test]
fn penalty_starts_above_the_threshold_and_stays() {
    let mut engine = Antispam::new();
    assert!(!engine.too_many_strikes(&alice()));
    engine.record_at(&alice(), 0);
    for strike in 1..=3u64 {
        assert!(engine.record_at(&alice(), strike));
        assert!(!engine.too_many_strikes(&alice()));
    }
    assert!(engine.record_at(&alice(), 4));
    assert!(engine.too_many_strikes(&alice()));
    assert!(!engine.should_silent_delete(&alice()));
    assert!(engine.record_at(&alice(), 5));
    assert!(engine.too_many_strikes(&alice()));
    assert!(engine.should_silent_delete(&alice()));
    assert!(!engine.record_at(&alice(), 5000));
    assert!(!engine.too_many_strikes(&alice()));
    assert!(!engine.should_silent_delete(&alice()));
}

#[test]
fn strikes_stop_at_the_largest_count() {
    let mut engine = Antispam::new();
    engine.record_at(&alice(), 0);
    for _ in 0..300 {
        assert!(engine.record_at(&alice(), 1));
    }
    assert_eq!(engine.history_of(&alice()).unwrap().strikes, 255);
    assert!(engine.too_many_strikes(&alice()));
}

#[test]
fn chatters_are_told_apart() {
    let mut engine = Antispam::new();
    let bob = Chatter::Twitch("bob".to_string());
    let other_bob = Chatter::Twitch("bobby".to_string());
    assert!(!engine.record_at(&alice(), 0));
    assert!(!engine.record_at(&bob, 1));
    assert!(!engine.record_at(&other_bob, 2));
    assert!(!engine.record_at(&Chatter::Discord(43), 3));
    assert!(engine.record_at(&Chatter::Twitch("bob".to_string()), 4));
    assert_eq!(engine.history_of(&alice()).unwrap().strikes, 0);
    assert_eq!(engine.history_of(&bob).unwrap().strikes, 1);
    assert_eq!(engine.history_of(&other_bob).unwrap().strikes, 0);
    assert!(bob.same(&Chatter::Twitch("bob".to_string())));
    assert!(!bob.same(&other_bob));
    assert!(!alice().same(&bob));
    assert!(alice().same(&alice().duplicate()));
}

#[test]
fn reset_forgets_everyone() {
    let mut engine = Antispam::new();
    engine.record_at(&alice(), 0);
    engine.record_at(&alice(), 1);
    engine.reset();
    assert!(engine.history_of(&alice()).is_none());
    assert!(!engine.too_many_strikes(&alice()));
    assert!(!engine.record_at(&alice(), 2));
}

#[test]
fn the_clock_is_read_for_every_message() {
    let mut engine = Antispam::new();
    assert!(!engine.is_spam(&alice()));
    assert!(engine.is_spam(&alice()));
    assert_eq!(engine.history_of(&alice()).unwrap().strikes, 1);
    let wait = Instant::now();
    while wait.elapsed() < Duration::from_millis(800) {
        std::hint::spin_loop();
    }
    assert!(!engine.is_spam(&alice()));
    assert_eq!(engine.history_of(&alice()).unwrap().strikes, 0);
}

#[test]
fn silence_follows_the_strikes() {
    let mut engine = Antispam::new();
    engine.record_at(&alice(), 0);
    for now in 1..=300u64 {
        engine.record_at(&alice(), now);
        let history = engine.history_of(&alice()).unwrap();
        assert_eq!(history.silent_delete, history.strikes > SILENT_DELETE_AMOUNT);
        assert_eq!(engine.should_silent_delete(&alice()), history.strikes > 4);
    }
    engine.record_at(&alice(), 5000);
    assert!(!engine.should_silent_delete(&alice()));
}
