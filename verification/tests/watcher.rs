use shader_playground::watcher::{
    Pending, WatchAction, WatchEvent, Watcher, POLL_INTERVAL_MS, RETRY_INTERVAL_MS,
};

fn polling(last_seen: i128) -> Watcher {
    Watcher { last_seen, pending: Pending::Stat }
}

#[test]
fn intervals() {
    assert_eq!(POLL_INTERVAL_MS, 500);
    assert_eq!(RETRY_INTERVAL_MS, 1000);
}

#[test]
fn starts_by_opening_the_file() {
    let (w, action) = Watcher::start();
    assert_eq!(w, Watcher { last_seen: 0, pending: Pending::Open });
    assert_eq!(action, WatchAction::Open);
}

#[test]
fn failed_open_is_retried_after_a_second() {
    let (mut w, _) = Watcher::start();
    for _ in 0..3 {
        assert_eq!(w.step(WatchEvent::Failed), Some(WatchAction::Sleep(1000)));
        assert_eq!(w.pending, Pending::SleepThenOpen);
        assert_eq!(w.step(WatchEvent::Woke), Some(WatchAction::Open));
        assert_eq!(w.pending, Pending::Open);
    }
    assert_eq!(w.step(WatchEvent::Opened), Some(WatchAction::Stat));
    assert_eq!(w, polling(0));
}

#[test]
fn failed_metadata_is_retried_after_a_second() {
    let mut w = polling(7);
    assert_eq!(w.step(WatchEvent::Failed), Some(WatchAction::Sleep(1000)));
    assert_eq!(w, Watcher { last_seen: 7, pending: Pending::SleepThenStat });
    assert_eq!(w.step(WatchEvent::Woke), Some(WatchAction::Stat));
    assert_eq!(w, polling(7));
}

#[test]
fn newer_file_is_read_and_published() {
    let mut w = polling(10);
    assert_eq!(w.step(WatchEvent::Modified(11)), Some(WatchAction::Read));
    assert_eq!(w.pending, Pending::Read { modified: 11 });
    assert_eq!(
        w.step(WatchEvent::Content("red".to_string())),
        Some(WatchAction::Publish("red".to_string()))
    );
    assert_eq!(w.pending, Pending::Publish { modified: 11 });
    assert_eq!(w.last_seen, 10);
    assert_eq!(w.step(WatchEvent::Sent), Some(WatchAction::Sleep(500)));
    assert_eq!(w, Watcher { last_seen: 11, pending: Pending::SleepThenStat });
}

#[test]
fn unchanged_timestamp_is_not_published_again() {
    let mut w = polling(0);
    let mut published = 0;
    for modified in [5i128, 5, 5, 6, 6] {
        match w.step(WatchEvent::Modified(modified)) {
            Some(WatchAction::Read) => {
                assert!(matches!(
                    w.step(WatchEvent::Content("x".to_string())),
                    Some(WatchAction::Publish(_))
                ));
                assert_eq!(w.step(WatchEvent::Sent), Some(WatchAction::Sleep(500)));
                published += 1;
            }
            Some(WatchAction::Sleep(ms)) => assert_eq!(ms, 500),
            other => panic!("unexpected action {:?}", other),
        }
        assert_eq!(w.step(WatchEvent::Woke), Some(WatchAction::Stat));
    }
    assert_eq!(published, 2);
    assert_eq!(w.last_seen, 6);
}

#[test]
fn older_timestamp_is_skipped() {
    let mut w = polling(100);
    assert_eq!(w.step(WatchEvent::Modified(99)), Some(WatchAction::Sleep(500)));
    assert_eq!(w, Watcher { last_seen: 100, pending: Pending::SleepThenStat });
}

#[test]
fn file_dated_at_or_before_the_epoch_is_never_read() {
    let mut w = polling(0);
    assert_eq!(w.step(WatchEvent::Modified(0)), Some(WatchAction::Sleep(500)));
    let mut v = polling(0);
    assert_eq!(v.step(WatchEvent::Modified(-1)), Some(WatchAction::Sleep(500)));
}

#[test]
fn failed_read_is_retried_at_the_next_poll() {
    let mut w = polling(1);
    assert_eq!(w.step(WatchEvent::Modified(2)), Some(WatchAction::Read));
    assert_eq!(w.step(WatchEvent::Failed), Some(WatchAction::Sleep(500)));
    assert_eq!(w, Watcher { last_seen: 1, pending: Pending::SleepThenStat });
    assert_eq!(w.step(WatchEvent::Woke), Some(WatchAction::Stat));
    assert_eq!(w.step(WatchEvent::Modified(2)), Some(WatchAction::Read));
}

#[test]
fn failed_send_keeps_the_watcher_polling() {
    let mut w = Watcher { last_seen: 1, pending: Pending::Publish { modified: 9 } };
    assert_eq!(w.step(WatchEvent::Failed), Some(WatchAction::Sleep(500)));
    assert_eq!(w, Watcher { last_seen: 1, pending: Pending::SleepThenStat });
    assert_eq!(w.step(WatchEvent::Woke), Some(WatchAction::Stat));
    assert_eq!(w.step(WatchEvent::Modified(9)), Some(WatchAction::Read));
}

#[test]
fn event_that_answers_nothing_changes_nothing() {
    let states = [
        Watcher { last_seen: 3, pending: Pending::Open },
        Watcher { last_seen: 3, pending: Pending::SleepThenOpen },
        Watcher { last_seen: 3, pending: Pending::Stat },
        Watcher { last_seen: 3, pending: Pending::Read { modified: 4 } },
        Watcher { last_seen: 3, pending: Pending::Publish { modified: 4 } },
        Watcher { last_seen: 3, pending: Pending::SleepThenStat },
    ];
    let strangers = [
        vec![WatchEvent::Modified(9), WatchEvent::Content("x".to_string()), WatchEvent::Sent, WatchEvent::Woke],
        vec![WatchEvent::Opened, WatchEvent::Modified(9), WatchEvent::Sent, WatchEvent::Failed],
        vec![WatchEvent::Opened, WatchEvent::Content("x".to_string()), WatchEvent::Sent, WatchEvent::Woke],
        vec![WatchEvent::Opened, WatchEvent::Modified(9), WatchEvent::Sent, WatchEvent::Woke],
        vec![WatchEvent::Opened, WatchEvent::Modified(9), WatchEvent::Content("x".to_string()), WatchEvent::Woke],
        vec![WatchEvent::Opened, WatchEvent::Modified(9), WatchEvent::Sent, WatchEvent::Failed],
    ];
    for (state, events) in states.iter().zip(strangers.iter()) {
        for event in events {
            let mut w = *state;
            assert_eq!(w.step(event.clone()), None);
            assert_eq!(w, *state);
        }
    }
}

#[test]
fn published_timestamps_increase() {
    let mut w = polling(0);
    let mut sent: Vec<i128> = Vec::new();
    for modified in [3i128, 3, 2, 8, 8, 1, 20, 20] {
        if w.step(WatchEvent::Modified(modified)) == Some(WatchAction::Read) {
            w.step(WatchEvent::Content(String::new()));
            w.step(WatchEvent::Sent);
            sent.push(w.last_seen);
        }
        w.step(WatchEvent::Woke);
    }
    assert_eq!(sent, vec![3, 8, 20]);
}
