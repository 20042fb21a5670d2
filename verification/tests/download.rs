use rusty_wit::download::{
    content_length, next_action, percent, step, Action, Download, Event, Outcome, Progress,
    State, CHUNK_SIZE,
};

fn ready() -> State {
    State::Ready(String::from("https://example.org/a.zip"), String::from("a.zip"))
}

fn connected(header: &str) -> Event {
    Event::Connected(Some(String::from(header)))
}

/// Feeds `events` to a fresh fetch and collects what is shown.
fn run(events: Vec<Event>) -> (Vec<Progress>, State) {
    let mut state = ready();
    let mut shown = Vec::new();
    for event in events {
        let (progress, next) = step(state, event);
        if let Some(p) = progress {
            shown.push(p);
        }
        state = next;
    }
    (shown, state)
}

#[test]
fn fetch_of_a_thousand_bytes_ends_finished() {
    let (shown, state) = run(vec![
        connected("1000"),
        Event::Chunk(400),
        Event::Chunk(400),
        Event::Chunk(200),
        Event::Chunk(0),
    ]);
    assert_eq!(
        shown,
        vec![
            Progress::Started,
            Progress::Advanced(40),
            Progress::Advanced(80),
            Progress::Advanced(100),
            Progress::Finished,
        ]
    );
    assert_eq!(state, State::Finished(Outcome::Completed { bytes: 1000, total: 1000 }));
    assert_eq!(state.outcome(), Some(Outcome::Completed { bytes: 1000, total: 1000 }));
}

#[test]
fn percentages_never_fall_in_a_run() {
    let (shown, _) = run(vec![
        connected("7"),
        Event::Chunk(1),
        Event::Chunk(1),
        Event::Chunk(3),
        Event::Chunk(2),
        Event::Chunk(5),
        Event::Chunk(0),
    ]);
    let mut last = 0;
    let mut count = 0;
    for p in shown {
        if let Progress::Advanced(now) = p {
            assert!(last <= now);
            last = now;
            count += 1;
        }
    }
    assert_eq!(count, 5);
    assert_eq!(last, 171);
}

#[test]
fn percentage_is_rounded_down() {
    assert_eq!(percent(1, 3), 33);
    assert_eq!(percent(2, 3), 66);
    assert_eq!(percent(3, 3), 100);
    assert_eq!(percent(999, 1000), 99);
    assert_eq!(percent(0, 1000), 0);
    assert_eq!(percent(5, 0), 0);
}

#[test]
fn full_percentage_only_with_the_last_byte() {
    let (p, _) = step(State::Downloading { total: 1000, downloaded: 0 }, Event::Chunk(999));
    assert_eq!(p, Some(Progress::Advanced(99)));
    let (p, _) = step(State::Downloading { total: 1000, downloaded: 999 }, Event::Chunk(1));
    assert_eq!(p, Some(Progress::Advanced(100)));
}

#[test]
fn missing_length_fails_without_a_percentage() {
    let (shown, state) = run(vec![
        Event::Connected(None),
        Event::Chunk(10),
        Event::Chunk(0),
    ]);
    assert_eq!(shown, vec![Progress::Errored]);
    assert_eq!(state, State::Finished(Outcome::Failed));
}

#[test]
fn zero_length_fails() {
    let (shown, state) = run(vec![connected("0")]);
    assert_eq!(shown, vec![Progress::Errored]);
    assert_eq!(state.outcome(), Some(Outcome::Failed));
}

#[test]
fn unreadable_length_fails() {
    for header in ["", "12a", "-5", "+5", " 5", "1.5", "99999999999999999999999"] {
        let (shown, state) = run(vec![connected(header)]);
        assert_eq!(shown, vec![Progress::Errored]);
        assert_eq!(state, State::Finished(Outcome::Failed));
    }
}

#[test]
fn content_length_reads_decimal_headers() {
    assert_eq!(content_length(&Some(String::from("1000"))), Some(1000));
    assert_eq!(content_length(&Some(String::from("0"))), Some(0));
    assert_eq!(content_length(&Some(String::from("18446744073709551615"))), Some(u64::MAX));
    assert_eq!(content_length(&Some(String::from("18446744073709551616"))), None);
    assert_eq!(content_length(&Some(String::from("abc"))), None);
    assert_eq!(content_length(&None), None);
}

#[test]
fn request_failure_fails_the_fetch() {
    let (shown, state) = run(vec![Event::RequestFailed]);
    assert_eq!(shown, vec![Progress::Errored]);
    assert_eq!(state, State::Finished(Outcome::Failed));
}

#[test]
fn read_failure_fails_the_fetch() {
    let (shown, state) = run(vec![connected("100"), Event::Chunk(10), Event::ReadFailed]);
    assert_eq!(shown, vec![Progress::Started, Progress::Advanced(10), Progress::Errored]);
    assert_eq!(state, State::Finished(Outcome::Failed));
}

#[test]
fn finished_fetch_stays_silent() {
    let done = State::Finished(Outcome::Completed { bytes: 5, total: 5 });
    for event in [connected("9"), Event::RequestFailed, Event::Chunk(3), Event::Chunk(0), Event::ReadFailed] {
        let (p, next) = step(done.clone(), event);
        assert_eq!(p, None);
        assert_eq!(next, done);
    }
}

#[test]
fn early_end_of_body_reports_the_bytes_that_came() {
    let (shown, state) = run(vec![connected("1000"), Event::Chunk(300), Event::Chunk(0)]);
    assert_eq!(shown, vec![Progress::Started, Progress::Advanced(30), Progress::Finished]);
    assert_eq!(state.outcome(), Some(Outcome::Completed { bytes: 300, total: 1000 }));
}

#[test]
fn events_out_of_turn_fail_the_fetch() {
    let (p, s) = step(ready(), Event::Chunk(5));
    assert_eq!(p, Some(Progress::Errored));
    assert_eq!(s, State::Finished(Outcome::Failed));
    let (p, s) = step(State::Downloading { total: 10, downloaded: 0 }, connected("10"));
    assert_eq!(p, Some(Progress::Errored));
    assert_eq!(s, State::Finished(Outcome::Failed));
}

#[test]
fn percentages_need_no_bound_on_the_byte_count() {
    let far = State::Downloading { total: 10, downloaded: u64::MAX - 1 };
    let (p, s) = step(far, Event::Chunk(1));
    assert_eq!(p, Some(Progress::Advanced(u64::MAX as u128 * 100 / 10)));
    assert_eq!(s, State::Downloading { total: 10, downloaded: u64::MAX });
    assert_eq!(percent(u64::MAX, 1), 100 * u64::MAX as u128);
    assert_eq!(percent(u64::MAX, u64::MAX), 100);
    assert_eq!(percent(u64::MAX - 1, u64::MAX), 99);
}

#[test]
fn byte_count_past_64_bits_fails_the_fetch() {
    let far = State::Downloading { total: 10, downloaded: u64::MAX - 1 };
    let (p, s) = step(far, Event::Chunk(2));
    assert_eq!(p, Some(Progress::Errored));
    assert_eq!(s, State::Finished(Outcome::Failed));
}

#[test]
fn chunk_within_the_announced_length_advances() {
    let (p, s) = step(State::Downloading { total: 3000, downloaded: 1024 }, Event::Chunk(1024));
    assert_eq!(p, Some(Progress::Advanced(68)));
    assert_eq!(s, State::Downloading { total: 3000, downloaded: 2048 });
    assert!(68 >= percent(1024, 3000));
    assert_eq!(percent(1024, 3000), 34);
}

#[test]
fn actions_follow_the_state() {
    assert_eq!(
        next_action(&ready()),
        Action::Request {
            url: String::from("https://example.org/a.zip"),
            path: String::from("a.zip"),
        }
    );
    assert_eq!(
        next_action(&State::Downloading { total: 10, downloaded: 3 }),
        Action::Read(1024)
    );
    assert_eq!(CHUNK_SIZE, 1024);
    assert_eq!(next_action(&State::Finished(Outcome::Failed)), Action::Stop);
    assert_eq!(ready().outcome(), None);
    assert_eq!(State::Downloading { total: 10, downloaded: 3 }.outcome(), None);
}

#[test]
fn download_starts_ready() {
    let d = Download::new(7u32, String::from("u"), String::from("p"));
    assert_eq!(*d.id(), 7);
    assert_eq!(d.url(), "u");
    assert_eq!(d.path(), "p");
    assert_eq!(d.start(), State::Ready(String::from("u"), String::from("p")));
}

#[test]
fn file_names_the_destination_after_the_address() {
    let d = rusty_wit::download::file(1u8, "https://example.org/x");
    assert_eq!(*d.id(), 1);
    assert_eq!(d.url(), "https://example.org/x");
    assert_eq!(d.path(), "https://example.org/x");
    assert_eq!(
        d.start(),
        State::Ready(String::from("https://example.org/x"), String::from("https://example.org/x"))
    );
}
