use feedwatch::config::{InputConfig, Interval};
use feedwatch::error::Error;
use feedwatch::input::{
    count_new, is_retriable, keep_dated, wake, Action, Event, Input, Phase, DEFAULT_INTERVAL,
};
use feedwatch::outputs::discord_webhook::DiscordWebhook;
use feedwatch::outputs::{Delivery, Output, RawEntry, Sink, Timestamp, normalize};

fn at(secs: i64) -> Timestamp {
    Timestamp { secs, nanos: 0 }
}

fn item(published: Option<Timestamp>) -> RawEntry {
    RawEntry {
        title: Some("title".to_owned()),
        summary: None,
        content: None,
        authors: vec![],
        links: vec!["https://example.org/post".to_owned()],
        published,
    }
}

fn items(secs: &[i64]) -> Vec<RawEntry> {
    secs.iter().map(|s| item(Some(at(*s)))).collect()
}

fn settings(retry_limit: usize) -> InputConfig {
    InputConfig {
        url: "https://example.org/feed.xml".to_owned(),
        interval: None,
        retry_limit,
        tags: vec!["default".to_owned()],
    }
}

fn watcher(retry_limit: usize) -> Input {
    let sink = Output { output: Sink::DiscordWebhook(DiscordWebhook::new("https://hook".to_owned())) };
    Input::new("news".to_owned(), settings(retry_limit), vec![sink])
}

fn timeout() -> Error {
    Error::Request { message: "timed out".to_owned(), timeout: true, connect: false }
}

fn poll(w: &mut Input, fetched: Vec<RawEntry>) -> Action {
    assert_eq!(w.watch(Event::Tick), Action::Fetch);
    w.watch(Event::Fetched(fetched))
}

#[test]
fn new_watcher_is_idle_with_full_budget() {
    let w = watcher(10);
    assert_eq!(w.phase(), Phase::Idle);
    assert_eq!(w.retries_left(), 10);
    assert_eq!(w.retry_limit(), 10);
    assert_eq!(w.last_date(), None);
    assert_eq!(w.interval(), Interval { secs: 1800, nanos: 0 });
    assert_eq!(DEFAULT_INTERVAL, 1800);
    assert_eq!(w.name(), "news");
    assert_eq!(w.url(), "https://example.org/feed.xml");
    assert_eq!(w.outputs().len(), 1);
}

#[test]
fn configured_interval_is_kept() {
    let mut config = settings(4);
    config.interval = Some(Interval { secs: 0, nanos: 250_000_000 });
    let w = Input::new("news".to_owned(), config, vec![]);
    assert_eq!(w.interval(), Interval { secs: 0, nanos: 250_000_000 });
    assert_eq!(w.retries_left(), 4);
}

#[test]
fn first_poll_sets_baseline_and_second_dispatches_new_entries() {
    let mut w = watcher(10);
    assert_eq!(poll(&mut w, items(&[3, 2, 1])), Action::Wait);
    assert_eq!(w.last_date(), Some(at(3)));
    assert_eq!(w.phase(), Phase::Idle);

    let action = poll(&mut w, items(&[5, 4, 3, 2, 1]));
    assert_eq!(action, Action::Dispatch(items(&[5, 4])));
    assert_eq!(w.phase(), Phase::Dispatching);
    assert_eq!(w.last_date(), Some(at(3)));

    let raw = match action {
        Action::Dispatch(raw) => raw,
        other => panic!("unexpected action {:?}", other),
    };
    let entries = normalize(&raw).unwrap();
    let plan = w.push(&entries);
    assert_eq!(plan.len(), 1);
    match &plan[0] {
        Delivery::DiscordWebhook { url, batches } => {
            assert_eq!(url, "https://hook");
            assert_eq!(batches.len(), 1);
            assert_eq!(batches[0].len(), 2);
            assert_eq!(batches[0][0].timestamp, at(5));
            assert_eq!(batches[0][1].timestamp, at(4));
        }
        other => panic!("unexpected delivery {:?}", other),
    }

    assert_eq!(w.watch(Event::Delivered), Action::Wait);
    assert_eq!(w.last_date(), Some(at(5)));
    assert_eq!(w.phase(), Phase::Idle);
}

#[test]
fn three_timeouts_then_success_restore_the_budget() {
    let mut w = watcher(10);
    for left in [9, 8, 7] {
        assert_eq!(w.watch(Event::Tick), Action::Fetch);
        assert_eq!(w.watch(Event::FetchFailed(timeout())), Action::Wait);
        assert_eq!(w.retries_left(), left);
        assert_eq!(w.phase(), Phase::Idle);
        assert_eq!(w.last_date(), None);
    }
    assert_eq!(poll(&mut w, items(&[1])), Action::Wait);
    assert_eq!(w.retries_left(), 10);
    assert_eq!(w.phase(), Phase::Idle);
    assert_eq!(w.last_date(), Some(at(1)));
}

#[test]
fn budget_is_whole_as_soon_as_new_entries_are_fetched() {
    let mut w = watcher(10);
    assert_eq!(poll(&mut w, items(&[1])), Action::Wait);
    assert_eq!(w.watch(Event::Tick), Action::Fetch);
    assert_eq!(w.watch(Event::FetchFailed(timeout())), Action::Wait);
    assert_eq!(w.retries_left(), 9);
    assert_eq!(poll(&mut w, items(&[2, 1])), Action::Dispatch(items(&[2])));
    assert_eq!(w.retries_left(), 10);
    assert_eq!(w.watch(Event::Delivered), Action::Wait);
    assert_eq!(w.retries_left(), 10);
    assert_eq!(w.last_date(), Some(at(2)));
}

#[test]
fn poll_without_news_restores_the_budget_unless_the_list_is_empty() {
    let mut w = watcher(10);
    assert_eq!(poll(&mut w, items(&[1])), Action::Wait);
    assert_eq!(w.watch(Event::Tick), Action::Fetch);
    assert_eq!(w.watch(Event::FetchFailed(timeout())), Action::Wait);
    assert_eq!(w.retries_left(), 9);
    assert_eq!(poll(&mut w, vec![]), Action::Wait);
    assert_eq!(w.retries_left(), 9);
    assert_eq!(poll(&mut w, items(&[1])), Action::Wait);
    assert_eq!(w.retries_left(), 10);
    assert_eq!(w.last_date(), Some(at(1)));
}

#[test]
fn unchanged_feed_changes_nothing() {
    let mut w = watcher(10);
    assert_eq!(poll(&mut w, items(&[3, 2, 1])), Action::Wait);
    let before = (w.phase(), w.retries_left(), w.last_date());
    assert_eq!(poll(&mut w, items(&[3, 2, 1])), Action::Wait);
    assert_eq!((w.phase(), w.retries_left(), w.last_date()), before);
}

#[test]
fn exhausted_budget_stops_the_watcher() {
    let mut w = watcher(2);
    for left in [1, 0] {
        assert_eq!(w.watch(Event::Tick), Action::Fetch);
        assert_eq!(w.watch(Event::FetchFailed(timeout())), Action::Wait);
        assert_eq!(w.retries_left(), left);
    }
    assert_eq!(w.watch(Event::Tick), Action::Fetch);
    assert_eq!(w.watch(Event::FetchFailed(timeout())), Action::Fail(timeout()));
    assert_eq!(w.phase(), Phase::Stopped);
    assert_eq!(w.watch(Event::Tick), Action::Ignore);
    assert_eq!(w.phase(), Phase::Stopped);
}

#[test]
fn stopped_watcher_leaves_another_running() {
    let mut broken = watcher(0);
    let mut healthy = watcher(0);
    assert_eq!(broken.watch(Event::Tick), Action::Fetch);
    assert_eq!(broken.watch(Event::FetchFailed(timeout())), Action::Fail(timeout()));
    assert_eq!(broken.phase(), Phase::Stopped);
    assert_eq!(healthy.phase(), Phase::Idle);
    assert_eq!(poll(&mut healthy, items(&[1])), Action::Wait);
    assert_eq!(healthy.last_date(), Some(at(1)));
}

#[test]
fn other_fetch_failure_is_fatal_at_once() {
    let mut w = watcher(10);
    let malformed = Error::FeedRs("no root element".to_owned());
    assert_eq!(w.watch(Event::Tick), Action::Fetch);
    assert_eq!(
        w.watch(Event::FetchFailed(Error::FeedRs("no root element".to_owned()))),
        Action::Fail(malformed)
    );
    assert_eq!(w.phase(), Phase::Stopped);
    assert_eq!(w.retries_left(), 10);
}

#[test]
fn http_status_failure_is_not_retried() {
    let status = Error::Request { message: "404".to_owned(), timeout: false, connect: false };
    assert!(!is_retriable(&status));
    assert!(is_retriable(&timeout()));
    assert!(is_retriable(&Error::Request { message: "refused".to_owned(), timeout: false, connect: true }));
    assert!(!is_retriable(&Error::Io("broken pipe".to_owned())));
    assert!(!is_retriable(&Error::Config("x".to_owned())));
    assert!(!is_retriable(&Error::Task("x".to_owned())));
    assert!(!is_retriable(&Error::Toml("x".to_owned())));
    assert!(!is_retriable(&Error::Serenity("x".to_owned())));
}

#[test]
fn failed_delivery_stops_the_watcher() {
    let mut w = watcher(10);
    assert_eq!(poll(&mut w, items(&[1])), Action::Wait);
    assert_eq!(poll(&mut w, items(&[2, 1])), Action::Dispatch(items(&[2])));
    let refused = Error::Request { message: "500".to_owned(), timeout: false, connect: false };
    assert_eq!(
        w.watch(Event::DeliveryFailed(Error::Request {
            message: "500".to_owned(),
            timeout: false,
            connect: false
        })),
        Action::Fail(refused)
    );
    assert_eq!(w.phase(), Phase::Stopped);
    assert_eq!(w.last_date(), Some(at(1)));
}

#[test]
fn shutdown_while_idle_stops_without_fetch() {
    let mut w = watcher(10);
    assert_eq!(w.watch(Event::Shutdown), Action::Finish);
    assert_eq!(w.phase(), Phase::Stopped);
    assert_eq!(w.watch(Event::Tick), Action::Ignore);
}

#[test]
fn shutdown_during_delivery_waits_for_it() {
    let mut w = watcher(10);
    assert_eq!(poll(&mut w, items(&[1])), Action::Wait);
    assert_eq!(poll(&mut w, items(&[2, 1])), Action::Dispatch(items(&[2])));
    assert_eq!(w.watch(Event::Shutdown), Action::Ignore);
    assert_eq!(w.phase(), Phase::Dispatching);
    assert_eq!(w.watch(Event::Delivered), Action::Wait);
    assert_eq!(w.last_date(), Some(at(2)));
    assert_eq!(w.watch(Event::Shutdown), Action::Finish);
    assert_eq!(w.phase(), Phase::Stopped);
}

#[test]
fn shutdown_wins_over_a_ready_tick() {
    assert_eq!(wake(true, true), Some(Event::Shutdown));
    assert_eq!(wake(true, false), Some(Event::Shutdown));
    assert_eq!(wake(false, true), Some(Event::Tick));
    assert_eq!(wake(false, false), None);
}

#[test]
fn events_out_of_phase_are_ignored() {
    let mut w = watcher(10);
    assert_eq!(w.watch(Event::Delivered), Action::Ignore);
    assert_eq!(w.watch(Event::Fetched(items(&[1]))), Action::Ignore);
    assert_eq!(w.phase(), Phase::Idle);
    assert_eq!(w.last_date(), None);
    assert_eq!(w.watch(Event::Tick), Action::Fetch);
    assert_eq!(w.watch(Event::Tick), Action::Ignore);
    assert_eq!(w.phase(), Phase::Fetching);
}

#[test]
fn first_poll_notification_hands_out_three_entries() {
    let mut w = watcher(10).with_first_poll_notification(true);
    assert_eq!(poll(&mut w, items(&[5, 4, 3, 2, 1])), Action::Dispatch(items(&[5, 4, 3])));
    assert_eq!(w.watch(Event::Delivered), Action::Wait);
    assert_eq!(w.last_date(), Some(at(5)));
    assert_eq!(poll(&mut w, items(&[5, 4, 3, 2, 1])), Action::Wait);

    let mut short = watcher(10).with_first_poll_notification(true);
    assert_eq!(poll(&mut short, items(&[2, 1])), Action::Dispatch(items(&[2, 1])));
}

#[test]
fn first_poll_notification_leaves_out_items_without_timestamp() {
    let mut w = watcher(10).with_first_poll_notification(true);
    let list = vec![item(None), item(Some(at(4))), item(None), item(Some(at(3)))];
    assert_eq!(poll(&mut w, list), Action::Dispatch(items(&[4])));
    assert_eq!(w.watch(Event::Delivered), Action::Wait);
    assert_eq!(w.last_date(), Some(at(4)));

    let mut undated = watcher(10).with_first_poll_notification(true);
    let list = vec![item(None), item(None), item(None), item(Some(at(1)))];
    assert_eq!(poll(&mut undated, list), Action::Wait);
    assert_eq!(undated.last_date(), None);
    assert_eq!(undated.phase(), Phase::Idle);
}

#[test]
fn items_without_timestamp_are_dropped_in_order() {
    let mut list = vec![item(None), item(Some(at(4))), item(None), item(Some(at(3))), item(None)];
    keep_dated(&mut list);
    assert_eq!(list, items(&[4, 3]));
    let mut all = items(&[2, 1]);
    keep_dated(&mut all);
    assert_eq!(all, items(&[2, 1]));
    let mut none: Vec<RawEntry> = vec![item(None)];
    keep_dated(&mut none);
    assert_eq!(none, vec![]);
}

#[test]
fn empty_feed_is_a_no_op() {
    let mut w = watcher(10);
    assert_eq!(poll(&mut w, vec![]), Action::Wait);
    assert_eq!(w.last_date(), None);
    assert_eq!(w.phase(), Phase::Idle);
}

#[test]
fn new_entries_are_the_longest_newer_prefix() {
    assert_eq!(count_new(&items(&[5, 4, 3, 2, 1]), at(3)), 2);
    assert_eq!(count_new(&items(&[5, 4, 3, 2, 1]), at(0)), 5);
    assert_eq!(count_new(&items(&[5, 4, 3, 2, 1]), at(5)), 0);
    assert_eq!(count_new(&items(&[]), at(5)), 0);
    // an out-of-order list is cut at the first item that is not newer
    assert_eq!(count_new(&items(&[5, 1, 4]), at(3)), 1);
    // nanoseconds decide within one second
    let close = vec![item(Some(Timestamp { secs: 3, nanos: 2 })), item(Some(Timestamp { secs: 3, nanos: 1 }))];
    assert_eq!(count_new(&close, Timestamp { secs: 3, nanos: 1 }), 1);
}

#[test]
fn entry_without_timestamp_is_never_new() {
    let list = vec![item(Some(at(5))), item(None), item(Some(at(4)))];
    assert_eq!(count_new(&list, at(1)), 1);
    let mut w = watcher(10);
    assert_eq!(poll(&mut w, vec![item(None), item(Some(at(4)))]), Action::Wait);
    assert_eq!(w.last_date(), None);
}
