use feedwatch::config::{default_retry_limit, default_tags, Config, InputConfig, Interval, OutputConfig};
use feedwatch::error::Error;
use feedwatch::input::Phase;
use feedwatch::outputs::custom::Custom;
use feedwatch::outputs::discord_bot::DiscordBot;
use feedwatch::outputs::discord_webhook::DiscordWebhook;
use feedwatch::outputs::slack::Slack;
use feedwatch::outputs::{Output, Sink};
use feedwatch::{first_error, resolve, watch_inputs};

fn feed(tags: &[&str]) -> InputConfig {
    InputConfig {
        url: "https://example.org/feed.xml".to_owned(),
        interval: Some(Interval { secs: 60, nanos: 500 }),
        retry_limit: default_retry_limit(),
        tags: tags.iter().map(|t| (*t).to_owned()).collect(),
    }
}

fn hook(url: &str) -> OutputConfig {
    OutputConfig::DiscordWebhook { url: url.to_owned() }
}

fn hook_sink(url: &str) -> Output {
    Output { output: Sink::DiscordWebhook(DiscordWebhook::new(url.to_owned())) }
}

#[test]
fn defaults_are_ten_retries_and_the_default_tag() {
    assert_eq!(default_retry_limit(), 10);
    assert_eq!(default_tags(), vec!["default".to_owned()]);
}

#[test]
fn sinks_resolve_by_name_then_by_tags_in_order() {
    let config = Config {
        inputs: vec![("X".to_owned(), feed(&["a", "b"]))],
        outputs: vec![
            ("b".to_owned(), vec![hook("https://b")]),
            ("a".to_owned(), vec![hook("https://a")]),
            ("X".to_owned(), vec![hook("https://x")]),
            ("c".to_owned(), vec![hook("https://c")]),
        ],
    };
    let sinks = resolve(&config, &"X".to_owned(), &vec!["a".to_owned(), "b".to_owned()]);
    assert_eq!(sinks, vec![hook_sink("https://x"), hook_sink("https://a"), hook_sink("https://b")]);
}

#[test]
fn repeated_destination_is_notified_twice() {
    let config = Config {
        inputs: vec![("X".to_owned(), feed(&["a", "a"]))],
        outputs: vec![
            ("X".to_owned(), vec![hook("https://same")]),
            ("a".to_owned(), vec![hook("https://same"), hook("https://other")]),
        ],
    };
    let sinks = resolve(&config, &"X".to_owned(), &vec!["a".to_owned(), "a".to_owned()]);
    assert_eq!(
        sinks,
        vec![
            hook_sink("https://same"),
            hook_sink("https://same"),
            hook_sink("https://other"),
            hook_sink("https://same"),
            hook_sink("https://other"),
        ]
    );
}

#[test]
fn feed_without_configured_sinks_has_none() {
    let config = Config { inputs: vec![], outputs: vec![("a".to_owned(), vec![hook("https://a")])] };
    assert_eq!(resolve(&config, &"X".to_owned(), &vec!["z".to_owned()]), vec![]);
}

#[test]
fn every_kind_of_sink_is_built_from_its_settings() {
    assert_eq!(
        Output::new(OutputConfig::Custom {
            command: "notify".to_owned(),
            arguments: vec!["-v".to_owned()],
            use_stdin: true
        }),
        Output { output: Sink::Custom(Custom::new("notify".to_owned(), vec!["-v".to_owned()], true)) }
    );
    assert_eq!(Output::new(hook("https://d")), hook_sink("https://d"));
    assert_eq!(
        Output::new(OutputConfig::DiscordBot { token: "SECRET-REDACTED".to_owned(), user_id: 7 }),
        Output { output: Sink::DiscordBot(DiscordBot::new("SECRET-REDACTED".to_owned(), 7)) }
    );
    assert_eq!(
        Output::new(OutputConfig::Slack { url: "https://s".to_owned() }),
        Output { output: Sink::Slack(Slack::new("https://s".to_owned())) }
    );
}

#[test]
fn one_watcher_is_built_per_feed() {
    let config = Config {
        inputs: vec![("X".to_owned(), feed(&["a"])), ("Y".to_owned(), feed(&["default"]))],
        outputs: vec![
            ("a".to_owned(), vec![hook("https://a")]),
            ("Y".to_owned(), vec![hook("https://y1"), hook("https://y2")]),
        ],
    };
    let watchers = watch_inputs(config);
    assert_eq!(watchers.len(), 2);
    assert_eq!(watchers[0].name(), "X");
    assert_eq!(watchers[0].url(), "https://example.org/feed.xml");
    assert_eq!(watchers[0].interval(), Interval { secs: 60, nanos: 500 });
    assert_eq!(watchers[0].retries_left(), 10);
    assert_eq!(watchers[0].phase(), Phase::Idle);
    assert_eq!(watchers[0].last_date(), None);
    assert_eq!(watchers[0].outputs(), &vec![hook_sink("https://a")]);
    assert_eq!(watchers[1].name(), "Y");
    assert_eq!(watchers[1].outputs(), &vec![hook_sink("https://y1"), hook_sink("https://y2")]);
}

#[test]
fn name_that_is_also_a_tag_is_rejected() {
    let config = Config {
        inputs: vec![("X".to_owned(), feed(&["a"])), ("Y".to_owned(), feed(&["b", "X"]))],
        outputs: vec![],
    };
    assert!(config.is_tag(&"X".to_owned()));
    assert!(!config.is_tag(&"Y".to_owned()));
    assert_eq!(
        config.is_valid(),
        Err(Error::Config("inputs: names and tags are not unique: X".to_owned()))
    );
}

#[test]
fn distinct_names_and_tags_are_accepted() {
    let config = Config {
        inputs: vec![("X".to_owned(), feed(&["a"])), ("Y".to_owned(), feed(&["a", "b"]))],
        outputs: vec![],
    };
    assert_eq!(config.is_valid(), Ok(()));
    assert_eq!(Config { inputs: vec![], outputs: vec![] }.is_valid(), Ok(()));
}

#[test]
fn run_ends_with_the_first_error() {
    let timeout = Error::Request { message: "timed out".to_owned(), timeout: true, connect: false };
    let outcomes = vec![Ok(()), Err(timeout), Ok(()), Err(Error::Io("broken pipe".to_owned()))];
    assert_eq!(
        first_error(outcomes),
        Err(Error::Request { message: "timed out".to_owned(), timeout: true, connect: false })
    );
    assert_eq!(first_error(vec![Err(Error::Task("cancelled".to_owned()))]), Err(Error::Task("cancelled".to_owned())));
    assert_eq!(first_error(vec![Ok(()), Ok(())]), Ok(()));
    assert_eq!(first_error(vec![]), Ok(()));
}
