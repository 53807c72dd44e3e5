use feedwatch::error::{EntryError, Error};
use feedwatch::outputs::discord_bot::{embed_with_time, DiscordBot, Embed};
use feedwatch::outputs::discord_webhook::{DiscordWebhook, EmbedAuthor, EmbedObject};
use feedwatch::outputs::slack::{block_from_entry, blocks_with_time, Block, Button, Slack, Text};
use feedwatch::outputs::{Entry, Timestamp};

fn entry(author: Option<&str>, description: &str, secs: i64) -> Entry {
    Entry {
        title: "A title".to_owned(),
        description: description.to_owned(),
        author: author.map(|a| a.to_owned()),
        url: "https://example.org/post".to_owned(),
        timestamp: Timestamp { secs, nanos: 0 },
    }
}

fn markdown(text: &str) -> Text {
    Text::Markdown { text: text.to_owned(), verbatim: false }
}

fn plain(text: &str, emoji: bool) -> Text {
    Text::Plain { text: text.to_owned(), emoji }
}

fn button() -> Button {
    Button {
        text: plain(":link: Open", true),
        action_id: "button-action".to_owned(),
        url: Some("https://example.org/post".to_owned()),
    }
}

#[test]
fn slack_entry_becomes_four_blocks() {
    let blocks = block_from_entry(&entry(Some("Ada"), "Some words", 1431648000)).unwrap();
    assert_eq!(
        blocks,
        vec![
            Block::Header { text: plain("A title", false) },
            Block::Section { text: markdown("Some words"), accessory: button() },
            Block::Context {
                elements: vec![
                    markdown("Ada"),
                    markdown("https://example.org/post"),
                    plain("15 May 2015 12:00 AM UTC", false),
                ],
            },
            Block::Divider,
        ]
    );
}

#[test]
fn slack_entry_without_author_or_description() {
    let blocks = block_from_entry(&entry(None, "", 0)).unwrap();
    assert_eq!(
        blocks,
        vec![
            Block::Header { text: plain("A title", false) },
            Block::Section { text: markdown("no description"), accessory: button() },
            Block::Context {
                elements: vec![markdown("https://example.org/post"), plain("01 Jan 1970 12:00 AM UTC", false)],
            },
            Block::Divider,
        ]
    );
}

#[test]
fn slack_time_is_written_on_a_twelve_hour_clock() {
    let blocks = block_from_entry(&entry(None, "x", 1431648000 + 13 * 3600 + 5 * 60)).unwrap();
    match &blocks[2] {
        Block::Context { elements } => assert_eq!(elements[1], plain("15 May 2015 01:05 PM UTC", false)),
        other => panic!("unexpected block {:?}", other),
    }
}

#[test]
fn slack_message_holds_the_blocks_of_every_entry() {
    let batch = vec![entry(Some("Ada"), "one", 0), entry(None, "two", 60)];
    let message = Slack::message(&batch).unwrap();
    assert_eq!(message.blocks.len(), 8);
    assert_eq!(&message.blocks[..4], &block_from_entry(&batch[0]).unwrap()[..]);
    assert_eq!(&message.blocks[4..], &block_from_entry(&batch[1]).unwrap()[..]);
    assert_eq!(Slack::message(&[]).unwrap().blocks, vec![]);
}

#[test]
fn time_outside_the_calendar_is_an_error() {
    let late = entry(None, "x", i64::MAX);
    assert_eq!(block_from_entry(&late), Err(Error::Entry(EntryError::Timestamp)));
    assert_eq!(Slack::message(&[entry(None, "x", 0), entry(None, "x", i64::MAX)]), Err(Error::Entry(EntryError::Timestamp)));
    assert_eq!(DiscordBot::embed(&late), Err(Error::Entry(EntryError::Timestamp)));
    assert_eq!(DiscordBot::message(&[entry(None, "x", i64::MIN)]), Err(Error::Entry(EntryError::Timestamp)));
    let odd = Entry { timestamp: Timestamp { secs: 0, nanos: 2_000_000_000 }, ..entry(None, "x", 0) };
    assert_eq!(DiscordBot::embed(&odd), Err(Error::Entry(EntryError::Timestamp)));
}

#[test]
fn bot_embed_carries_the_time_in_rfc3339() {
    let embed = DiscordBot::embed(&entry(Some("Ada"), "Some words", 1431648000)).unwrap();
    assert_eq!(
        embed,
        Embed {
            title: "A title".to_owned(),
            description: "Some words".to_owned(),
            author: Some("Ada".to_owned()),
            url: "https://example.org/post".to_owned(),
            timestamp: "2015-05-15T00:00:00+00:00".to_owned(),
        }
    );
    let fraction = Entry { timestamp: Timestamp { secs: 0, nanos: 500_000_000 }, ..entry(None, "", 0) };
    assert_eq!(DiscordBot::embed(&fraction).unwrap().timestamp, "1970-01-01T00:00:00.500+00:00");
    let both = DiscordBot::message(&[entry(None, "a", 0), entry(None, "b", 1)]).unwrap();
    assert_eq!(both.len(), 2);
    assert_eq!(both[1].timestamp, "1970-01-01T00:00:01+00:00");
}

#[test]
fn webhook_message_names_the_author_only() {
    let message = DiscordWebhook::message(&[entry(Some("Ada"), "Some words", 5), entry(None, "", 4)]);
    assert_eq!(
        message.embeds,
        vec![
            EmbedObject {
                title: "A title".to_owned(),
                description: "Some words".to_owned(),
                author: Some(EmbedAuthor { name: "Ada".to_owned(), url: None }),
                url: "https://example.org/post".to_owned(),
                timestamp: Timestamp { secs: 5, nanos: 0 },
            },
            EmbedObject {
                title: "A title".to_owned(),
                description: "".to_owned(),
                author: None,
                url: "https://example.org/post".to_owned(),
                timestamp: Timestamp { secs: 4, nanos: 0 },
            },
        ]
    );
}

#[test]
fn blocks_show_the_time_they_are_given() {
    let blocks = blocks_with_time(&entry(Some("Ada"), "", 0), "now".to_owned());
    assert_eq!(
        blocks,
        vec![
            Block::Header { text: plain("A title", false) },
            Block::Section { text: markdown("no description"), accessory: button() },
            Block::Context {
                elements: vec![markdown("Ada"), markdown("https://example.org/post"), plain("now", false)],
            },
            Block::Divider,
        ]
    );
}

#[test]
fn embed_shows_the_time_it_is_given() {
    assert_eq!(
        embed_with_time(&entry(None, "Some words", 0), "now".to_owned()),
        Embed {
            title: "A title".to_owned(),
            description: "Some words".to_owned(),
            author: None,
            url: "https://example.org/post".to_owned(),
            timestamp: "now".to_owned(),
        }
    );
}
