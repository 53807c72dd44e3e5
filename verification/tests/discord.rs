use feedwatch::outputs::discord::{Discord, EmbedObject, Message};
use feedwatch::outputs::{RawEntry, Timestamp};

fn item(n: i64) -> RawEntry {
    RawEntry {
        title: Some(format!("post {}", n)),
        summary: None,
        content: None,
        authors: vec![],
        links: vec![format!("https://example.org/{}", n), "https://example.org/other".to_owned()],
        published: Some(Timestamp { secs: n, nanos: 0 }),
    }
}

fn embed(n: i64) -> EmbedObject {
    EmbedObject {
        title: format!("news - post {}", n),
        url: format!("https://example.org/{}", n),
        timestamp: Timestamp { secs: n, nanos: 0 },
    }
}

#[test]
fn embed_is_titled_with_the_feed_name() {
    assert_eq!(EmbedObject::new("news", &item(4)), embed(4));
    assert_eq!(EmbedObject::new("", &item(4)).title, " - post 4");
}

#[test]
fn items_are_posted_in_batches_of_ten() {
    let sink = Discord::new("https://hook".to_owned());
    assert_eq!(sink.url, "https://hook");
    let items: Vec<RawEntry> = (0..12).map(item).collect();
    let messages = sink.push("news", &items);
    assert_eq!(
        messages,
        vec![
            Message { embeds: (0..10).map(embed).collect() },
            Message { embeds: vec![embed(10), embed(11)] },
        ]
    );
    assert_eq!(sink.push("news", &[]), vec![]);
    assert_eq!(sink.push("news", &items[..10]).len(), 1);
}
