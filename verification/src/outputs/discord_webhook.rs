use vstd::prelude::*;
use crate::outputs::{batches, is_batched, Delivery, Entry, Timestamp};

verus! {

/// A sink that posts batches of entries to a Discord webhook.
#[derive(Debug, PartialEq, Eq)]
pub struct DiscordWebhook {
    pub url: String,
}

/// The body of one request: the entries of one batch.
#[derive(Debug, PartialEq, Eq)]
pub struct Message {
    pub embeds: Vec<EmbedObject>,
}

/// One entry as it appears in a request.
#[derive(Debug, PartialEq, Eq)]
pub struct EmbedObject {
    pub title: String,
    pub description: String,
    pub author: Option<EmbedAuthor>,
    pub url: String,
    pub timestamp: Timestamp,
}

/// The author of an embedded entry.
#[derive(Debug, PartialEq, Eq)]
pub struct EmbedAuthor {
    pub name: String,
    pub url: Option<String>,
}

/// Whether `embed` shows `entry`: the same title, description, URL and
/// publish time, and the author by name only, where there is one.
pub open spec fn spec_embeds(entry: Entry, embed: EmbedObject) -> bool {
    &&& embed.title == entry.title
    &&& embed.description == entry.description
    &&& embed.url == entry.url
    &&& embed.timestamp == entry.timestamp
    &&& match entry.author {
        Some(name) => embed.author == Some(EmbedAuthor { name, url: None }),
        None => embed.author.is_none(),
    }
}

impl DiscordWebhook {
    pub fn new(url: String) -> (r: Self)
        ensures
            r.url == url,
    {
        Self { url }
    }

    /// Renders one batch as the body of one request, in order.
    pub fn message(batch: &[Entry]) -> (r: Message)
        ensures
            r.embeds@.len() == batch@.len(),
            forall|i: int| 0 <= i < batch@.len() ==> spec_embeds(batch@[i], #[trigger] r.embeds@[i]),
    {
        let mut embeds: Vec<EmbedObject> = Vec::new();
        let mut i: usize = 0;
        while i < batch.len()
            invariant
                i <= batch@.len(),
                embeds@.len() == i,
                forall|k: int| 0 <= k < i ==> spec_embeds(batch@[k], #[trigger] embeds@[k]),
            decreases batch@.len() - i,
        {
            let copy = batch[i].clone();
            let author = match copy.author {
                Some(name) => Some(EmbedAuthor { name, url: None }),
                None => None,
            };
            embeds.push(
                EmbedObject {
                    title: copy.title,
                    description: copy.description,
                    author,
                    url: copy.url,
                    timestamp: copy.timestamp,
                },
            );
            i = i + 1;
        }
        Message { embeds }
    }

    /// Plans the delivery of `entries`: one request per batch, in order.
    pub fn push(&self, name: &str, entries: &[Entry]) -> (r: Delivery)
        ensures
            match r {
                Delivery::DiscordWebhook { url, batches: planned } => url == self.url && is_batched(
                    entries@,
                    planned@,
                ),
                _ => false,
            },
    {
        Delivery::DiscordWebhook { url: self.url.clone(), batches: batches(entries) }
    }
}

} // verus!
