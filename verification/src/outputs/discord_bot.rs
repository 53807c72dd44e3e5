use vstd::prelude::*;
use crate::error::{EntryError, Error};
use crate::outputs::{batches, is_batched, rfc3339, rfc3339_text, Delivery, Entry};

verus! {

/// A sink that sends batches of entries to one user as direct messages.
#[derive(Debug, PartialEq, Eq)]
pub struct DiscordBot {
    pub token: String,
    pub user_id: u64,
}

/// One entry as it appears in a direct message.
#[derive(Debug, PartialEq, Eq)]
pub struct Embed {
    pub title: String,
    pub description: String,
    pub author: Option<String>,
    pub url: String,
    /// The publish time in RFC 3339 form.
    pub timestamp: String,
}

/// The RFC 3339 text of the entry's publish time, if it has one.
pub open spec fn spec_embed_time(entry: Entry) -> Option<Seq<char>> {
    rfc3339_text(entry.timestamp.secs as int, entry.timestamp.nanos as int)
}

/// Whether `embed` shows `entry`: the same title, description, author and
/// URL, and the publish time in RFC 3339 form.
pub open spec fn spec_embeds(entry: Entry, embed: Embed) -> bool {
    &&& embed.title == entry.title
    &&& embed.description == entry.description
    &&& embed.author == entry.author
    &&& embed.url == entry.url
    &&& spec_embed_time(entry) == Some(embed.timestamp@)
}

/// The embed of an entry whose publish time is written as `timestamp`.
pub fn embed_with_time(entry: &Entry, timestamp: String) -> (r: Embed)
    ensures
        r.title == entry.title,
        r.description == entry.description,
        r.author == entry.author,
        r.url == entry.url,
        r.timestamp == timestamp,
{
    let copy = entry.clone();
    Embed {
        title: copy.title,
        description: copy.description,
        author: copy.author,
        url: copy.url,
        timestamp,
    }
}

impl DiscordBot {
    pub fn new(token: String, user_id: u64) -> (r: Self)
        ensures
            r.token == token,
            r.user_id == user_id,
    {
        Self { token, user_id }
    }

    /// Renders one entry. Fails exactly when the publish time cannot be
    /// written as a date.
    pub fn embed(entry: &Entry) -> (r: Result<Embed, Error>)
        ensures
            match r {
                Ok(embed) => spec_embeds(*entry, embed),
                Err(error) => spec_embed_time(*entry).is_none() && error == Error::Entry(
                    EntryError::Timestamp,
                ),
            },
    {
        match rfc3339(entry.timestamp) {
            Some(timestamp) => Ok(embed_with_time(entry, timestamp)),
            None => Err(Error::Entry(EntryError::Timestamp)),
        }
    }

    /// Renders one batch as the embeds of one message, in order. Fails
    /// exactly when the publish time of some entry cannot be written as a
    /// date.
    pub fn message(batch: &[Entry]) -> (r: Result<Vec<Embed>, Error>)
        ensures
            match r {
                Ok(embeds) => embeds@.len() == batch@.len() && forall|i: int|
                    0 <= i < batch@.len() ==> spec_embeds(batch@[i], #[trigger] embeds@[i]),
                Err(error) => error == Error::Entry(EntryError::Timestamp) && exists|i: int|
                    0 <= i < batch@.len() && spec_embed_time(#[trigger] batch@[i]).is_none(),
            },
    {
        let mut embeds: Vec<Embed> = Vec::new();
        let mut i: usize = 0;
        while i < batch.len()
            invariant
                i <= batch@.len(),
                embeds@.len() == i,
                forall|k: int| 0 <= k < i ==> spec_embeds(batch@[k], #[trigger] embeds@[k]),
            decreases batch@.len() - i,
        {
            match Self::embed(&batch[i]) {
                Ok(embed) => {
                    embeds.push(embed);
                },
                Err(error) => {
                    return Err(error);
                },
            }
            i = i + 1;
        }
        Ok(embeds)
    }

    /// Plans the delivery of `entries`: the recipient is looked up once,
    /// then one message per batch is sent, in order.
    pub fn push(&self, name: &str, entries: &[Entry]) -> (r: Delivery)
        ensures
            match r {
                Delivery::DiscordBot { token, user_id, batches: planned } => token == self.token
                    && user_id == self.user_id && is_batched(entries@, planned@),
                _ => false,
            },
    {
        Delivery::DiscordBot {
            token: self.token.clone(),
            user_id: self.user_id,
            batches: batches(entries),
        }
    }
}

} // verus!
