use vstd::prelude::*;
use vstd::string::*;
use crate::outputs::{batch_count, RawEntry, Timestamp, BATCH_SIZE};

verus! {

/// A sink that posts feed items to a Discord webhook as they come from the
/// feed, titled with the feed's name.
#[derive(Debug, PartialEq, Eq)]
pub struct Discord {
    pub url: String,
}

/// The body of one request: the items of one batch.
#[derive(Debug, PartialEq, Eq)]
pub struct Message {
    pub embeds: Vec<EmbedObject>,
}

/// One feed item as it appears in a request.
#[derive(Debug, PartialEq, Eq)]
pub struct EmbedObject {
    pub title: String,
    pub url: String,
    pub timestamp: Timestamp,
}

/// Whether a feed item has what an embed needs: a title, a link and a
/// publish timestamp.
pub open spec fn spec_complete(entry: RawEntry) -> bool {
    entry.title is Some && entry.links@.len() > 0 && entry.published is Some
}

/// Whether `embed` shows `entry` of the feed `name`: titled with the feed's
/// name, a dash and the item's title, with the item's first link and its
/// publish timestamp.
pub open spec fn spec_embeds(name: Seq<char>, entry: RawEntry, embed: EmbedObject) -> bool {
    &&& spec_complete(entry)
    &&& embed.title@ == name + " - "@ + entry.title->Some_0@
    &&& embed.url == entry.links@[0]
    &&& embed.timestamp == entry.published->Some_0
}

/// Number of items in the `k`-th of the batches that `n` items are sent in.
pub open spec fn spec_batch_len(n: nat, k: int) -> int {
    if 10 * k + 10 < n {
        10
    } else {
        n - 10 * k
    }
}

impl EmbedObject {
    pub fn new(name: &str, entry: &RawEntry) -> (r: Self)
        requires
            spec_complete(*entry),
        ensures
            spec_embeds(name@, *entry, r),
    {
        let title = match &entry.title {
            Some(title) => String::from_str(name).concat(" - ").concat(title.as_str()),
            None => String::new(),
        };
        let timestamp = match entry.published {
            Some(time) => time,
            None => Timestamp { secs: 0, nanos: 0 },
        };
        Self { title, url: entry.links[0].clone(), timestamp }
    }
}

impl Discord {
    pub fn new(url: String) -> (r: Self)
        ensures
            r.url == url,
    {
        Self { url }
    }

    /// Renders the items of the feed `name` as the bodies of the requests to
    /// send, in order: one per batch of ten items, the last with what is
    /// left.
    pub fn push(&self, name: &str, entries: &[RawEntry]) -> (r: Vec<Message>)
        requires
            forall|i: int| 0 <= i < entries@.len() ==> spec_complete(#[trigger] entries@[i]),
        ensures
            r@.len() == batch_count(entries@.len()),
            forall|k: int|
                0 <= k < r@.len() ==> (#[trigger] r@[k]).embeds@.len() == spec_batch_len(
                    entries@.len(),
                    k,
                ),
            forall|k: int, i: int|
                0 <= k < r@.len() && 0 <= i < r@[k].embeds@.len() ==> spec_embeds(
                    name@,
                    entries@[10 * k + i],
                    #[trigger] r@[k].embeds@[i],
                ),
    {
        let mut out: Vec<Message> = Vec::new();
        let mut start: usize = 0;
        while start < entries.len()
            invariant
                start <= entries@.len(),
                start == 10 * out@.len(),
                forall|i: int| 0 <= i < entries@.len() ==> spec_complete(#[trigger] entries@[i]),
                forall|k: int| 0 <= k < out@.len() ==> (#[trigger] out@[k]).embeds@.len() == 10,
                forall|k: int, i: int|
                    0 <= k < out@.len() && 0 <= i < out@[k].embeds@.len() ==> spec_embeds(
                        name@,
                        entries@[10 * k + i],
                        #[trigger] out@[k].embeds@[i],
                    ),
            decreases entries@.len() - start,
        {
            let end: usize = if entries.len() - start > BATCH_SIZE {
                start + BATCH_SIZE
            } else {
                entries.len()
            };
            let mut embeds: Vec<EmbedObject> = Vec::new();
            let mut i: usize = start;
            while i < end
                invariant
                    start <= i <= end <= entries@.len(),
                    embeds@.len() == i - start,
                    forall|i: int| 0 <= i < entries@.len() ==> spec_complete(#[trigger] entries@[i]),
                    forall|j: int|
                        0 <= j < embeds@.len() ==> spec_embeds(
                            name@,
                            entries@[start + j],
                            #[trigger] embeds@[j],
                        ),
                decreases end - i,
            {
                embeds.push(EmbedObject::new(name, &entries[i]));
                i = i + 1;
            }
            out.push(Message { embeds });
            if end == entries.len() {
                return out;
            }
            start = end;
        }
        out
    }
}

} // verus!
