use vstd::prelude::*;
use vstd::string::*;
use crate::error::{EntryError, Error};
use crate::outputs::{batches, format_time, formatted_time, is_batched, Delivery, Entry};

verus! {

/// A sink that posts batches of entries to a Slack webhook.
#[derive(Debug, PartialEq, Eq)]
pub struct Slack {
    pub url: String,
}

/// A piece of text in a message.
#[derive(Debug, PartialEq, Eq)]
pub enum Text {
    Plain { text: String, emoji: bool },
    Markdown { text: String, verbatim: bool },
}

/// A button that opens a link.
#[derive(Debug, PartialEq, Eq)]
pub struct Button {
    pub text: Text,
    pub action_id: String,
    pub url: Option<String>,
}

/// A layout block of a message.
#[derive(Debug, PartialEq, Eq)]
pub enum Block {
    Header { text: Text },
    Section { text: Text, accessory: Button },
    Context { elements: Vec<Text> },
    Divider,
}

/// The body of one request: the blocks of the entries of one batch.
#[derive(Debug, PartialEq, Eq)]
pub struct Message {
    pub blocks: Vec<Block>,
}

/// Whether `text` is plain text with the given content and emoji setting.
pub open spec fn is_plain(text: Text, content: Seq<char>, with_emoji: bool) -> bool {
    match text {
        Text::Plain { text, emoji } => text@ == content && emoji == with_emoji,
        _ => false,
    }
}

/// Whether `text` is non-verbatim markdown with the given content.
pub open spec fn is_markdown(text: Text, content: Seq<char>) -> bool {
    match text {
        Text::Markdown { text, verbatim } => text@ == content && !verbatim,
        _ => false,
    }
}

/// The publish time of an entry as a message shows it, if it can be
/// written.
pub open spec fn spec_shown_time(entry: Entry) -> Option<Seq<char>> {
    formatted_time(
        entry.timestamp.secs as int,
        entry.timestamp.nanos as int,
        "%d %b %Y %I:%M %p %Z"@,
    )
}

/// The text of the section of an entry: its description, or a stand-in
/// where it has none.
pub open spec fn spec_section_text(entry: Entry) -> Seq<char> {
    if entry.description@.len() == 0 {
        "no description"@
    } else {
        entry.description@
    }
}

/// Whether `button` opens the entry's URL.
pub open spec fn is_open_button(entry: Entry, button: Button) -> bool {
    &&& is_plain(button.text, ":link: Open"@, true)
    &&& button.action_id@ == "button-action"@
    &&& match button.url {
        Some(url) => url@ == entry.url@,
        None => false,
    }
}

/// Whether `elements` are the context line of an entry: the author where
/// there is one, then the URL, then the publish time written as `time`.
pub open spec fn is_context(entry: Entry, time: Seq<char>, elements: Seq<Text>) -> bool {
    match entry.author {
        Some(author) => {
            &&& elements.len() == 3
            &&& is_markdown(elements[0], author@)
            &&& is_markdown(elements[1], entry.url@)
            &&& is_plain(elements[2], time, false)
        },
        None => {
            &&& elements.len() == 2
            &&& is_markdown(elements[0], entry.url@)
            &&& is_plain(elements[1], time, false)
        },
    }
}

/// Whether the four blocks from `at` on show `entry` with its publish time
/// written as `time`: a header with the title, a section with the
/// description and a button to the URL, the context line, and a divider.
pub open spec fn spec_shows_at(entry: Entry, time: Seq<char>, blocks: Seq<Block>, at: int) -> bool {
    &&& 0 <= at && at + 4 <= blocks.len()
    &&& match blocks[at] {
        Block::Header { text } => is_plain(text, entry.title@, false),
        _ => false,
    }
    &&& match blocks[at + 1] {
        Block::Section { text, accessory } => is_markdown(text, spec_section_text(entry))
            && is_open_button(entry, accessory),
        _ => false,
    }
    &&& match blocks[at + 2] {
        Block::Context { elements } => is_context(entry, time, elements@),
        _ => false,
    }
    &&& blocks[at + 3] is Divider
}

/// Whether the four blocks from `at` on show `entry`, its publish time
/// written the way a message shows it.
pub open spec fn spec_shows(entry: Entry, blocks: Seq<Block>, at: int) -> bool {
    match spec_shown_time(entry) {
        Some(time) => spec_shows_at(entry, time, blocks, at),
        None => false,
    }
}

/// The four blocks of an entry whose publish time is written as `time`.
pub fn blocks_with_time(entry: &Entry, time: String) -> (r: Vec<Block>)
    ensures
        r@.len() == 4,
        spec_shows_at(*entry, time@, r@, 0),
{
    let header = Block::Header { text: Text::Plain { text: entry.title.clone(), emoji: false } };
    let description = if entry.description.as_str().unicode_len() == 0 {
        String::from_str("no description")
    } else {
        entry.description.clone()
    };
    let section = Block::Section {
        text: Text::Markdown { text: description, verbatim: false },
        accessory: Button {
            text: Text::Plain { text: String::from_str(":link: Open"), emoji: true },
            action_id: String::from_str("button-action"),
            url: Some(entry.url.clone()),
        },
    };
    let mut elements: Vec<Text> = Vec::new();
    match &entry.author {
        Some(author) => {
            elements.push(Text::Markdown { text: author.clone(), verbatim: false });
        },
        None => {},
    }
    elements.push(Text::Markdown { text: entry.url.clone(), verbatim: false });
    elements.push(Text::Plain { text: time, emoji: false });
    let context = Block::Context { elements };
    let mut blocks: Vec<Block> = Vec::new();
    blocks.push(header);
    blocks.push(section);
    blocks.push(context);
    blocks.push(Block::Divider);
    blocks
}

/// Renders one entry as its four blocks. Fails exactly when the publish
/// time cannot be written as a date.
pub fn block_from_entry(entry: &Entry) -> (r: Result<Vec<Block>, Error>)
    ensures
        match r {
            Ok(blocks) => blocks@.len() == 4 && spec_shows(*entry, blocks@, 0),
            Err(error) => spec_shown_time(*entry).is_none() && error == Error::Entry(
                EntryError::Timestamp,
            ),
        },
{
    match format_time(entry.timestamp, "%d %b %Y %I:%M %p %Z") {
        Some(time) => Ok(blocks_with_time(entry, time)),
        None => Err(Error::Entry(EntryError::Timestamp)),
    }
}

impl Slack {
    pub fn new(url: String) -> (r: Self)
        ensures
            r.url == url,
    {
        Self { url }
    }

    /// Renders one batch as the body of one request: the blocks of its
    /// entries, in order. Fails exactly when the publish time of some entry
    /// cannot be written as a date.
    pub fn message(batch: &[Entry]) -> (r: Result<Message, Error>)
        ensures
            match r {
                Ok(message) => message.blocks@.len() == 4 * batch@.len() && forall|i: int|
                    0 <= i < batch@.len() ==> spec_shows(#[trigger] batch@[i], message.blocks@, 4 * i),
                Err(error) => error == Error::Entry(EntryError::Timestamp) && exists|i: int|
                    0 <= i < batch@.len() && spec_shown_time(#[trigger] batch@[i]).is_none(),
            },
    {
        let mut blocks: Vec<Block> = Vec::new();
        let mut i: usize = 0;
        while i < batch.len()
            invariant
                i <= batch@.len(),
                blocks@.len() == 4 * i,
                forall|k: int| 0 <= k < i ==> spec_shows(#[trigger] batch@[k], blocks@, 4 * k),
            decreases batch@.len() - i,
        {
            match block_from_entry(&batch[i]) {
                Ok(four) => {
                    let mut four = four;
                    blocks.append(&mut four);
                },
                Err(error) => {
                    return Err(error);
                },
            }
            i = i + 1;
        }
        Ok(Message { blocks })
    }

    /// Plans the delivery of `entries`: one request per batch, in order.
    pub fn push(&self, name: &str, entries: &[Entry]) -> (r: Delivery)
        ensures
            match r {
                Delivery::Slack { url, batches: planned } => url == self.url && is_batched(
                    entries@,
                    planned@,
                ),
                _ => false,
            },
    {
        Delivery::Slack { url: self.url.clone(), batches: batches(entries) }
    }
}

} // verus!
