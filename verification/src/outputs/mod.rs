pub mod custom;
pub mod discord;
pub mod discord_bot;
pub mod discord_webhook;
pub mod slack;

use std::fmt::Write;
use vstd::prelude::*;
use vstd::string::*;
use crate::config::OutputConfig;
use crate::error::{EntryError, Error};
use crate::outputs::custom::Custom;
use crate::outputs::discord_bot::DiscordBot;
use crate::outputs::discord_webhook::DiscordWebhook;
use crate::outputs::slack::Slack;

verus! {

/// Column at which rendered HTML is wrapped.
pub const TEXT_WIDTH: usize = 80;

/// Most characters of a description that are kept.
pub const DESCRIPTION_MAX_LENGTH: usize = 256;

/// A point in time: whole seconds since the Unix epoch and the nanoseconds
/// within that second.
#[derive(Clone, Copy, Debug, PartialEq, Eq, Structural)]
pub struct Timestamp {
    pub secs: i64,
    pub nanos: u32,
}

impl Timestamp {
    /// `self` is strictly later than `other`.
    pub open spec fn is_after(self, other: Timestamp) -> bool {
        self.secs > other.secs || (self.secs == other.secs && self.nanos > other.nanos)
    }

    pub fn gt(&self, other: &Timestamp) -> (r: bool)
        ensures
            r == self.is_after(*other),
    {
        self.secs > other.secs || (self.secs == other.secs && self.nanos > other.nanos)
    }
}

/// A text construct of a feed item with the subtype of its media type.
#[derive(Debug, PartialEq, Eq)]
pub struct RawText {
    pub content: String,
    pub subtype: String,
}

/// The full body of a feed item with the subtype of its media type.
#[derive(Debug, PartialEq, Eq)]
pub struct RawContent {
    pub body: Option<String>,
    pub subtype: String,
}

/// A feed item as the feed's document gives it.
#[derive(Debug, PartialEq, Eq)]
pub struct RawEntry {
    pub title: Option<String>,
    pub summary: Option<RawText>,
    pub content: Option<RawContent>,
    /// Names of the authors, in document order.
    pub authors: Vec<String>,
    /// Targets of the links, in document order.
    pub links: Vec<String>,
    pub published: Option<Timestamp>,
}

/// A normalized feed item, the same for every sink.
#[derive(Debug, PartialEq, Eq)]
pub struct Entry {
    pub title: String,
    pub description: String,
    pub author: Option<String>,
    pub url: String,
    pub timestamp: Timestamp,
}

/// What an [`Entry`] holds, as mathematical values.
pub struct EntryView {
    pub title: Seq<char>,
    pub description: Seq<char>,
    pub author: Option<Seq<char>>,
    pub url: Seq<char>,
    pub timestamp: Timestamp,
}

impl View for Entry {
    type V = EntryView;

    open spec fn view(&self) -> EntryView {
        EntryView {
            title: self.title@,
            description: self.description@,
            author: match self.author {
                Some(a) => Some(a@),
                None => None,
            },
            url: self.url@,
            timestamp: self.timestamp,
        }
    }
}

/// The plain text that the HTML renderer produces for `html` wrapped at
/// `width` columns, or `None` where it reports an error.
pub uninterp spec fn html_text(html: Seq<char>, width: nat) -> Option<Seq<char>>;

/// Calls `html2text::from_read` on the bytes of `html` and drops the detail
/// of a failure. The renderer is a function of the document and the width
/// alone; the contract gives its outcome the name [`html_text`] and claims
/// nothing else about it.
#[verifier::external_body]
fn render_html(html: &str, width: usize) -> (r: Option<String>)
    ensures
        match r {
            Some(text) => html_text(html@, width as nat) == Some(text@),
            None => html_text(html@, width as nat).is_none(),
        },
{
    html2text::from_read(html.as_bytes(), width).ok()
}

/// The text that the calendar library writes for the UTC time `secs`
/// seconds and `nanos` nanoseconds after the Unix epoch under the strftime
/// pattern `pattern`; `None` where the time lies outside its calendar or the
/// pattern is not one it can write.
pub uninterp spec fn formatted_time(secs: int, nanos: int, pattern: Seq<char>) -> Option<Seq<char>>;

/// The RFC 3339 text of the UTC time `secs` seconds and `nanos` nanoseconds
/// after the Unix epoch; `None` where the time lies outside the calendar.
pub uninterp spec fn rfc3339_text(secs: int, nanos: int) -> Option<Seq<char>>;

/// Builds the time with `chrono::DateTime::from_timestamp` and writes what
/// `chrono::DateTime::format` yields for the pattern. Both depend on the
/// arguments alone; the contract gives the outcome the name
/// [`formatted_time`] and claims nothing else about it.
#[verifier::external_body]
pub(crate) fn format_time(time: Timestamp, pattern: &str) -> (r: Option<String>)
    ensures
        match r {
            Some(text) => formatted_time(time.secs as int, time.nanos as int, pattern@) == Some(
                text@,
            ),
            None => formatted_time(time.secs as int, time.nanos as int, pattern@).is_none(),
        },
{
    let moment = chrono::DateTime::from_timestamp(time.secs, time.nanos)?;
    let mut text = String::new();
    write!(text, "{}", moment.format(pattern)).ok()?;
    Some(text)
}

/// Builds the time with `chrono::DateTime::from_timestamp` and returns what
/// `chrono::DateTime::to_rfc3339` yields. Both depend on the arguments
/// alone; the contract gives the outcome the name [`rfc3339_text`] and
/// claims nothing else about it.
#[verifier::external_body]
pub(crate) fn rfc3339(time: Timestamp) -> (r: Option<String>)
    ensures
        match r {
            Some(text) => rfc3339_text(time.secs as int, time.nanos as int) == Some(text@),
            None => rfc3339_text(time.secs as int, time.nanos as int).is_none(),
        },
{
    let moment = chrono::DateTime::from_timestamp(time.secs, time.nanos)?;
    Some(moment.to_rfc3339())
}

/// The description that is kept of `text`: the text itself while it has at
/// most 256 characters, else its first 256 characters followed by three
/// dots.
pub open spec fn spec_truncate(text: Seq<char>) -> Seq<char> {
    if text.len() > DESCRIPTION_MAX_LENGTH {
        text.take(DESCRIPTION_MAX_LENGTH as int) + "..."@
    } else {
        text
    }
}

/// Cuts a description down to the maximum length and marks the cut.
pub fn truncate(description: String) -> (r: String)
    ensures
        r@ == spec_truncate(description@),
        r@.len() <= DESCRIPTION_MAX_LENGTH + 3,
{
    proof {
        reveal_strlit("...");
    }
    if description.as_str().unicode_len() > DESCRIPTION_MAX_LENGTH {
        let head = description.as_str().substring_char(0, DESCRIPTION_MAX_LENGTH);
        String::from_str(head).concat("...")
    } else {
        description
    }
}

/// Whether a media subtype names HTML.
pub open spec fn is_html(subtype: Seq<char>) -> bool {
    subtype == "html"@
}

/// The text of a body of the given subtype before truncation: HTML is
/// rendered, anything else is taken as it is. `None` where rendering fails.
pub open spec fn spec_plain_text(body: Seq<char>, subtype: Seq<char>) -> Option<Seq<char>> {
    if is_html(subtype) {
        html_text(body, TEXT_WIDTH as nat)
    } else {
        Some(body)
    }
}

/// Turns a body of the given subtype into plain text.
pub fn plain_text(body: &String, subtype: &String) -> (r: Result<String, Error>)
    ensures
        match r {
            Ok(text) => spec_plain_text(body@, subtype@) == Some(text@),
            Err(e) => spec_plain_text(body@, subtype@).is_none()
                && e == Error::Entry(EntryError::Html),
        },
{
    let html = String::from_str("html");
    if *subtype == html {
        match render_html(body.as_str(), TEXT_WIDTH) {
            Some(text) => Ok(text),
            None => Err(Error::Entry(EntryError::Html)),
        }
    } else {
        Ok(body.clone())
    }
}

/// The text of an item before truncation: the summary where there is one,
/// else the body, else nothing. `None` where rendering fails.
pub open spec fn spec_body_text(raw: RawEntry) -> Option<Seq<char>> {
    match raw.summary {
        Some(summary) => spec_plain_text(summary.content@, summary.subtype@),
        None => match raw.content {
            Some(content) => match content.body {
                Some(body) => spec_plain_text(body@, content.subtype@),
                None => Some(Seq::empty()),
            },
            None => Some(Seq::empty()),
        },
    }
}

/// The entry that a feed item with a publish timestamp normalizes to;
/// `None` where its text cannot be rendered.
///
/// The title is the item's or empty, the description is the truncated text
/// of the item, the author is the first author's name, the URL is the first
/// link's target or empty.
pub open spec fn spec_entry(raw: RawEntry) -> Option<EntryView> {
    match spec_body_text(raw) {
        None => None,
        Some(text) => Some(
            EntryView {
                title: match raw.title {
                    Some(title) => title@,
                    None => Seq::empty(),
                },
                description: spec_truncate(text),
                author: if raw.authors@.len() > 0 {
                    Some(raw.authors@[0]@)
                } else {
                    None
                },
                url: if raw.links@.len() > 0 {
                    raw.links@[0]@
                } else {
                    Seq::empty()
                },
                timestamp: raw.published->Some_0,
            },
        ),
    }
}

impl Entry {
    /// Normalizes a feed item that carries a publish timestamp. Fails
    /// exactly when its text cannot be rendered.
    pub fn from(entry: &RawEntry) -> (r: Result<Entry, Error>)
        requires
            entry.published is Some,
        ensures
            match r {
                Ok(e) => spec_entry(*entry) == Some(e@),
                Err(error) => spec_entry(*entry).is_none() && error == Error::Entry(
                    EntryError::Html,
                ),
            },
    {
        let timestamp = entry.published.unwrap();
        let text = match &entry.summary {
            Some(summary) => plain_text(&summary.content, &summary.subtype),
            None => match &entry.content {
                Some(content) => match &content.body {
                    Some(body) => plain_text(body, &content.subtype),
                    None => Ok(String::new()),
                },
                None => Ok(String::new()),
            },
        };
        let description = match text {
            Ok(text) => truncate(text),
            Err(e) => {
                return Err(e);
            },
        };
        let title = match &entry.title {
            Some(title) => title.clone(),
            None => String::new(),
        };
        let author = if entry.authors.len() > 0 {
            Some(entry.authors[0].clone())
        } else {
            None
        };
        let url = if entry.links.len() > 0 {
            entry.links[0].clone()
        } else {
            String::new()
        };
        Ok(Entry { title, description, author, url, timestamp })
    }
}

impl Clone for Entry {
    fn clone(&self) -> (r: Self)
        ensures
            r == *self,
    {
        Entry {
            title: self.title.clone(),
            description: self.description.clone(),
            author: match &self.author {
                Some(author) => Some(author.clone()),
                None => None,
            },
            url: self.url.clone(),
            timestamp: self.timestamp,
        }
    }
}

/// Most entries that one outbound message may carry.
pub const BATCH_SIZE: usize = 10;

/// Number of batches that `n` entries are sent in.
pub open spec fn batch_count(n: nat) -> nat {
    (n + 9) / 10
}

/// The `k`-th batch of `entries`: ten consecutive entries, fewer in the last.
pub open spec fn spec_batch(entries: Seq<Entry>, k: int) -> Seq<Entry> {
    entries.subrange(
        10 * k,
        if 10 * k + 10 < entries.len() {
            10 * k + 10
        } else {
            entries.len() as int
        },
    )
}

/// Whether `batches` are the batches of `entries`, all of them and in order.
pub open spec fn is_batched(entries: Seq<Entry>, batches: Seq<Vec<Entry>>) -> bool {
    &&& batches.len() == batch_count(entries.len())
    &&& forall|k: int| 0 <= k < batches.len() ==> (#[trigger] batches[k])@ == spec_batch(entries, k)
}

/// Splits entries, in order, into batches of ten; only the last may be
/// shorter, and none is empty.
pub fn batches(entries: &[Entry]) -> (r: Vec<Vec<Entry>>)
    ensures
        is_batched(entries@, r@),
{
    let mut out: Vec<Vec<Entry>> = Vec::new();
    let mut start: usize = 0;
    while start < entries.len()
        invariant
            start <= entries@.len(),
            start == 10 * out@.len() || start == entries@.len(),
            out@.len() == batch_count(start as nat),
            forall|k: int| 0 <= k < out@.len() ==> (#[trigger] out@[k])@ == spec_batch(entries@, k),
        decreases entries@.len() - start,
    {
        let end: usize = if entries.len() - start > BATCH_SIZE {
            start + BATCH_SIZE
        } else {
            entries.len()
        };
        let mut batch: Vec<Entry> = Vec::new();
        let mut i: usize = start;
        while i < end
            invariant
                start <= i <= end <= entries@.len(),
                batch@ == entries@.subrange(start as int, i as int),
            decreases end - i,
        {
            batch.push(entries[i].clone());
            i = i + 1;
        }
        out.push(batch);
        start = end;
    }
    out
}

/// Copies a list of strings.
pub fn clone_strings(list: &Vec<String>) -> (r: Vec<String>)
    ensures
        r@ == list@,
{
    let mut out: Vec<String> = Vec::new();
    let mut i: usize = 0;
    while i < list.len()
        invariant
            i <= list@.len(),
            out@ == list@.take(i as int),
        decreases list@.len() - i,
    {
        out.push(list[i].clone());
        i = i + 1;
    }
    out
}

/// Copies a list of entries.
pub fn clone_entries(entries: &[Entry]) -> (r: Vec<Entry>)
    ensures
        r@ == entries@,
{
    let mut out: Vec<Entry> = Vec::new();
    let mut i: usize = 0;
    while i < entries.len()
        invariant
            i <= entries@.len(),
            out@ == entries@.take(i as int),
        decreases entries@.len() - i,
    {
        out.push(entries[i].clone());
        i = i + 1;
    }
    out
}

/// Whether every item carries a publish timestamp.
pub open spec fn spec_all_dated(items: Seq<RawEntry>) -> bool {
    forall|i: int| 0 <= i < items.len() ==> (#[trigger] items[i]).published is Some
}

/// Whether `entries` are the entries of `items`, one for each and in order.
pub open spec fn spec_normalized(items: Seq<RawEntry>, entries: Seq<Entry>) -> bool {
    &&& entries.len() == items.len()
    &&& forall|i: int|
        0 <= i < items.len() ==> spec_entry(#[trigger] items[i]) == Some(entries[i]@)
}

/// Normalizes feed items that carry a publish timestamp, in order. Fails
/// exactly when the text of one of them cannot be rendered.
pub fn normalize(items: &[RawEntry]) -> (r: Result<Vec<Entry>, Error>)
    requires
        spec_all_dated(items@),
    ensures
        match r {
            Ok(entries) => spec_normalized(items@, entries@),
            Err(error) => error == Error::Entry(EntryError::Html) && exists|i: int|
                0 <= i < items@.len() && spec_entry(#[trigger] items@[i]).is_none(),
        },
{
    let mut out: Vec<Entry> = Vec::new();
    let mut i: usize = 0;
    while i < items.len()
        invariant
            i <= items@.len(),
            spec_all_dated(items@),
            out@.len() == i,
            forall|k: int| 0 <= k < i ==> spec_entry(#[trigger] items@[k]) == Some(out@[k]@),
        decreases items@.len() - i,
    {
        match Entry::from(&items[i]) {
            Ok(entry) => {
                out.push(entry);
            },
            Err(error) => {
                return Err(error);
            },
        }
        i = i + 1;
    }
    Ok(out)
}

/// A sink of one of the four kinds.
#[derive(Debug, PartialEq, Eq)]
pub enum Sink {
    Custom(Custom),
    DiscordWebhook(DiscordWebhook),
    DiscordBot(DiscordBot),
    Slack(Slack),
}

/// What one sink has to send for one batch of new entries.
#[derive(Debug, PartialEq, Eq)]
pub enum Delivery {
    /// Run the sink's command once per entry, in order.
    Custom { sink: Custom, entries: Vec<Entry> },
    /// Post each batch to the webhook, in order.
    DiscordWebhook { url: String, batches: Vec<Vec<Entry>> },
    /// Look the user up, then send each batch as a direct message, in order.
    DiscordBot { token: String, user_id: u64, batches: Vec<Vec<Entry>> },
    /// Post each batch to the webhook, in order.
    Slack { url: String, batches: Vec<Vec<Entry>> },
}

/// Whether `outputs` are the sinks that `configs` describe, one for each and
/// in order.
pub open spec fn spec_built_from(configs: Seq<OutputConfig>, outputs: Seq<Output>) -> bool {
    &&& outputs.len() == configs.len()
    &&& forall|i: int|
        0 <= i < configs.len() ==> spec_configures(configs[i], (#[trigger] outputs[i]).output)
}

/// A notification destination.
#[derive(Debug, PartialEq, Eq)]
pub struct Output {
    pub output: Sink,
}

/// The sink that a configuration describes.
pub open spec fn spec_configures(config: OutputConfig, sink: Sink) -> bool {
    match (config, sink) {
        (OutputConfig::Custom { command, arguments, use_stdin }, Sink::Custom(custom)) => {
            custom.command == command && custom.arguments@ == arguments@ && custom.use_stdin
                == use_stdin
        },
        (OutputConfig::DiscordWebhook { url }, Sink::DiscordWebhook(webhook)) => webhook.url == url,
        (OutputConfig::DiscordBot { token, user_id }, Sink::DiscordBot(bot)) => {
            bot.token == token && bot.user_id == user_id
        },
        (OutputConfig::Slack { url }, Sink::Slack(slack)) => slack.url == url,
        _ => false,
    }
}

/// Whether `delivery` is what `sink` sends for `entries`: a sink of each kind
/// plans a delivery of its own kind to its own destination, the command sink
/// with the entries one by one, the others with the entries in batches.
pub open spec fn spec_delivers(sink: Sink, entries: Seq<Entry>, delivery: Delivery) -> bool {
    match (sink, delivery) {
        (Sink::Custom(custom), Delivery::Custom { sink, entries: planned }) => {
            sink.command == custom.command && sink.arguments@ == custom.arguments@
                && sink.use_stdin == custom.use_stdin && planned@ == entries
        },
        (Sink::DiscordWebhook(webhook), Delivery::DiscordWebhook { url, batches }) => {
            url == webhook.url && is_batched(entries, batches@)
        },
        (Sink::DiscordBot(bot), Delivery::DiscordBot { token, user_id, batches }) => {
            token == bot.token && user_id == bot.user_id && is_batched(entries, batches@)
        },
        (Sink::Slack(slack), Delivery::Slack { url, batches }) => {
            url == slack.url && is_batched(entries, batches@)
        },
        _ => false,
    }
}

impl Output {
    /// Builds the sink that `output_config` describes.
    pub fn new(output_config: OutputConfig) -> (r: Self)
        ensures
            spec_configures(output_config, r.output),
    {
        let output = match output_config {
            OutputConfig::Custom { command, arguments, use_stdin } => Sink::Custom(
                Custom::new(command, arguments, use_stdin),
            ),
            OutputConfig::DiscordWebhook { url } => Sink::DiscordWebhook(DiscordWebhook::new(url)),
            OutputConfig::DiscordBot { token, user_id } => Sink::DiscordBot(
                DiscordBot::new(token, user_id),
            ),
            OutputConfig::Slack { url } => Sink::Slack(Slack::new(url)),
        };
        Self { output }
    }

    /// Plans the delivery of the new entries of the feed `name` to this sink.
    pub fn push(&self, name: &str, entries: &[Entry]) -> (r: Delivery)
        ensures
            spec_delivers(self.output, entries@, r),
    {
        match &self.output {
            Sink::Custom(custom) => custom.push(name, entries),
            Sink::DiscordWebhook(webhook) => webhook.push(name, entries),
            Sink::DiscordBot(bot) => bot.push(name, entries),
            Sink::Slack(slack) => slack.push(name, entries),
        }
    }
}

} // verus!
