use vstd::prelude::*;
use vstd::string::*;
use crate::error::Error;
use crate::outputs::clone_strings;

verus! {

/// The feeds to watch and the sinks to notify, each list keyed by name.
///
/// `inputs` pairs a feed's name with its settings. `outputs` pairs a feed's
/// name or a tag with the sinks configured under it. A key is looked up from
/// the front, so the first pair with a given key is the one that counts.
#[derive(Debug, PartialEq, Eq)]
pub struct Config {
    pub inputs: Vec<(String, InputConfig)>,
    pub outputs: Vec<(String, Vec<OutputConfig>)>,
}

/// A span of time: whole seconds and the nanoseconds beyond them.
#[derive(Clone, Copy, Debug, PartialEq, Eq, Structural)]
pub struct Interval {
    pub secs: u64,
    pub nanos: u32,
}

/// Settings of one feed.
#[derive(Debug, PartialEq, Eq)]
pub struct InputConfig {
    pub url: String,
    /// Time between two polls; the default applies where it is unset.
    pub interval: Option<Interval>,
    pub retry_limit: usize,
    pub tags: Vec<String>,
}

/// Settings of one sink.
#[derive(Debug, PartialEq, Eq)]
pub enum OutputConfig {
    Custom { command: String, arguments: Vec<String>, use_stdin: bool },
    DiscordWebhook { url: String },
    DiscordBot { token: String, user_id: u64 },
    Slack { url: String },
}

impl Clone for InputConfig {
    fn clone(&self) -> (r: Self)
        ensures
            r.url == self.url,
            r.interval == self.interval,
            r.retry_limit == self.retry_limit,
            r.tags@ == self.tags@,
    {
        InputConfig {
            url: self.url.clone(),
            interval: self.interval,
            retry_limit: self.retry_limit,
            tags: clone_strings(&self.tags),
        }
    }
}

impl OutputConfig {
    /// Whether two settings describe the same sink.
    pub open spec fn spec_same(self, other: OutputConfig) -> bool {
        match (self, other) {
            (
                OutputConfig::Custom { command, arguments, use_stdin },
                OutputConfig::Custom { command: c, arguments: a, use_stdin: u },
            ) => command == c && arguments@ == a@ && use_stdin == u,
            (OutputConfig::DiscordWebhook { url }, OutputConfig::DiscordWebhook { url: u }) => url
                == u,
            (
                OutputConfig::DiscordBot { token, user_id },
                OutputConfig::DiscordBot { token: t, user_id: u },
            ) => token == t && user_id == u,
            (OutputConfig::Slack { url }, OutputConfig::Slack { url: u }) => url == u,
            _ => false,
        }
    }
}

impl Clone for OutputConfig {
    fn clone(&self) -> (r: Self)
        ensures
            self.spec_same(r),
    {
        match self {
            OutputConfig::Custom { command, arguments, use_stdin } => OutputConfig::Custom {
                command: command.clone(),
                arguments: clone_strings(arguments),
                use_stdin: *use_stdin,
            },
            OutputConfig::DiscordWebhook { url } => OutputConfig::DiscordWebhook { url: url.clone() },
            OutputConfig::DiscordBot { token, user_id } => OutputConfig::DiscordBot {
                token: token.clone(),
                user_id: *user_id,
            },
            OutputConfig::Slack { url } => OutputConfig::Slack { url: url.clone() },
        }
    }
}

/// Transient failures that a feed tolerates in a row unless configured.
pub fn default_retry_limit() -> (r: usize)
    ensures
        r == 10,
{
    10
}

/// The tags of a feed that names none: the single tag `default`.
pub fn default_tags() -> (r: Vec<String>)
    ensures
        r@.len() == 1,
        r@[0]@ == "default"@,
{
    let mut tags: Vec<String> = Vec::new();
    tags.push(String::from_str("default"));
    tags
}

/// Whether `name` occurs in `tags`.
pub open spec fn spec_has_tag(tags: Seq<String>, name: Seq<char>) -> bool {
    exists|j: int| 0 <= j < tags.len() && (#[trigger] tags[j])@ == name
}

/// Whether `name` is a tag of one of the first `n` feeds.
pub open spec fn spec_is_tag_among(inputs: Seq<(String, InputConfig)>, n: int, name: Seq<char>) -> bool {
    exists|i: int| 0 <= i < n && spec_has_tag((#[trigger] inputs[i]).1.tags@, name)
}

fn has_tag(tags: &Vec<String>, name: &String) -> (r: bool)
    ensures
        r == spec_has_tag(tags@, name@),
{
    let mut j: usize = 0;
    while j < tags.len()
        invariant
            j <= tags@.len(),
            forall|k: int| 0 <= k < j ==> (#[trigger] tags@[k])@ != name@,
        decreases tags@.len() - j,
    {
        if tags[j] == *name {
            return true;
        }
        j = j + 1;
    }
    false
}

impl Config {
    /// Whether no feed name is listed twice and no key of `outputs` is.
    /// A configuration read from a table has this form.
    pub open spec fn well_formed(&self) -> bool {
        &&& forall|i: int, j: int|
            0 <= i < j < self.inputs@.len() ==> (#[trigger] self.inputs@[i]).0@ != (
            #[trigger] self.inputs@[j]).0@
        &&& forall|i: int, j: int|
            0 <= i < j < self.outputs@.len() ==> (#[trigger] self.outputs@[i]).0@ != (
            #[trigger] self.outputs@[j]).0@
    }

    /// Whether `name` is a tag of some feed.
    pub open spec fn spec_is_tag(&self, name: Seq<char>) -> bool {
        spec_is_tag_among(self.inputs@, self.inputs@.len() as int, name)
    }

    /// Whether the feed at `i` is named like a tag of some feed.
    pub open spec fn spec_clashes(&self, i: int) -> bool {
        self.spec_is_tag(self.inputs@[i].0@)
    }

    /// Whether the feed at `i` is the first that is named like a tag.
    pub open spec fn spec_first_clash(&self, i: int) -> bool {
        &&& 0 <= i < self.inputs@.len()
        &&& self.spec_clashes(i)
        &&& forall|k: int| 0 <= k < i ==> !self.spec_clashes(k)
    }

    /// Whether `error` is the configuration error that reports `name`.
    pub open spec fn spec_reports(error: Error, name: Seq<char>) -> bool {
        match error {
            Error::Config(message) => message@ == "inputs: names and tags are not unique: "@ + name,
            _ => false,
        }
    }

    /// Whether `name` is a tag of some feed.
    pub fn is_tag(&self, name: &String) -> (r: bool)
        ensures
            r == self.spec_is_tag(name@),
    {
        let mut i: usize = 0;
        while i < self.inputs.len()
            invariant
                i <= self.inputs@.len(),
                !spec_is_tag_among(self.inputs@, i as int, name@),
            decreases self.inputs@.len() - i,
        {
            if has_tag(&self.inputs[i].1.tags, name) {
                return true;
            }
            i = i + 1;
        }
        false
    }

    /// Accepts the configuration exactly when no feed is named like a tag,
    /// so that a key of `outputs` is either a name or a tag, never both.
    /// Otherwise the error names the first such feed.
    pub fn is_valid(&self) -> (r: Result<(), Error>)
        ensures
            match r {
                Ok(_) => forall|i: int| 0 <= i < self.inputs@.len() ==> !self.spec_clashes(i),
                Err(error) => exists|i: int| #[trigger]
                    self.spec_first_clash(i) && Self::spec_reports(error, self.inputs@[i].0@),
            },
    {
        let mut i: usize = 0;
        while i < self.inputs.len()
            invariant
                i <= self.inputs@.len(),
                forall|k: int| 0 <= k < i ==> !self.spec_clashes(k),
            decreases self.inputs@.len() - i,
        {
            if self.is_tag(&self.inputs[i].0) {
                let message = String::from_str("inputs: names and tags are not unique: ").concat(
                    self.inputs[i].0.as_str(),
                );
                assert(self.spec_first_clash(i as int));
                return Err(Error::Config(message));
            }
            i = i + 1;
        }
        Ok(())
    }
}

} // verus!
