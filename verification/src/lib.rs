//! A feed watcher: polls feeds on a schedule, finds the entries published since
//! the last successful check and plans their delivery to the configured sinks.

pub mod config;
pub mod error;
pub mod input;
pub mod outputs;

use vstd::prelude::*;
use crate::config::{Config, InputConfig, Interval, OutputConfig};
use crate::error::Error;
use crate::input::{Input, Phase, WatcherState, DEFAULT_INTERVAL};
use crate::outputs::{spec_built_from, spec_configures, Output};

verus! {

/// The sinks configured under `key`: those of the first pair with that key,
/// none where no pair has it.
pub open spec fn spec_lookup(outputs: Seq<(String, Vec<OutputConfig>)>, key: Seq<char>) -> Seq<
    OutputConfig,
>
    decreases outputs.len(),
{
    if outputs.len() == 0 {
        Seq::empty()
    } else if outputs[0].0@ == key {
        outputs[0].1@
    } else {
        spec_lookup(outputs.drop_first(), key)
    }
}

/// The sinks configured under each of `tags`, in the order of the tags.
pub open spec fn spec_tagged(outputs: Seq<(String, Vec<OutputConfig>)>, tags: Seq<String>) -> Seq<
    OutputConfig,
>
    decreases tags.len(),
{
    if tags.len() == 0 {
        Seq::empty()
    } else {
        spec_tagged(outputs, tags.drop_last()) + spec_lookup(outputs, tags.last()@)
    }
}

/// The sinks of a feed: those configured under its name, then those under
/// each of its tags in the order of the tags. A sink that is reached twice
/// is listed twice.
pub open spec fn spec_resolved(
    outputs: Seq<(String, Vec<OutputConfig>)>,
    name: Seq<char>,
    tags: Seq<String>,
) -> Seq<OutputConfig> {
    spec_lookup(outputs, name) + spec_tagged(outputs, tags)
}

/// One more tag adds the sinks configured under it behind all the others.
pub proof fn law_next_tag_appends_its_sinks(
    outputs: Seq<(String, Vec<OutputConfig>)>,
    name: Seq<char>,
    tags: Seq<String>,
    tag: String,
)
    ensures
        spec_resolved(outputs, name, tags.push(tag)) == spec_resolved(outputs, name, tags)
            + spec_lookup(outputs, tag@),
{
    assert(tags.push(tag).drop_last() == tags);
}

/// Where no key is listed twice, the sinks configured under a key are those
/// of the one pair that has it.
pub proof fn law_lookup_finds_the_pair(config: Config, i: int)
    requires
        config.well_formed(),
        0 <= i < config.outputs@.len(),
    ensures
        spec_lookup(config.outputs@, config.outputs@[i].0@) == config.outputs@[i].1@,
{
    lemma_lookup_skips(config.outputs@, config.outputs@[i].0@, i);
}

/// A key that none of the first `n` pairs has is looked up in the rest.
proof fn lemma_lookup_skips(outputs: Seq<(String, Vec<OutputConfig>)>, key: Seq<char>, n: int)
    requires
        0 <= n <= outputs.len(),
        forall|k: int| 0 <= k < n ==> (#[trigger] outputs[k]).0@ != key,
    ensures
        spec_lookup(outputs, key) == spec_lookup(outputs.subrange(n, outputs.len() as int), key),
    decreases n,
{
    if n == 0 {
        assert(outputs.subrange(0, outputs.len() as int) == outputs);
    } else {
        let rest = outputs.drop_first();
        lemma_lookup_skips(rest, key, n - 1);
        assert(rest.subrange(n - 1, rest.len() as int) == outputs.subrange(
            n,
            outputs.len() as int,
        ));
    }
}

/// A key that no pair has leads to no sink.
pub proof fn law_unknown_key_has_no_sinks(config: Config, key: Seq<char>)
    requires
        forall|k: int| 0 <= k < config.outputs@.len() ==> (#[trigger] config.outputs@[k]).0@ != key,
    ensures
        spec_lookup(config.outputs@, key) == Seq::<OutputConfig>::empty(),
{
    lemma_lookup_skips(config.outputs@, key, config.outputs@.len() as int);
}

/// Index of the first pair with the key, if any.
fn lookup(outputs: &Vec<(String, Vec<OutputConfig>)>, key: &String) -> (r: Option<usize>)
    ensures
        match r {
            Some(i) => i < outputs@.len() && outputs@[i as int].1@ == spec_lookup(outputs@, key@),
            None => spec_lookup(outputs@, key@) == Seq::<OutputConfig>::empty(),
        },
{
    let mut i: usize = 0;
    assert(outputs@.subrange(0, outputs@.len() as int) == outputs@);
    while i < outputs.len()
        invariant
            i <= outputs@.len(),
            spec_lookup(outputs@, key@) == spec_lookup(
                outputs@.subrange(i as int, outputs@.len() as int),
                key@,
            ),
        decreases outputs@.len() - i,
    {
        let ghost rest = outputs@.subrange(i as int, outputs@.len() as int);
        if outputs[i].0 == *key {
            return Some(i);
        }
        assert(rest.drop_first() == outputs@.subrange(i + 1, outputs@.len() as int));
        i = i + 1;
    }
    None
}

/// Builds the sinks that `configs` describe and appends them to `sinks`.
fn build_outputs(sinks: &mut Vec<Output>, configs: &Vec<OutputConfig>, Ghost(before): Ghost<
    Seq<OutputConfig>,
>)
    requires
        spec_built_from(before, old(sinks)@),
    ensures
        spec_built_from(before + configs@, final(sinks)@),
{
    let mut i: usize = 0;
    while i < configs.len()
        invariant
            i <= configs@.len(),
            spec_built_from(before + configs@.take(i as int), sinks@),
        decreases configs@.len() - i,
    {
        let config = configs[i].clone();
        let output = Output::new(config);
        sinks.push(output);
        i = i + 1;
    }
}

/// Resolves the sinks of the feed `name` with the given tags.
pub fn resolve(config: &Config, name: &String, tags: &Vec<String>) -> (r: Vec<Output>)
    ensures
        spec_built_from(spec_resolved(config.outputs@, name@, tags@), r@),
{
    let mut sinks: Vec<Output> = Vec::new();
    let ghost mut configs: Seq<OutputConfig> = Seq::empty();
    match lookup(&config.outputs, name) {
        Some(at) => {
            build_outputs(&mut sinks, &config.outputs[at].1, Ghost(configs));
            proof {
                configs = configs + config.outputs@[at as int].1@;
            }
        },
        None => {},
    }
    let mut j: usize = 0;
    while j < tags.len()
        invariant
            j <= tags@.len(),
            spec_built_from(configs, sinks@),
            configs == spec_lookup(config.outputs@, name@) + spec_tagged(
                config.outputs@,
                tags@.take(j as int),
            ),
        decreases tags@.len() - j,
    {
        assert(tags@.take(j + 1).drop_last() == tags@.take(j as int));
        match lookup(&config.outputs, &tags[j]) {
            Some(at) => {
                build_outputs(&mut sinks, &config.outputs[at].1, Ghost(configs));
                proof {
                    configs = configs + config.outputs@[at as int].1@;
                }
            },
            None => {},
        }
        j = j + 1;
    }
    assert(tags@.take(j as int) == tags@);
    sinks
}

/// Whether `watcher` is the fresh watcher of the feed at `i`: named like
/// the feed, with its address, interval and retry budget, its resolved
/// sinks, idle and without a last-seen timestamp.
pub open spec fn spec_watches(config: Config, i: int, watcher: Input) -> bool {
    let (name, input) = config.inputs@[i];
    &&& watcher.spec_name()@ == name@
    &&& watcher.spec_url()@ == input.url@
    &&& watcher.spec_interval() == match input.interval {
        Some(interval) => interval,
        None => (Interval { secs: DEFAULT_INTERVAL, nanos: 0 }),
    }
    &&& spec_built_from(spec_resolved(config.outputs@, name@, input.tags@), watcher.spec_outputs())
    &&& watcher@ == (WatcherState {
        phase: Phase::Idle,
        retry_limit: input.retry_limit,
        retries_left: input.retry_limit,
        last_date: None,
        pending: None,
        notify_first_poll: false,
    })
}

/// Builds one watcher per configured feed, in the order of the feeds, each
/// with the sinks resolved for it.
pub fn watch_inputs(config: Config) -> (r: Vec<Input>)
    ensures
        r@.len() == config.inputs@.len(),
        forall|i: int| 0 <= i < r@.len() ==> spec_watches(config, i, #[trigger] r@[i]),
{
    let mut watchers: Vec<Input> = Vec::new();
    let mut i: usize = 0;
    while i < config.inputs.len()
        invariant
            i <= config.inputs@.len(),
            watchers@.len() == i,
            forall|k: int| 0 <= k < i ==> spec_watches(config, k, #[trigger] watchers@[k]),
        decreases config.inputs@.len() - i,
    {
        let name = config.inputs[i].0.clone();
        let input_config: InputConfig = config.inputs[i].1.clone();
        let outputs = resolve(&config, &name, &input_config.tags);
        let watcher = Input::new(name, input_config, outputs);
        watchers.push(watcher);
        i = i + 1;
    }
    watchers
}

/// Whether the outcome at `i` is the first that is an error.
pub open spec fn spec_first_failed(outcomes: Seq<Result<(), Error>>, i: int) -> bool {
    &&& 0 <= i < outcomes.len()
    &&& outcomes[i] is Err
    &&& forall|k: int| 0 <= k < i ==> (#[trigger] outcomes[k]) is Ok
}

/// What the whole run comes to once every watcher has ended: success where
/// each of them ended cleanly, else the error of the first that did not, in
/// the order of the watchers.
pub fn first_error(outcomes: Vec<Result<(), Error>>) -> (r: Result<(), Error>)
    ensures
        match r {
            Ok(_) => forall|i: int| 0 <= i < outcomes@.len() ==> (#[trigger] outcomes@[i]) is Ok,
            Err(error) => exists|i: int| #[trigger]
                spec_first_failed(outcomes@, i) && outcomes@[i] == Err::<(), Error>(error),
        },
{
    let mut rest = outcomes;
    let mut found: Result<(), Error> = Ok(());
    let ghost mut at: int = outcomes@.len() as int;
    while rest.len() > 0
        invariant
            rest@ == outcomes@.take(rest@.len() as int),
            rest@.len() <= outcomes@.len(),
            found is Ok ==> forall|k: int|
                rest@.len() <= k < outcomes@.len() ==> (#[trigger] outcomes@[k]) is Ok,
            found is Err ==> rest@.len() <= at < outcomes@.len() && outcomes@[at] == found && (
            forall|k: int| rest@.len() <= k < at ==> (#[trigger] outcomes@[k]) is Ok),
        decreases rest@.len(),
    {
        let last = rest.pop();
        match last {
            Some(Err(error)) => {
                found = Err(error);
                proof {
                    at = rest@.len() as int;
                }
            },
            _ => {},
        }
    }
    proof {
        if found is Err {
            assert(spec_first_failed(outcomes@, at));
        }
    }
    found
}

} // verus!
