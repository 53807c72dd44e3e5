use vstd::prelude::*;
use crate::outputs::{clone_strings, clone_entries, Delivery, Entry};

verus! {

/// A sink that runs a command once for every entry.
#[derive(Debug, PartialEq, Eq)]
pub struct Custom {
    pub command: String,
    pub arguments: Vec<String>,
    /// Whether the entry is written to the command's standard input rather
    /// than appended to its arguments.
    pub use_stdin: bool,
}

/// One run of a command: what to execute, with which arguments, and what to
/// write to its standard input, if anything.
#[derive(Debug, PartialEq, Eq)]
pub struct Invocation {
    pub command: String,
    pub arguments: Vec<String>,
    pub stdin: Option<String>,
}

impl Clone for Custom {
    fn clone(&self) -> (r: Self)
        ensures
            r.command == self.command,
            r.arguments@ == self.arguments@,
            r.use_stdin == self.use_stdin,
    {
        Custom {
            command: self.command.clone(),
            arguments: clone_strings(&self.arguments),
            use_stdin: self.use_stdin,
        }
    }
}

impl Custom {
    pub fn new(command: String, arguments: Vec<String>, use_stdin: bool) -> (r: Self)
        ensures
            r.command == command,
            r.arguments@ == arguments@,
            r.use_stdin == use_stdin,
    {
        Self { command, arguments, use_stdin }
    }

    /// The run that delivers one serialized entry: the payload goes to the
    /// standard input and the arguments stay as configured, or the payload
    /// becomes the last argument and nothing is written.
    pub fn invocation(&self, payload: String) -> (r: Invocation)
        ensures
            r.command == self.command,
            self.use_stdin ==> r.arguments@ == self.arguments@ && r.stdin == Some(payload),
            !self.use_stdin ==> r.arguments@ == self.arguments@.push(payload) && r.stdin.is_none(),
    {
        let mut arguments = clone_strings(&self.arguments);
        if self.use_stdin {
            Invocation { command: self.command.clone(), arguments, stdin: Some(payload) }
        } else {
            arguments.push(payload);
            Invocation { command: self.command.clone(), arguments, stdin: None }
        }
    }

    /// Plans the delivery of `entries`: one run per entry, in order.
    pub fn push(&self, name: &str, entries: &[Entry]) -> (r: Delivery)
        ensures
            r matches Delivery::Custom { sink, entries: planned } && sink.command == self.command
                && sink.arguments@ == self.arguments@ && sink.use_stdin == self.use_stdin
                && planned@ == entries@,
    {
        Delivery::Custom { sink: self.clone(), entries: clone_entries(entries) }
    }
}

} // verus!
