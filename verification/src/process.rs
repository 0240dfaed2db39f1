//! One run of the demo, and what to tell the user when it fails.

use crate::errors::{rendered, Error};
use vstd::prelude::*;
use vstd::string::StringExecFns;

verus! {

/// A piece of work that can be run and ends well or with an error.
pub struct Process<F: Fn() -> Result<(), Error>> {
    work: F,
}

impl<F: Fn() -> Result<(), Error>> Process<F> {
    /// The work that `execute` runs.
    pub closed spec fn work(&self) -> F {
        self.work
    }

    /// A process that will run `work`.
    pub fn new(work: F) -> (process: Self)
        ensures
            process.work() == work,
    {
        Process { work }
    }

    /// Runs the work and keeps how it ended.
    pub fn execute(&self) -> (ended: ProcessResult)
        requires
            call_requires(self.work(), ()),
        ensures
            call_ensures(self.work(), (), ended.0),
    {
        ProcessResult((self.work)())
    }
}

/// How a process ended.
pub struct ProcessResult(pub Result<(), Error>);

/// What the user is told of a failure with this message and detail: a
/// heading, an empty line, the error as it is shown, and the end of the line.
pub open spec fn failure_report(message: Seq<char>, detail: Option<Seq<char>>) -> Seq<char> {
    "Encountered an error:\n\n"@ + rendered(message, detail) + seq!['\n']
}

impl ProcessResult {
    /// How the process ended.
    pub fn result(&self) -> (ended: &Result<(), Error>)
        ensures
            *ended == self.0,
    {
        &self.0
    }

    /// The status that the program exits with: 1 after a failure. A process
    /// that ended well gives none: the program goes on.
    pub fn exit_status(&self) -> (status: Option<i32>)
        ensures
            status == if self.0 is Err {
                Some(1i32)
            } else {
                None
            },
    {
        match &self.0 {
            Ok(_) => None,
            Err(_) => Some(1),
        }
    }

    /// What to print before the program exits, if the process failed.
    pub fn report(&self) -> (text: Option<String>)
        ensures
            match self.0 {
                Ok(_) => text is None,
                Err(error) => text matches Some(text) && text@ == failure_report(
                    error.message(),
                    error.detail(),
                ),
            },
    {
        match &self.0 {
            Ok(_) => None,
            Err(error) => {
                let mut text = String::from_str("Encountered an error:\n\n");
                text.append(error.render().as_str());
                proof {
                    reveal_strlit("\n");
                }
                text.append("\n");
                Some(text)
            },
        }
    }
}

} // verus!
