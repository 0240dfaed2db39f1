//! A build that counts its own runs.

use vstd::prelude::*;

verus! {

/// A build together with the number of times it was run. The number moves
/// only in `run`, by one for each call of the build.
pub struct Counted<F> {
    build: F,
    runs: u64,
}

impl<F> Counted<F> {
    /// The build that is counted.
    pub closed spec fn build(&self) -> F {
        self.build
    }

    /// How often the build was run.
    pub closed spec fn count(&self) -> u64 {
        self.runs
    }

    /// A build that was not run yet.
    pub fn new(build: F) -> (counted: Self)
        ensures
            counted.build() == build,
            counted.count() == 0,
    {
        Counted { build, runs: 0 }
    }

    /// How often the build was run.
    pub fn runs(&self) -> (runs: u64)
        ensures
            runs == self.count(),
    {
        self.runs
    }

    /// Runs the build once, on these two sources in this order, and counts
    /// the run.
    pub fn run<C, E>(&mut self, first: &String, second: &String) -> (outcome: Result<C, E>) where
        F: Fn(&String, &String) -> Result<C, E>,

        requires
            call_requires(old(self).build(), (first, second)),
            old(self).count() < u64::MAX,
        ensures
            call_ensures(old(self).build(), (first, second), outcome),
            final(self).build() == old(self).build(),
            final(self).count() == old(self).count() + 1,
    {
        self.runs = self.runs + 1;
        (self.build)(first, second)
    }
}

} // verus!
