//! The two tables of a manager as mathematical maps, and what each operation
//! makes of them.

use super::key::combine;
use super::LoadError;
use crate::resource::Identifier;
use vstd::prelude::*;

verus! {

/// What a manager holds: the source stored under each name, and the compiled
/// object kept under each compound key.
pub struct Tables<C> {
    pub sources: Map<Seq<u8>, String>,
    pub compiled: Map<u64, C>,
}

/// What a load finds before any build is run.
pub enum Lookup {
    /// The pair's compound key is in the compiled table.
    Hit,
    /// The key is absent, and so is the first identifier's source.
    MissingFirst,
    /// The key is absent and the first source is stored, but not the second.
    MissingSecond,
    /// The key is absent and both sources are stored: the build has to run.
    Build,
}

/// The answer of a load, with the object itself in place of the reference to
/// it.
pub open spec fn owned<K, C, E>(loaded: Result<&C, LoadError<K, E>>) -> Result<
    C,
    LoadError<K, E>,
> {
    match loaded {
        Ok(object) => Ok(*object),
        Err(error) => Err(error),
    }
}

/// The answer of a load that hands out nothing: where it ends well it stands
/// for `object`.
pub open spec fn standing_for<K, C, E>(done: Result<(), LoadError<K, E>>, object: C) -> Result<
    C,
    LoadError<K, E>,
> {
    match done {
        Ok(_) => Ok(object),
        Err(error) => Err(error),
    }
}

impl<C> Tables<C> {
    /// No source and no compiled object.
    pub open spec fn empty() -> Self {
        Tables { sources: Map::empty(), compiled: Map::empty() }
    }

    /// Whether a compiled object is kept for the ordered pair `(first, second)`.
    pub open spec fn is_compiled(self, first: Seq<u8>, second: Seq<u8>) -> bool {
        self.compiled.contains_key(combine(first, second))
    }

    /// The compiled object kept for the ordered pair `(first, second)`.
    pub open spec fn object(self, first: Seq<u8>, second: Seq<u8>) -> C
        recommends
            self.is_compiled(first, second),
    {
        self.compiled[combine(first, second)]
    }

    /// The two sources that a build for `(first, second)` is run on, in this
    /// order.
    pub open spec fn pair(&self, first: Seq<u8>, second: Seq<u8>) -> (&String, &String)
        recommends
            self.sources.contains_key(first),
            self.sources.contains_key(second),
    {
        (&self.sources[first], &self.sources[second])
    }

    /// What a load of `(first, second)` finds: the compiled table is asked
    /// first, then the first source, then the second.
    pub open spec fn lookup(self, first: Seq<u8>, second: Seq<u8>) -> Lookup {
        if self.is_compiled(first, second) {
            Lookup::Hit
        } else if !self.sources.contains_key(first) {
            Lookup::MissingFirst
        } else if !self.sources.contains_key(second) {
            Lookup::MissingSecond
        } else {
            Lookup::Build
        }
    }

    /// Whether a load of `(first, second)` from these tables may leave the
    /// tables `after` and give `answer`, where `built` tells the outcomes
    /// that the build may have on the pair's two sources.
    ///
    /// On a hit the kept object is the answer. On a miss the first absent
    /// source is reported, the first identifier's before the second's. In
    /// both cases the tables stay and the build is not asked. Otherwise the
    /// answer is an outcome of the build: its object, then kept under the
    /// pair's key, or its error, which leaves the tables as they were.
    pub open spec fn load_gives<K: Identifier, E>(
        self,
        after: Self,
        first: K,
        second: K,
        answer: Result<C, LoadError<K, E>>,
        built: spec_fn(Result<C, E>) -> bool,
    ) -> bool {
        let (a, b) = (first.name(), second.name());
        match self.lookup(a, b) {
            Lookup::Hit => after == self && answer == Ok::<C, LoadError<K, E>>(self.object(a, b)),
            Lookup::MissingFirst => after == self && answer == Err::<C, LoadError<K, E>>(
                LoadError::MissingSource(first),
            ),
            Lookup::MissingSecond => after == self && answer == Err::<C, LoadError<K, E>>(
                LoadError::MissingSource(second),
            ),
            Lookup::Build => match answer {
                Ok(object) => built(Ok(object)) && after == self.loaded(
                    a,
                    b,
                    Ok::<C, E>(object),
                ),
                Err(LoadError::Build(error)) => built(Err(error)) && after == self.loaded(
                    a,
                    b,
                    Err::<C, E>(error),
                ),
                Err(LoadError::MissingSource(_)) => false,
            },
        }
    }

    /// The tables after `text` was stored under `name`: only that source
    /// changes.
    pub open spec fn stored(self, name: Seq<u8>, text: String) -> Self {
        Tables { sources: self.sources.insert(name, text), compiled: self.compiled }
    }

    /// The source that a store under `name` replaces, if there is one.
    pub open spec fn replaced(self, name: Seq<u8>) -> Option<String> {
        if self.sources.contains_key(name) {
            Some(self.sources[name])
        } else {
            None
        }
    }

    /// The tables after a build for `(first, second)` ended as `outcome`: a
    /// success is kept under the pair's key unless that key is taken, a
    /// failure leaves no trace.
    pub open spec fn recorded<E>(self, first: Seq<u8>, second: Seq<u8>, outcome: Result<C, E>) -> Self {
        match outcome {
            Ok(object) if !self.is_compiled(first, second) => Tables {
                sources: self.sources,
                compiled: self.compiled.insert(combine(first, second), object),
            },
            _ => self,
        }
    }

    /// The tables after a load of `(first, second)` whose build, if it ran,
    /// ended as `outcome`.
    pub open spec fn loaded<E>(self, first: Seq<u8>, second: Seq<u8>, outcome: Result<C, E>) -> Self {
        if self.lookup(first, second) is Build {
            self.recorded(first, second, outcome)
        } else {
            self
        }
    }
}

} // verus!
