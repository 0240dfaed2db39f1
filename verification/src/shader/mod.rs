//! A cache of compiled objects, each built at most once from a pair of stored
//! sources.

pub mod count;
pub mod key;
pub mod laws;
pub mod state;

use crate::errors::Error;
use crate::resource::{same_name, Identifier, Resource};
use count::Counted;
use key::pair_key;
use state::{owned, standing_for, Tables};
use std::collections::HashMap;
use vstd::prelude::*;

verus! {

/// Why a load gave no compiled object.
#[derive(Debug, PartialEq, Eq)]
pub enum LoadError<K, E> {
    /// No source is stored under this identifier.
    MissingSource(K),
    /// The build was run and failed.
    Build(E),
}

impl<K, E> LoadError<K, E> {
    /// In a few words, what kind of error this is.
    pub fn description(&self) -> (text: &'static str)
        ensures
            text@ == match self {
                LoadError::MissingSource(_) => "missing shader"@,
                LoadError::Build(_) => "program creation error"@,
            },
    {
        match self {
            LoadError::MissingSource(_) => "missing shader",
            LoadError::Build(_) => "program creation error",
        }
    }
}

/// One stored source, with the identifier it was stored under. The sources
/// are kept in a list and found by comparing names: of a key of any type
/// nothing is known about how it hashes.
#[derive(Debug)]
struct Stored<K> {
    id: K,
    text: String,
}

/// Whether the source at index `at` goes by `name`.
spec fn named<K: Identifier>(sources: Seq<Stored<K>>, at: int, name: Seq<u8>) -> bool {
    0 <= at < sources.len() && sources[at].id.name() == name
}

/// No two stored sources go by the same name.
spec fn distinct<K: Identifier>(sources: Seq<Stored<K>>) -> bool {
    forall|i: int, j: int|
        0 <= i < j < sources.len() ==> sources[i].id.name() != sources[j].id.name()
}

/// The stored sources as a map from name to text.
spec fn table<K: Identifier>(sources: Seq<Stored<K>>) -> Map<Seq<u8>, String> {
    Map::new(
        |name: Seq<u8>| exists|at: int| named(sources, at, name),
        |name: Seq<u8>| sources[choose|at: int| named(sources, at, name)].text,
    )
}

/// The table holds, under the name of each stored source, that source's text.
proof fn lemma_table_at<K: Identifier>(sources: Seq<Stored<K>>, at: int)
    requires
        distinct(sources),
        0 <= at < sources.len(),
    ensures
        table(sources).contains_key(sources[at].id.name()),
        table(sources)[sources[at].id.name()] == sources[at].text,
{
    let name = sources[at].id.name();
    assert(named(sources, at, name));
    let chosen = choose|i: int| named(sources, i, name);
    assert(named(sources, chosen, name));
    assert(chosen == at);
}

/// Adding a source under a new name adds one entry to the table.
proof fn lemma_table_push<K: Identifier>(sources: Seq<Stored<K>>, entry: Stored<K>)
    requires
        distinct(sources),
        !table(sources).contains_key(entry.id.name()),
    ensures
        distinct(sources.push(entry)),
        table(sources.push(entry)) == table(sources).insert(entry.id.name(), entry.text),
{
    let longer = sources.push(entry);
    assert forall|i: int, j: int| 0 <= i < j < longer.len() implies longer[i].id.name()
        != longer[j].id.name() by {
        if j == sources.len() {
            assert(named(sources, i, sources[i].id.name()));
        }
    }
    assert forall|name: Seq<u8>|
        table(longer).contains_key(name) <==> #[trigger] table(sources).insert(
            entry.id.name(),
            entry.text,
        ).contains_key(name) by {
        if table(longer).contains_key(name) {
            let at = choose|at: int| named(longer, at, name);
            if at < sources.len() {
                assert(named(sources, at, name));
            }
        }
        if table(sources).contains_key(name) {
            let at = choose|at: int| named(sources, at, name);
            assert(named(longer, at, name));
        }
        if name == entry.id.name() {
            assert(named(longer, sources.len() as int, name));
        }
    }
    assert forall|name: Seq<u8>| table(longer).contains_key(name) implies table(longer)[name]
        == #[trigger] table(sources).insert(entry.id.name(), entry.text)[name] by {
        let at = choose|at: int| named(longer, at, name);
        lemma_table_at(longer, at);
        if at < sources.len() {
            lemma_table_at(sources, at);
        }
    }
    assert(table(longer) =~= table(sources).insert(entry.id.name(), entry.text));
}

/// Changing the text of one stored source changes that entry of the table.
proof fn lemma_table_update<K: Identifier>(
    sources: Seq<Stored<K>>,
    changed: Seq<Stored<K>>,
    at: int,
)
    requires
        distinct(sources),
        0 <= at < sources.len(),
        changed.len() == sources.len(),
        changed[at].id == sources[at].id,
        forall|i: int| 0 <= i < sources.len() && i != at ==> changed[i] == sources[i],
    ensures
        distinct(changed),
        table(changed) == table(sources).insert(sources[at].id.name(), changed[at].text),
{
    let name = sources[at].id.name();
    let text = changed[at].text;
    assert forall|i: int| 0 <= i < sources.len() implies #[trigger] changed[i].id.name()
        == sources[i].id.name() by {}
    assert forall|other: Seq<u8>|
        table(changed).contains_key(other) <==> #[trigger] table(sources).insert(
            name,
            text,
        ).contains_key(other) by {
        if table(changed).contains_key(other) {
            let i = choose|i: int| named(changed, i, other);
            assert(named(sources, i, other));
        }
        if table(sources).contains_key(other) {
            let i = choose|i: int| named(sources, i, other);
            assert(named(changed, i, other));
        }
        if other == name {
            assert(named(changed, at, other));
        }
    }
    assert forall|other: Seq<u8>| table(changed).contains_key(other) implies table(changed)[other]
        == #[trigger] table(sources).insert(name, text)[other] by {
        let i = choose|i: int| named(changed, i, other);
        lemma_table_at(changed, i);
        lemma_table_at(sources, i);
    }
    assert(table(changed) =~= table(sources).insert(name, text));
}

/// Where the source named `name` is stored.
fn find<K: Identifier>(sources: &Vec<Stored<K>>, name: &[u8]) -> (found: Option<usize>)
    requires
        distinct(sources@),
    ensures
        match found {
            Some(at) => named(sources@, at as int, name@) && table(sources@).contains_key(name@)
                && table(sources@)[name@] == sources@[at as int].text,
            None => !table(sources@).contains_key(name@),
        },
{
    let mut at: usize = 0;
    while at < sources.len()
        invariant
            distinct(sources@),
            at <= sources.len(),
            forall|i: int| 0 <= i < at ==> !named(sources@, i, name@),
        decreases sources.len() - at,
    {
        if same_name(sources[at].id.name_bytes(), name) {
            proof {
                lemma_table_at(sources@, at as int);
            }
            return Some(at);
        }
        at += 1;
    }
    None
}

/// What a load has to do, with the places of the two sources where it has to
/// build.
enum Plan {
    Hit(u64),
    MissingFirst,
    MissingSecond,
    Build(usize, usize),
}

/// Owns raw sources by identifier and compiled objects by the compound key of
/// an ordered pair of identifiers. A compiled object, once kept, is never
/// replaced or removed.
#[derive(Debug)]
pub struct Manager<K: Identifier, C: Resource> {
    sources: Vec<Stored<K>>,
    programs: HashMap<u64, C>,
}

impl<K: Identifier, C: Resource> View for Manager<K, C> {
    type V = Tables<C>;

    closed spec fn view(&self) -> Tables<C> {
        Tables { sources: table(self.sources@), compiled: self.programs@ }
    }
}

impl<K: Identifier, C: Resource> Manager<K, C> {
    #[verifier::type_invariant]
    spec fn well_formed(self) -> bool {
        distinct(self.sources@)
    }

    /// A manager with no source and no compiled object.
    pub fn new() -> (manager: Self)
        ensures
            manager@ == Tables::<C>::empty(),
    {
        let manager = Manager { sources: Vec::new(), programs: HashMap::new() };
        assert(manager@.sources =~= Map::empty());
        manager
    }

    /// Stores `source` under `id`, in place of what was stored under it
    /// before, which is handed back. The compiled table is not touched.
    pub fn store(&mut self, id: K, source: String) -> (previous: Option<String>)
        ensures
            final(self)@ == old(self)@.stored(id.name(), source),
            previous == old(self)@.replaced(id.name()),
    {
        proof {
            use_type_invariant(&*self);
        }
        let mut sources = Vec::new();
        std::mem::swap(&mut sources, &mut self.sources);
        let ghost before = sources@;
        let previous = match find(&sources, id.name_bytes()) {
            Some(at) => {
                let mut text = source;
                std::mem::swap(&mut sources[at].text, &mut text);
                proof {
                    lemma_table_update(before, sources@, at as int);
                }
                Some(text)
            },
            None => {
                sources.push(Stored { id, text: source });
                proof {
                    lemma_table_push(before, Stored { id, text: source });
                }
                None
            },
        };
        self.sources = sources;
        previous
    }

    /// The compiled object kept for the ordered pair `(first, second)`, if one
    /// is kept. Nothing is built.
    pub fn get(&self, first: &K, second: &K) -> (kept: Option<&C>)
        ensures
            kept == if self@.is_compiled(first.name(), second.name()) {
                Some(&self@.object(first.name(), second.name()))
            } else {
                None
            },
    {
        let key = pair_key(first.name_bytes(), second.name_bytes());
        self.programs.get(&key)
    }

    /// Takes in the outcome of a build for the ordered pair `(first, second)`.
    /// A failure is handed back and leaves nothing behind. A success is kept
    /// under the pair's key and handed back by reference; where that key is
    /// already taken, the object kept there stays and is the one handed back.
    pub fn record<E>(&mut self, first: &K, second: &K, outcome: Result<C, E>) -> (kept: Result<
        &C,
        E,
    >)
        ensures
            final(self)@ == old(self)@.recorded(first.name(), second.name(), outcome),
            kept == match outcome {
                Ok(_) => Ok(&final(self)@.object(first.name(), second.name())),
                Err(error) => Err(error),
            },
    {
        proof {
            use_type_invariant(&*self);
        }
        let key = pair_key(first.name_bytes(), second.name_bytes());
        match outcome {
            Ok(object) => {
                if !self.programs.contains_key(&key) {
                    let mut programs = HashMap::new();
                    std::mem::swap(&mut programs, &mut self.programs);
                    programs.insert(key, object);
                    self.programs = programs;
                }
                Ok(self.programs.get(&key).unwrap())
            },
            Err(error) => Err(error),
        }
    }

    /// Finds out what a load of `(first, second)` has to do.
    fn plan(&self, first: &K, second: &K) -> (plan: Plan)
        ensures
            self.planned(plan, first.name(), second.name()),
    {
        proof {
            use_type_invariant(self);
        }
        let key = pair_key(first.name_bytes(), second.name_bytes());
        if self.programs.contains_key(&key) {
            return Plan::Hit(key);
        }
        let first_at = match find(&self.sources, first.name_bytes()) {
            Some(at) => at,
            None => {
                return Plan::MissingFirst;
            },
        };
        match find(&self.sources, second.name_bytes()) {
            Some(second_at) => Plan::Build(first_at, second_at),
            None => Plan::MissingSecond,
        }
    }

    /// Whether `plan` is what a load of `(first, second)` has to do.
    spec fn planned(&self, plan: Plan, first: Seq<u8>, second: Seq<u8>) -> bool {
        match plan {
            Plan::Hit(key) => self@.lookup(first, second) is Hit && key == key::combine(
                first,
                second,
            ),
            Plan::MissingFirst => self@.lookup(first, second) is MissingFirst,
            Plan::MissingSecond => self@.lookup(first, second) is MissingSecond,
            Plan::Build(first_at, second_at) => {
                &&& self@.lookup(first, second) is Build
                &&& first_at < self.sources.len()
                &&& second_at < self.sources.len()
                &&& self.sources[first_at as int].text == self@.sources[first]
                &&& self.sources[second_at as int].text == self@.sources[second]
            },
        }
    }

    /// Carries a plan out, with the outcome of the build where the plan
    /// was to build.
    fn settle<E>(&mut self, plan: Plan, first: K, second: K, outcome: Option<Result<C, E>>) -> (loaded:
        Result<&C, LoadError<K, E>>)
        requires
            old(self).planned(plan, first.name(), second.name()),
            plan is Build <==> outcome is Some,
        ensures
            old(self)@.load_gives(
                final(self)@,
                first,
                second,
                owned(loaded),
                |built: Result<C, E>| outcome == Some(built),
            ),
    {
        match plan {
            Plan::Hit(key) => Ok(self.programs.get(&key).unwrap()),
            Plan::MissingFirst => Err(LoadError::MissingSource(first)),
            Plan::MissingSecond => Err(LoadError::MissingSource(second)),
            Plan::Build(_, _) => match self.record(&first, &second, outcome.unwrap()) {
                Ok(object) => Ok(object),
                Err(error) => Err(LoadError::Build(error)),
            },
        }
    }

    /// Hands out the compiled object for the ordered pair `(first, second)`,
    /// building it first if none is kept.
    ///
    /// The compiled table is asked first: on a hit the sources are not read
    /// and `build` is not run. On a miss the source of `first` is looked up,
    /// then that of `second`; the first one that is absent is reported and
    /// `build` is not run. Only with both at hand `build` is run on them, in
    /// this order; its success is kept and handed out, its failure is handed
    /// on and not remembered.
    pub fn load<E, F>(&mut self, first: K, second: K, build: F) -> (loaded: Result<
        &C,
        LoadError<K, E>,
    >) where F: FnOnce(&String, &String) -> Result<C, E>
        requires
            old(self)@.lookup(first.name(), second.name()) is Build ==> call_requires(
                build,
                old(self)@.pair(first.name(), second.name()),
            ),
        ensures
            old(self)@.load_gives(
                final(self)@,
                first,
                second,
                owned(loaded),
                |built: Result<C, E>|
                    call_ensures(build, old(self)@.pair(first.name(), second.name()), built),
            ),
    {
        let plan = self.plan(&first, &second);
        let outcome = match plan {
            Plan::Build(first_at, second_at) => Some(
                build(&self.sources[first_at].text, &self.sources[second_at].text),
            ),
            _ => None,
        };
        self.settle(plan, first, second, outcome)
    }

    /// Does what `load` does, with a build that counts its runs: the count
    /// goes up by one where the build has to run, and stays otherwise.
    pub fn load_counted<E, F>(
        &mut self,
        first: K,
        second: K,
        build: &mut Counted<F>,
    ) -> (loaded: Result<&C, LoadError<K, E>>) where F: Fn(&String, &String) -> Result<C, E>
        requires
            old(self)@.lookup(first.name(), second.name()) is Build ==> call_requires(
                old(build).build(),
                old(self)@.pair(first.name(), second.name()),
            ) && old(build).count() < u64::MAX,
        ensures
            final(build).build() == old(build).build(),
            final(build).count() == old(build).count() + if old(self)@.lookup(
                first.name(),
                second.name(),
            ) is Build {
                1int
            } else {
                0int
            },
            old(self)@.load_gives(
                final(self)@,
                first,
                second,
                owned(loaded),
                |built: Result<C, E>|
                    call_ensures(
                        old(build).build(),
                        old(self)@.pair(first.name(), second.name()),
                        built,
                    ),
            ),
    {
        let plan = self.plan(&first, &second);
        let outcome = match plan {
            Plan::Build(first_at, second_at) => Some(
                build.run(&self.sources[first_at].text, &self.sources[second_at].text),
            ),
            _ => None,
        };
        self.settle(plan, first, second, outcome)
    }

    /// The compiled object kept for the ordered pair `(first, second)`, or the
    /// error that says that none is kept. Nothing is built.
    pub fn fetch(&self, first: &K, second: &K) -> (kept: Result<&C, Error>)
        ensures
            match kept {
                Ok(object) => self@.is_compiled(first.name(), second.name()) && *object
                    == self@.object(first.name(), second.name()),
                Err(error) => !self@.is_compiled(first.name(), second.name())
                    && error.message() == "requested program does not exist"@
                    && error.detail() is None,
            },
    {
        match self.get(first, second) {
            Some(object) => Ok(object),
            None => Err(Error::new("requested program does not exist")),
        }
    }

    /// Sees to it that a compiled object is kept for the ordered pair
    /// `(first, second)`, as `load` does, without handing it out: for a
    /// caller that wants several objects at once and asks `get` for them
    /// afterwards.
    pub fn compile<E, F>(&mut self, first: K, second: K, build: F) -> (done: Result<
        (),
        LoadError<K, E>,
    >) where F: FnOnce(&String, &String) -> Result<C, E>
        requires
            old(self)@.lookup(first.name(), second.name()) is Build ==> call_requires(
                build,
                old(self)@.pair(first.name(), second.name()),
            ),
        ensures
            old(self)@.load_gives(
                final(self)@,
                first,
                second,
                standing_for(done, final(self)@.object(first.name(), second.name())),
                |built: Result<C, E>|
                    call_ensures(build, old(self)@.pair(first.name(), second.name()), built),
            ),
    {
        match self.load(first, second, build) {
            Ok(_) => Ok(()),
            Err(error) => Err(error),
        }
    }
}

/// The error for a program that cannot be compiled for want of a source:
/// it says whether the source of the vertex shader is missing, which is the
/// first of the two that `compile` looks up, or that of the fragment shader.
pub fn missing_shader<K: Identifier>(missing: &K, vertex: &K) -> (error: Error)
    ensures
        error.message() == if missing.name() == vertex.name() {
            "missing vertex shader"@
        } else {
            "missing fragment shader"@
        },
        error.detail() is None,
{
    if same_name(missing.name_bytes(), vertex.name_bytes()) {
        Error::new("missing vertex shader")
    } else {
        Error::new("missing fragment shader")
    }
}

} // verus!
