//! How lifters are built, and how translators are cached.
//!
//! Files are read and written elsewhere, and so are translators built.
//! [`BuildStep`] says what to do next, and takes what came of it.

use crate::ir::var::Var;
use crate::lifter::lift::{Lifter, LifterModel};
use crate::lifter::translator::Translator;
use ahash::AHashSet;
use std::sync::Arc;
use vstd::prelude::*;

verus! {

/// Why a lifter could not be built, or a translator not be cached.
#[derive(Debug)]
pub enum LifterBuilderError {
    ArchDef(String),
    Backend(String),
    Deserialisation(String),
    FileIO(String),
    Serialisation(String),
    UnsupportedArch,
    UnsupportedConv,
}

impl Lifter {
    /// A lifter for the convention of a name. It is an error if the translator
    /// has none of that name.
    pub fn for_convention(
        translator: Arc<Translator>,
        convention: &str,
        frame_pointer: Option<Var>,
    ) -> (lifter: Result<Lifter, LifterBuilderError>)
        requires
            translator.convention(convention@) matches Some(c) ==> LifterModel::buildable(
                *translator,
                *c,
            ),
        ensures
            match translator.convention(convention@) {
                Some(c) => lifter matches Ok(l) && l@ == LifterModel::built(
                    *translator,
                    *c,
                    frame_pointer,
                ),
                None => lifter == Err::<Lifter, LifterBuilderError>(
                    LifterBuilderError::UnsupportedConv,
                ),
            },
    {
        match translator.convention_by_name(convention) {
            Some(found) => Ok(Lifter::new_with(translator, found, frame_pointer)),
            None => Err(LifterBuilderError::UnsupportedConv),
        }
    }
}

/// What was found of an architecture, which is an error if it is nothing.
pub fn supported<T>(found: Option<T>) -> (result: Result<T, LifterBuilderError>)
    ensures
        result == match found {
            Some(value) => Ok::<T, LifterBuilderError>(value),
            None => Err(LifterBuilderError::UnsupportedArch),
        },
{
    match found {
        Some(value) => Ok(value),
        None => Err(LifterBuilderError::UnsupportedArch),
    }
}

/// Where a translator comes from.
#[derive(Clone, Copy, Debug, PartialEq, Eq, Structural)]
pub enum TranslatorSource {
    /// It was built or read before.
    Loaded,
    /// It is that of the cache file.
    Cached,
    /// It is built.
    Built,
}

/// What to do next to get a translator.
#[derive(Debug)]
pub enum BuildStep<T> {
    /// Look for the language among the translators that were loaded.
    FindLoaded,
    /// Open the cache file.
    OpenCache,
    /// Read the translator from the cache file.
    ReadCache,
    /// Set the language's context variables in the translator that was read.
    ApplyContext(Arc<T>),
    /// Build the translator.
    Build,
    /// Keep the translator among those that were loaded.
    Store(TranslatorSource, Arc<T>),
    /// Nothing: this is the result.
    Done(Result<(TranslatorSource, Arc<T>), LifterBuilderError>),
}

/// What came of a step.
#[derive(Debug)]
pub enum BuildEvent<T> {
    /// The translator that was loaded before, if there is one.
    Loaded(Option<Arc<T>>),
    /// Whether the cache file could be opened.
    Opened(bool),
    /// The translator that was read, with the number of its calling
    /// conventions.
    Read(Result<(usize, Arc<T>), LifterBuilderError>),
    /// The translator with the context variables set.
    Applied(Arc<T>),
    /// The translator that was built.
    Built(Result<Arc<T>, LifterBuilderError>),
    /// The translator was kept.
    Stored,
}

impl<T> BuildStep<T> {
    /// Whether `event` can come of this step.
    pub open spec fn yields(self, event: BuildEvent<T>) -> bool {
        match self {
            BuildStep::FindLoaded => event is Loaded,
            BuildStep::OpenCache => event is Opened,
            BuildStep::ReadCache => event is Read,
            BuildStep::ApplyContext(_) => event is Applied,
            BuildStep::Build => event is Built,
            BuildStep::Store(_, _) => event is Stored,
            BuildStep::Done(_) => false,
        }
    }

    /// The step after this one with what came of it.
    pub open spec fn followed_by(self, event: BuildEvent<T>) -> BuildStep<T> {
        match (self, event) {
            (BuildStep::FindLoaded, BuildEvent::Loaded(found)) => match found {
                Some(translator) => BuildStep::Done(Ok((TranslatorSource::Loaded, translator))),
                None => BuildStep::OpenCache,
            },
            (BuildStep::OpenCache, BuildEvent::Opened(opened)) => if opened {
                BuildStep::ReadCache
            } else {
                BuildStep::Build
            },
            (BuildStep::ReadCache, BuildEvent::Read(Ok((conventions, translator)))) => if conventions
                == 0 {
                BuildStep::Build
            } else {
                BuildStep::ApplyContext(translator)
            },
            (BuildStep::ReadCache, BuildEvent::Read(Err(error))) => BuildStep::Done(Err(error)),
            (BuildStep::ApplyContext(_), BuildEvent::Applied(translator)) => BuildStep::Store(
                TranslatorSource::Cached,
                translator,
            ),
            (BuildStep::Build, BuildEvent::Built(Ok(translator))) => BuildStep::Store(
                TranslatorSource::Built,
                translator,
            ),
            (BuildStep::Build, BuildEvent::Built(Err(error))) => BuildStep::Done(Err(error)),
            (BuildStep::Store(source, translator), BuildEvent::Stored) => BuildStep::Done(
                Ok((source, translator)),
            ),
            (step, _) => step,
        }
    }

    /// The step after this one, for what came of it.
    pub fn next(self, event: BuildEvent<T>) -> (step: BuildStep<T>)
        requires
            self.yields(event),
        ensures
            step == self.followed_by(event),
    {
        match (self, event) {
            (BuildStep::FindLoaded, BuildEvent::Loaded(found)) => match found {
                Some(translator) => BuildStep::Done(Ok((TranslatorSource::Loaded, translator))),
                None => BuildStep::OpenCache,
            },
            (BuildStep::OpenCache, BuildEvent::Opened(opened)) => if opened {
                BuildStep::ReadCache
            } else {
                BuildStep::Build
            },
            (BuildStep::ReadCache, BuildEvent::Read(Ok((conventions, translator)))) => if conventions
                == 0 {
                BuildStep::Build
            } else {
                BuildStep::ApplyContext(translator)
            },
            (BuildStep::ReadCache, BuildEvent::Read(Err(error))) => BuildStep::Done(Err(error)),
            (BuildStep::ApplyContext(_), BuildEvent::Applied(translator)) => BuildStep::Store(
                TranslatorSource::Cached,
                translator,
            ),
            (BuildStep::Build, BuildEvent::Built(Ok(translator))) => BuildStep::Store(
                TranslatorSource::Built,
                translator,
            ),
            (BuildStep::Build, BuildEvent::Built(Err(error))) => BuildStep::Done(Err(error)),
            (BuildStep::Store(source, translator), BuildEvent::Stored) => BuildStep::Done(
                Ok((source, translator)),
            ),
            (step, _) => step,
        }
    }
}

/// What there is while a translator is got: the one that was loaded before, what
/// the cache file holds if it can be opened, what setting the context makes of
/// that, and what building gives.
pub struct BuildFacts<T> {
    pub loaded: Option<Arc<T>>,
    pub cache: Option<Result<(usize, Arc<T>), LifterBuilderError>>,
    pub applied: Arc<T>,
    pub built: Result<Arc<T>, LifterBuilderError>,
}

impl<T> BuildFacts<T> {
    /// What comes of a step.
    pub open spec fn event(self, step: BuildStep<T>) -> BuildEvent<T> {
        match step {
            BuildStep::FindLoaded => BuildEvent::Loaded(self.loaded),
            BuildStep::OpenCache => BuildEvent::Opened(self.cache is Some),
            BuildStep::ReadCache => BuildEvent::Read(self.cache->0),
            BuildStep::ApplyContext(_) => BuildEvent::Applied(self.applied),
            BuildStep::Build => BuildEvent::Built(self.built),
            _ => BuildEvent::Stored,
        }
    }

    /// The translator and where it comes from: the one that was loaded before,
    /// or else that of the cache file with its context set, if it has a calling
    /// convention. Without such a file it is built. A cache file that cannot be
    /// read is an error.
    pub open spec fn outcome(self) -> Result<(TranslatorSource, Arc<T>), LifterBuilderError> {
        match (self.loaded, self.cache) {
            (Some(translator), _) => Ok((TranslatorSource::Loaded, translator)),
            (None, Some(Err(error))) => Err(error),
            (None, Some(Ok((conventions, _)))) if conventions > 0 => Ok(
                (TranslatorSource::Cached, self.applied),
            ),
            _ => match self.built {
                Ok(translator) => Ok((TranslatorSource::Built, translator)),
                Err(error) => Err(error),
            },
        }
    }

    /// The step after some steps.
    pub open spec fn step_after(self, steps: nat) -> BuildStep<T>
        decreases steps,
    {
        if steps == 0 {
            BuildStep::FindLoaded
        } else {
            let before = self.step_after((steps - 1) as nat);
            before.followed_by(self.event(before))
        }
    }

    /// The translators that were loaded after one was got: what the run was
    /// told to keep is kept under the language's identifier.
    pub open spec fn loaded_after(self, loaded: Map<Seq<char>, Arc<T>>, id: Seq<char>) -> Map<
        Seq<char>,
        Arc<T>,
    > {
        match self.outcome() {
            Ok((source, translator)) if source != TranslatorSource::Loaded => loaded.insert(
                id,
                translator,
            ),
            _ => loaded,
        }
    }
}

/// After five steps a translator was got, or could not be. Each step before it
/// is done is one whose event is known.
pub proof fn law_build_outcome<T>(facts: BuildFacts<T>, steps: nat)
    ensures
        steps >= 5 ==> facts.step_after(steps) == BuildStep::Done(facts.outcome()),
        facts.step_after(steps) is Done || facts.step_after(steps).yields(
            facts.event(facts.step_after(steps)),
        ),
    decreases steps,
{
    reveal_with_fuel(BuildFacts::step_after, 6);
    if steps > 5 {
        law_build_outcome(facts, (steps - 1) as nat);
    }
}

/// A translator is kept exactly when it was got and was not loaded before. It
/// is then the one that was got.
pub proof fn law_build_stores<T>(facts: BuildFacts<T>)
    ensures
        (exists|steps: nat| #[trigger] facts.step_after(steps) is Store) <==> (facts.outcome() is Ok
            && facts.loaded is None),
        forall|steps: nat|
            (#[trigger] facts.step_after(steps)) matches BuildStep::Store(source, translator)
                ==> source != TranslatorSource::Loaded && facts.outcome() == Ok::<
                (TranslatorSource, Arc<T>),
                LifterBuilderError,
            >((source, translator)),
{
    assert forall|steps: nat| #[trigger]
        facts.step_after(steps) is Store implies facts.loaded is None
        && facts.step_after(steps)->Store_0 != TranslatorSource::Loaded && facts.outcome() == Ok::<
        (TranslatorSource, Arc<T>),
        LifterBuilderError,
    >((facts.step_after(steps)->Store_0, facts.step_after(steps)->Store_1)) by {
        reveal_with_fuel(BuildFacts::step_after, 5);
        law_build_outcome(facts, steps);
    }
    if facts.outcome() is Ok && facts.loaded is None {
        reveal_with_fuel(BuildFacts::step_after, 5);
        assert(facts.step_after(3) is Store || facts.step_after(4) is Store);
    }
}

/// The context is set exactly when the translator comes from the cache file,
/// and it is set in the one that was read from it.
pub proof fn law_build_applies_context<T>(facts: BuildFacts<T>)
    ensures
        (exists|steps: nat| #[trigger] facts.step_after(steps) is ApplyContext) <==> (
        facts.outcome() matches Ok((source, _)) && source == TranslatorSource::Cached),
        forall|steps: nat|
            (#[trigger] facts.step_after(steps)) matches BuildStep::ApplyContext(translator) ==> (
            facts.cache matches Some(Ok((_, read))) && translator == read),
{
    assert forall|steps: nat| #[trigger]
        facts.step_after(steps) is ApplyContext implies (facts.outcome() matches Ok((source, _))
        && source == TranslatorSource::Cached) && (facts.cache matches Some(Ok((_, read)))
        && facts.step_after(steps)->ApplyContext_0 == read) by {
        reveal_with_fuel(BuildFacts::step_after, 5);
        law_build_outcome(facts, steps);
    }
    if facts.outcome() matches Ok((source, _)) && source == TranslatorSource::Cached {
        reveal_with_fuel(BuildFacts::step_after, 5);
        assert(facts.step_after(3) is ApplyContext);
    }
}

/// A translator that was got once is the one that is got for the same language
/// from then on, whatever the cache file then holds: the second run is done
/// after its first step, so that no file is read and nothing is built or kept.
pub proof fn law_build_again<T>(
    loaded: Map<Seq<char>, Arc<T>>,
    id: Seq<char>,
    first: BuildFacts<T>,
    second: BuildFacts<T>,
)
    requires
        first.loaded == loaded.get(id),
        first.outcome() is Ok,
        second.loaded == first.loaded_after(loaded, id).get(id),
    ensures
        second.outcome() == Ok::<(TranslatorSource, Arc<T>), LifterBuilderError>(
            (TranslatorSource::Loaded, first.outcome()->Ok_0.1),
        ),
        second.step_after(1) == BuildStep::Done(second.outcome()),
        second.loaded_after(first.loaded_after(loaded, id), id) == first.loaded_after(loaded, id),
{
    reveal_with_fuel(BuildFacts::step_after, 2);
}

/// What is got for one language leaves those of the others alone, and a run
/// that fails leaves all of them.
pub proof fn law_build_keeps_others<T>(
    loaded: Map<Seq<char>, Arc<T>>,
    id: Seq<char>,
    facts: BuildFacts<T>,
    other: Seq<char>,
)
    ensures
        other != id ==> facts.loaded_after(loaded, id).get(other) == loaded.get(other),
        facts.outcome() is Err ==> facts.loaded_after(loaded, id) == loaded,
{
}

/// A text with one character replaced by another wherever it stands.
pub open spec fn with_replaced(text: Seq<char>, from: char, to: char) -> Seq<char> {
    Seq::new(
        text.len(),
        |i: int|
            if text[i] == from {
                to
            } else {
                text[i]
            },
    )
}

/// Calls `str::replace` with one character as the pattern and another as the
/// replacement. Claims that the one is replaced wherever it stands, and all
/// else stays.
#[verifier::external_body]
fn replace_char(text: &str, from: char, to: char) -> (replaced: String)
    ensures
        replaced@ == with_replaced(text@, from, to),
{
    text.replace(from, &to.to_string())
}

/// The identifier of a language as a file name: colons become hyphens.
pub open spec fn hyphenated(text: Seq<char>) -> Seq<char> {
    with_replaced(text, ':', '-')
}

/// The name of the cache file of a language's translator, without extension.
pub fn cache_name(language_id: &str) -> (name: String)
    ensures
        name@ == hyphenated(language_id@),
{
    replace_char(language_id, ':', '-')
}

/// `ahash::AHashSet`: a hash set.
#[verifier::external_type_specification]
#[verifier::external_body]
#[verifier::reject_recursive_types(T)]
#[verifier::reject_recursive_types(S)]
pub struct ExAHashSet<T, S>(ahash::AHashSet<T, S>);

/// The texts in a set.
pub uninterp spec fn set_texts(texts: AHashSet<String>) -> Set<Seq<char>>;

/// Calls `AHashSet::new`. Claims that the set is empty.
#[verifier::external_body]
fn new_texts() -> (texts: AHashSet<String>)
    ensures
        set_texts(texts).is_empty(),
{
    AHashSet::new()
}

/// Calls `contains` of the hash set in an `AHashSet`. Claims that it says
/// whether the text is in the set.
#[verifier::external_body]
fn has_text(texts: &AHashSet<String>, text: &String) -> (has: bool)
    ensures
        has == set_texts(*texts).contains(text@),
{
    texts.contains(text)
}

/// Calls `insert` of the hash set in an `AHashSet`. Claims that the text is in
/// the set then, and that the others stay.
#[verifier::external_body]
fn add_text(texts: &mut AHashSet<String>, text: String)
    ensures
        set_texts(*final(texts)) == set_texts(*old(texts)).insert(text@),
{
    texts.insert(text);
}

/// A language whose translator may be cached: the number of its compiler
/// specifications, and the path of its cache file.
#[derive(Debug)]
pub struct CacheEntry {
    pub compiler_specs: usize,
    pub path: String,
}

/// Whether a language's translator is to be cached: it has a compiler
/// specification, and its path is not that of such a language before it.
pub open spec fn is_cached(entries: Seq<CacheEntry>, at: int) -> bool {
    &&& entries[at].compiler_specs > 0
    &&& forall|before: int|
        0 <= before < at && (#[trigger] entries[before]).compiler_specs > 0
            ==> entries[before].path@ != entries[at].path@
}

/// The places of the languages whose translators are to be cached, in order.
pub open spec fn cached_places(entries: Seq<CacheEntry>, count: int) -> Seq<usize>
    decreases count,
{
    if count <= 0 {
        Seq::empty()
    } else {
        let before = cached_places(entries, count - 1);
        if is_cached(entries, count - 1) {
            before.push((count - 1) as usize)
        } else {
            before
        }
    }
}

/// The places of the languages whose translators are to be cached, in order.
pub fn translator_cache_plan(entries: &Vec<CacheEntry>) -> (places: Vec<usize>)
    ensures
        places@ == cached_places(entries@, entries@.len() as int),
{
    let mut processed = new_texts();
    let mut places: Vec<usize> = Vec::new();
    let mut i: usize = 0;
    while i < entries.len()
        invariant
            i <= entries@.len(),
            forall|text: Seq<char>| #[trigger]
                set_texts(processed).contains(text) <==> exists|before: int|
                    0 <= before < i && (#[trigger] entries@[before]).compiler_specs > 0
                        && entries@[before].path@ == text,
            places@ == cached_places(entries@, i as int),
        decreases entries@.len() - i,
    {
        let ghost seen = set_texts(processed);
        if entries[i].compiler_specs > 0 && !has_text(&processed, &entries[i].path) {
            assert(is_cached(entries@, i as int));
            places.push(i);
            add_text(&mut processed, entries[i].path.clone());
        } else {
            assert(!is_cached(entries@, i as int));
        }
        assert forall|text: Seq<char>| #[trigger]
            set_texts(processed).contains(text) <==> exists|before: int|
                0 <= before < i + 1 && (#[trigger] entries@[before]).compiler_specs > 0
                    && entries@[before].path@ == text by {
            if seen.contains(text) {
                let before = choose|before: int|
                    0 <= before < i && (#[trigger] entries@[before]).compiler_specs > 0
                        && entries@[before].path@ == text;
                assert(entries@[before].path@ == text);
            }
            if entries@[i as int].path@ == text {
                assert(entries@[i as int].compiler_specs > 0 ==> set_texts(processed).contains(
                    text,
                ));
            }
        }
        i = i + 1;
    }
    places
}

} // verus!
