//! Where a type database comes from: a cache file, a header, or nowhere.
//!
//! Files are tested, read and imported elsewhere. [`LoadStep`] says what to do
//! next, and takes what came of it.

use crate::cio::config::TypeDBConfig;
use crate::cio::db::TypeInfoDB;
use vstd::prelude::*;

verus! {

/// Why a file could not be read or written.
#[derive(Debug)]
pub enum FileError {
    NotFound(String),
    Other(String),
}

/// Why a type database could not be loaded or stored.
#[derive(Debug)]
pub enum TypeError {
    Clang(String),
    Deserialisation(String),
    IO(FileError),
    Serialisation(String),
    Unsupported,
}

pub type Error = TypeError;

/// What was asked for: whether the file is known to be a header, whether
/// headers can be imported, and whether the file is the cache file itself.
#[derive(Clone, Copy, Debug)]
pub struct LoadRequest {
    pub header: bool,
    pub can_import: bool,
    pub is_cache: bool,
}

/// What to do next.
#[derive(Debug)]
pub enum LoadStep {
    /// Test whether the cache file exists.
    TestCache,
    /// Read the cache file.
    ReadCache,
    /// Test whether the file exists. The error is that of the cache file.
    TestFile(Option<TypeError>),
    /// Import the file as a header.
    Import,
    /// Nothing: this is the result.
    Done(Result<TypeInfoDB, TypeError>),
}

/// What came of a step.
#[derive(Debug)]
pub enum LoadEvent {
    /// Whether the tested file exists.
    Exists(bool),
    /// What was read or imported.
    Loaded(Result<TypeInfoDB, TypeError>),
}

/// The error of a file that is not there, and has no cache file.
pub open spec fn is_missing(error: TypeError) -> bool {
    error matches TypeError::IO(FileError::NotFound(message)) && message@
        == "header (or cached variant) not found"@
}

/// Whether `result` is that of a file which is neither cached nor imported: the
/// cache file's own error, or else that the file is missing.
pub open spec fn is_not_loaded(
    cache_error: Option<TypeError>,
    result: Result<TypeInfoDB, TypeError>,
) -> bool {
    match cache_error {
        Some(error) => result == Err::<TypeInfoDB, TypeError>(error),
        None => result matches Err(error) && is_missing(error),
    }
}

impl LoadStep {
    /// Whether `event` can come of this step.
    pub open spec fn yields(self, event: LoadEvent) -> bool {
        match self {
            LoadStep::TestCache | LoadStep::TestFile(_) => event is Exists,
            LoadStep::ReadCache | LoadStep::Import => event is Loaded,
            LoadStep::Done(_) => false,
        }
    }

    /// Whether `next` comes after the cache file gave no database.
    pub open spec fn follows_cache(
        request: LoadRequest,
        cache_error: Option<TypeError>,
        next: LoadStep,
    ) -> bool {
        if request.is_cache {
            next matches LoadStep::Done(result) && is_not_loaded(cache_error, result)
        } else if request.can_import {
            next is Import
        } else {
            next == LoadStep::TestFile(cache_error)
        }
    }

    /// Whether `next` comes after this step with what came of it.
    pub open spec fn leads_to(
        self,
        request: LoadRequest,
        event: LoadEvent,
        next: LoadStep,
    ) -> bool {
        match (self, event) {
            (LoadStep::TestCache, LoadEvent::Exists(exists)) => if exists {
                next is ReadCache
            } else {
                LoadStep::follows_cache(request, None, next)
            },
            (LoadStep::ReadCache, LoadEvent::Loaded(Ok(db))) => next == LoadStep::Done(Ok(db)),
            (LoadStep::ReadCache, LoadEvent::Loaded(Err(error))) => LoadStep::follows_cache(
                request,
                Some(error),
                next,
            ),
            (LoadStep::TestFile(cache_error), LoadEvent::Exists(exists)) => next matches
                LoadStep::Done(result) && if exists {
                result == Err::<TypeInfoDB, TypeError>(TypeError::Unsupported)
            } else {
                is_not_loaded(cache_error, result)
            },
            (LoadStep::Import, LoadEvent::Loaded(result)) => next == LoadStep::Done(result),
            _ => false,
        }
    }

    /// The first step of loading a file: a header is imported, or else the
    /// cache file is tried.
    pub open spec fn is_first(request: LoadRequest, step: LoadStep) -> bool {
        if !request.header {
            step is TestCache
        } else if request.can_import {
            step is Import
        } else {
            step == LoadStep::Done(Err(TypeError::Unsupported))
        }
    }

    /// The first step of loading a file.
    pub fn first(request: LoadRequest) -> (step: LoadStep)
        ensures
            LoadStep::is_first(request, step),
    {
        if !request.header {
            LoadStep::TestCache
        } else if request.can_import {
            LoadStep::Import
        } else {
            LoadStep::Done(Err(TypeError::Unsupported))
        }
    }

    /// What is left to do when the cache file gave no database.
    fn after_cache(request: LoadRequest, cache_error: Option<TypeError>) -> (step: LoadStep)
        ensures
            LoadStep::follows_cache(request, cache_error, step),
    {
        if request.is_cache {
            LoadStep::Done(not_loaded(cache_error))
        } else if request.can_import {
            LoadStep::Import
        } else {
            LoadStep::TestFile(cache_error)
        }
    }

    /// The step after this one, for what came of it.
    pub fn next(self, request: LoadRequest, event: LoadEvent) -> (step: LoadStep)
        requires
            self.yields(event),
        ensures
            self.leads_to(request, event, step),
    {
        match (self, event) {
            (LoadStep::TestCache, LoadEvent::Exists(exists)) => if exists {
                LoadStep::ReadCache
            } else {
                LoadStep::after_cache(request, None)
            },
            (LoadStep::ReadCache, LoadEvent::Loaded(Ok(db))) => LoadStep::Done(Ok(db)),
            (LoadStep::ReadCache, LoadEvent::Loaded(Err(error))) => LoadStep::after_cache(
                request,
                Some(error),
            ),
            (LoadStep::TestFile(cache_error), LoadEvent::Exists(exists)) => if exists {
                LoadStep::Done(Err(TypeError::Unsupported))
            } else {
                LoadStep::Done(not_loaded(cache_error))
            },
            (LoadStep::Import, LoadEvent::Loaded(result)) => LoadStep::Done(result),
            (step, _) => step,
        }
    }
}

/// The result for a file that is neither cached nor imported.
fn not_loaded(cache_error: Option<TypeError>) -> (result: Result<TypeInfoDB, TypeError>)
    ensures
        is_not_loaded(cache_error, result),
{
    match cache_error {
        Some(error) => Err(error),
        None => Err(
            TypeError::IO(FileError::NotFound("header (or cached variant) not found".to_owned())),
        ),
    }
}

impl<'a> TypeDBConfig<'a> {
    /// The request to load a file with these settings.
    pub fn load_request(&self, can_import: bool, is_cache: bool) -> (request: LoadRequest)
        ensures
            request == (LoadRequest { header: self@.header, can_import, is_cache }),
    {
        LoadRequest { header: self.header(), can_import, is_cache }
    }
}

/// What the files hold while a database is loaded: what reading the cache file
/// gives if it exists, whether the file exists, and what importing it gives.
pub struct LoadFacts {
    pub cache: Option<Result<TypeInfoDB, TypeError>>,
    pub exists: bool,
    pub imported: Result<TypeInfoDB, TypeError>,
}

impl LoadFacts {
    /// What comes of a step.
    pub open spec fn event(self, step: LoadStep) -> LoadEvent {
        match step {
            LoadStep::TestCache => LoadEvent::Exists(self.cache is Some),
            LoadStep::ReadCache => LoadEvent::Loaded(self.cache->0),
            LoadStep::TestFile(_) => LoadEvent::Exists(self.exists),
            _ => LoadEvent::Loaded(self.imported),
        }
    }

    /// Whether loading comes to `result`. A file known to be a header is
    /// imported, if that is possible at all. For any other, the cache file is
    /// taken if it can be read. If not, the file is imported, unless it is the
    /// cache file itself. Without an importer, a file that exists is
    /// unsupported; else the error is that of the cache file, or that nothing
    /// was found.
    pub open spec fn comes_to(
        self,
        request: LoadRequest,
        result: Result<TypeInfoDB, TypeError>,
    ) -> bool {
        let unsupported = Err::<TypeInfoDB, TypeError>(TypeError::Unsupported);
        let cache_error = match self.cache {
            Some(Err(error)) => Some(error),
            _ => None,
        };
        if request.header {
            result == if request.can_import {
                self.imported
            } else {
                unsupported
            }
        } else if self.cache matches Some(Ok(db)) {
            result == Ok::<TypeInfoDB, TypeError>(self.cache->0->Ok_0)
        } else if !request.is_cache && request.can_import {
            result == self.imported
        } else if !request.is_cache && self.exists {
            result == unsupported
        } else {
            is_not_loaded(cache_error, result)
        }
    }

    /// Whether steps are a run of [`LoadStep::first`] and [`LoadStep::next`].
    pub open spec fn runs(self, request: LoadRequest, steps: Seq<LoadStep>) -> bool {
        &&& steps.len() > 0
        &&& LoadStep::is_first(request, steps[0])
        &&& forall|i: int|
            0 <= i < steps.len() - 1 ==> !(#[trigger] steps[i] is Done) && steps[i].leads_to(
                request,
                self.event(steps[i]),
                steps[i + 1],
            )
    }
}

/// A run of the steps has at most four of them. One that is not done has a step
/// for which there is an event, and the result of one that is done is what
/// loading comes to.
pub proof fn law_load_comes_to(facts: LoadFacts, request: LoadRequest, steps: Seq<LoadStep>)
    requires
        facts.runs(request, steps),
    ensures
        steps.len() <= 4,
        steps.len() == 4 ==> steps.last() is Done,
        match steps.last() {
            LoadStep::Done(result) => facts.comes_to(request, result),
            step => step.yields(facts.event(step)),
        },
{
    assert(steps.len() >= 2 ==> steps[0].leads_to(request, facts.event(steps[0]), steps[1]));
    assert(steps.len() >= 3 ==> steps[1].leads_to(request, facts.event(steps[1]), steps[2]));
    assert(steps.len() >= 4 ==> steps[2].leads_to(request, facts.event(steps[2]), steps[3]));
    assert(steps.len() >= 5 ==> !(steps[3] is Done));
}

} // verus!
