//! The translators that were loaded, by the languages they are for.

use crate::ir::term::share;
use ahash::AHashMap;
use std::sync::Arc;
use vstd::prelude::*;

verus! {

/// The places of translators by the identifiers of their languages.
pub uninterp spec fn place_entries(places: AHashMap<String, usize>) -> Map<Seq<char>, usize>;

/// Calls `AHashMap::new`. Claims that the map is empty.
#[verifier::external_body]
fn new_places() -> (places: AHashMap<String, usize>)
    ensures
        place_entries(places).is_empty(),
{
    AHashMap::new()
}

/// Calls `AHashMap::insert`. Claims that the key has the new value then, and
/// that the others stay.
#[verifier::external_body]
fn place_insert(places: &mut AHashMap<String, usize>, id: String, place: usize)
    ensures
        place_entries(*final(places)) == place_entries(*old(places)).insert(id@, place),
{
    places.insert(id, place);
}

/// Calls `AHashMap::get`. Claims that the result is the value under the key.
#[verifier::external_body]
fn place_get(places: &AHashMap<String, usize>, id: &str) -> (place: Option<usize>)
    ensures
        place == place_entries(*places).get(id@),
{
    places.get(id).copied()
}

/// The translators that were loaded, by the identifiers of their languages.
#[derive(Debug)]
pub struct LoadedTranslators<T> {
    places: AHashMap<String, usize>,
    translators: Vec<Arc<T>>,
}

impl<T> View for LoadedTranslators<T> {
    type V = Map<Seq<char>, Arc<T>>;

    closed spec fn view(&self) -> Map<Seq<char>, Arc<T>> {
        Map::new(
            |id: Seq<char>| place_entries(self.places).contains_key(id),
            |id: Seq<char>| self.translators@[place_entries(self.places)[id] as int],
        )
    }
}

impl<T> LoadedTranslators<T> {
    /// Whether each place is that of a translator, and of one language alone.
    pub closed spec fn wf(self) -> bool {
        &&& forall|id: Seq<char>| #[trigger]
            place_entries(self.places).contains_key(id) ==> place_entries(self.places)[id]
                < self.translators@.len()
        &&& place_entries(self.places).is_injective()
    }

    /// No translators.
    pub fn new() -> (loaded: Self)
        ensures
            loaded.wf(),
            loaded@.is_empty(),
    {
        let loaded = LoadedTranslators { places: new_places(), translators: Vec::new() };
        assert(loaded@ =~= Map::empty());
        loaded
    }

    /// The translator of a language.
    pub fn find(&self, id: &str) -> (translator: Option<Arc<T>>)
        requires
            self.wf(),
        ensures
            translator == self@.get(id@),
    {
        match place_get(&self.places, id) {
            Some(place) => Some(share(&self.translators[place])),
            None => None,
        }
    }

    /// Keeps the translator of a language, in the place of the one before.
    pub fn keep(&mut self, id: &str, translator: Arc<T>)
        requires
            old(self).wf(),
        ensures
            final(self).wf(),
            final(self)@ == old(self)@.insert(id@, translator),
    {
        match place_get(&self.places, id) {
            Some(place) => {
                self.translators.set(place, translator);
            },
            None => {
                let place: usize = self.translators.len();
                self.translators.push(translator);
                place_insert(&mut self.places, id.to_owned(), place);
            },
        }
        assert(self@ =~= old(self)@.insert(id@, translator));
    }
}

} // verus!
