//! The debug and error store: what went wrong, per plugin instance and parameter.
//!
//! An entry is keyed by the instance and the index of the parameter it
//! concerns, and holds the text to show. A later record for the same key
//! replaces the earlier one. Nothing expires: entries stay until the instance
//! is cleared.

use dashmap::DashMap;
use std::collections::hash_map::RandomState;
use std::collections::HashMap;
use vstd::prelude::*;

verus! {

broadcast use vstd::std_specs::hash::group_hash_axioms;

/// The texts of a map from parameter index to message, as sequences of characters.
pub open spec fn message_texts(messages: HashMap<i32, String>) -> Map<i32, Seq<char>> {
    Map::new(|index: i32| messages@.contains_key(index), |index: i32| messages@[index]@)
}

/// The entries that an error map holds: for each instance with an entry, the
/// text recorded for each parameter index.
pub uninterp spec fn error_entries(
    map: DashMap<usize, HashMap<i32, String>, RandomState>,
) -> Map<usize, Map<i32, Seq<char>>>;

/// Trusted: `DashMap::new` makes a map without entries.
#[verifier::external_body]
fn error_map_new() -> (fresh: DashMap<usize, HashMap<i32, String>, RandomState>)
    ensures
        error_entries(fresh).dom() == Set::<usize>::empty(),
{
    DashMap::new()
}

/// Trusted: `DashMap::insert` stores the value under the key, replacing what
/// was there. No other entry changes.
#[verifier::external_body]
fn error_map_insert(
    map: &mut DashMap<usize, HashMap<i32, String>, RandomState>,
    key: usize,
    messages: HashMap<i32, String>,
)
    ensures
        error_entries(*final(map)) == error_entries(*old(map)).insert(key, message_texts(messages)),
{
    map.insert(key, messages);
}

/// Trusted: `DashMap::remove` takes the entry of the key out of the map and
/// hands back its value; without such an entry the map stays as it is and
/// nothing is handed back. No other entry changes.
#[verifier::external_body]
fn error_map_remove(
    map: &mut DashMap<usize, HashMap<i32, String>, RandomState>,
    key: usize,
) -> (removed: Option<HashMap<i32, String>>)
    ensures
        error_entries(*final(map)) == error_entries(*old(map)).remove(key),
        removed is Some <==> error_entries(*old(map)).contains_key(key),
        removed matches Some(messages) ==> message_texts(messages) == error_entries(*old(map))[key],
{
    map.remove(&key).map(|entry| entry.1)
}

/// Trusted: `DashMap::get` finds the entry of the key, if the map has one;
/// the value is cloned out of the reference it returns.
#[verifier::external_body]
fn error_map_get(map: &DashMap<usize, HashMap<i32, String>, RandomState>, key: usize) -> (found:
    Option<HashMap<i32, String>>)
    ensures
        found is Some <==> error_entries(*map).contains_key(key),
        found matches Some(messages) ==> message_texts(messages) == error_entries(*map)[key],
{
    map.get(&key).map(|entry| entry.value().clone())
}

/// What has been recorded, by instance and parameter index.
pub struct ErrorStore {
    errors: DashMap<usize, HashMap<i32, String>, RandomState>,
}

impl View for ErrorStore {
    type V = Map<usize, Map<i32, Seq<char>>>;

    closed spec fn view(&self) -> Map<usize, Map<i32, Seq<char>>> {
        error_entries(self.errors)
    }
}

impl ErrorStore {
    /// What is recorded for one instance: empty if nothing was.
    pub open spec fn of_instance(&self, instance_id: usize) -> Map<i32, Seq<char>> {
        if self@.contains_key(instance_id) {
            self@[instance_id]
        } else {
            Map::empty()
        }
    }

    /// A store without entries.
    pub fn new() -> (store: ErrorStore)
        ensures
            store@ == Map::<usize, Map<i32, Seq<char>>>::empty(),
    {
        let store = ErrorStore { errors: error_map_new() };
        store
    }

    /// Records `contents` for `(instance_id, param_index)`, in place of what
    /// was recorded for that key. Every other entry stays.
    pub fn record(&mut self, instance_id: usize, param_index: i32, contents: String)
        ensures
            final(self)@ == old(self)@.insert(
                instance_id,
                old(self).of_instance(instance_id).insert(param_index, contents@),
            ),
    {
        let mut messages = match error_map_remove(&mut self.errors, instance_id) {
            Some(messages) => messages,
            None => HashMap::new(),
        };
        let ghost before = message_texts(messages);
        assert(before =~= old(self).of_instance(instance_id));
        messages.insert(param_index, contents);
        assert(message_texts(messages) =~= before.insert(param_index, contents@));
        error_map_insert(&mut self.errors, instance_id, messages);
        assert(self@ =~= old(self)@.insert(
            instance_id,
            old(self).of_instance(instance_id).insert(param_index, contents@),
        ));
    }

    /// What is recorded for `instance_id`, by parameter index. The map is
    /// empty if nothing is.
    pub fn query(&self, instance_id: usize) -> (messages: HashMap<i32, String>)
        ensures
            message_texts(messages) == self.of_instance(instance_id),
    {
        match error_map_get(&self.errors, instance_id) {
            Some(messages) => messages,
            None => {
                let messages: HashMap<i32, String> = HashMap::new();
                messages
            },
        }
    }

    /// Forgets everything recorded for `instance_id`. Other instances keep
    /// their entries.
    pub fn clear_instance(&mut self, instance_id: usize)
        ensures
            final(self)@ == old(self)@.remove(instance_id),
    {
        let _ = error_map_remove(&mut self.errors, instance_id);
    }
}

} // verus!
