//! A small JSON data model for the free-form attribute bag ("tag") that a
//! trace event carries.
//!
//! The codec never inspects the values inside a caller-supplied bag: it only
//! adds the typed fields of the event on top of it. An object is therefore
//! kept as a write log of key/value pairs; its mathematical content is the
//! map obtained by replaying the log, so a later write to a key shadows an
//! earlier one (last write wins).

use vstd::prelude::*;

verus! {

/// A JSON value. Numbers are limited to the unsigned 64-bit integers that
/// the event model uses.
#[derive(Debug)]
pub enum Json {
    Null,
    Bool(bool),
    Num(u64),
    Str(String),
    Arr(Vec<Json>),
    Obj(JsonMap),
}

/// A JSON object: an ordered write log of key/value pairs. Its view is the
/// map it denotes, where the last write to a key wins.
#[derive(Debug)]
pub struct JsonMap {
    pub entries: Vec<(String, Json)>,
}

/// The map denoted by a write log: replay the writes in order, a later
/// write to a key shadowing an earlier one.
pub open spec fn entries_model(s: Seq<(String, Json)>) -> Map<Seq<char>, Json>
    decreases s.len(),
{
    if s.len() == 0 {
        Map::empty()
    } else {
        entries_model(s.drop_last()).insert(s.last().0@, s.last().1)
    }
}

impl View for JsonMap {
    type V = Map<Seq<char>, Json>;

    open spec fn view(&self) -> Map<Seq<char>, Json> {
        entries_model(self.entries@)
    }
}

impl JsonMap {
    /// An empty JSON object.
    pub fn new() -> (r: JsonMap)
        ensures
            r@ == Map::<Seq<char>, Json>::empty(),
            r.entries@.len() == 0,
    {
        JsonMap { entries: Vec::new() }
    }

    /// Writes `value` under `key`, shadowing any earlier write to the same
    /// key.
    pub fn insert(&mut self, key: String, value: Json)
        ensures
            final(self)@ == old(self)@.insert(key@, value),
            final(self).entries@ == old(self).entries@.push((key, value)),
    {
        let ghost before = self.entries@;
        self.entries.push((key, value));
        proof {
            assert(self.entries@.drop_last() =~= before);
        }
    }
}

} // verus!
