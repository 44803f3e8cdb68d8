//! The task status store: the latest record of every task, by task id.

use crate::status::{TaskStatus, TaskStatusView};
use dashmap::DashMap;
use std::collections::hash_map::RandomState;
use vstd::prelude::*;

verus! {

/// `dashmap::DashMap`, taken as a type of which nothing is known but what
/// the functions below say.
#[verifier::external_type_specification]
#[verifier::external_body]
#[verifier::reject_recursive_types(K)]
#[verifier::reject_recursive_types(V)]
#[verifier::reject_recursive_types(S)]
pub struct ExDashMap<K, V, S>(DashMap<K, V, S>);

/// The entries of a `DashMap` of task records: task id to record.
pub uninterp spec fn entries(map: DashMap<String, TaskStatus, RandomState>) -> Map<
    Seq<char>,
    TaskStatusView,
>;

/// The store's contents before any task was submitted.
pub open spec fn no_records() -> Map<Seq<char>, TaskStatusView> {
    Map::empty()
}

/// `DashMap::new`: a map without entries, with the default hasher.
#[verifier::external_body]
fn map_new() -> (created: DashMap<String, TaskStatus, RandomState>)
    ensures
        entries(created) == no_records(),
{
    DashMap::new()
}

/// `DashMap::insert`, called by the only holder of the map: afterwards `key`
/// maps to `value` and every other key to what it mapped to before. The
/// value that `key` had before, if any, is dropped.
#[verifier::external_body]
fn map_insert(map: &mut DashMap<String, TaskStatus, RandomState>, key: String, value: TaskStatus)
    ensures
        entries(*final(map)) == entries(*old(map)).insert(key@, value@),
{
    map.insert(key, value);
}

/// `DashMap::get`, then `Ref::value` and a copy of the record it points to:
/// the record under `key`, or `None` if the map has no such key.
#[verifier::external_body]
fn map_get(map: &DashMap<String, TaskStatus, RandomState>, key: &str) -> (found: Option<
    TaskStatus,
>)
    ensures
        match found {
            Some(record) => entries(*map).contains_key(key@) && record@ == entries(*map)[key@],
            None => !entries(*map).contains_key(key@),
        },
{
    map.get(key).map(|entry| entry.value().duplicate())
}

/// The latest record of every task that was ever submitted, keyed by task id.
///
/// Writes go through `&mut self`: a writer has the store to itself while it
/// writes, so a reader sees either the record before a write or the one after
/// it, never a mixture of the two.
pub struct StatusStore {
    map: DashMap<String, TaskStatus, RandomState>,
}

impl View for StatusStore {
    type V = Map<Seq<char>, TaskStatusView>;

    closed spec fn view(&self) -> Map<Seq<char>, TaskStatusView> {
        entries(self.map)
    }
}

impl StatusStore {
    /// A store that knows no task.
    pub fn new() -> (store: StatusStore)
        ensures
            store@ == no_records(),
    {
        StatusStore { map: map_new() }
    }

    /// Makes `record` the record of `task_id`, whether or not the task had
    /// one before. No other task's record changes.
    pub fn set(&mut self, task_id: String, record: TaskStatus)
        ensures
            final(self)@ == old(self)@.insert(task_id@, record@),
    {
        map_insert(&mut self.map, task_id, record);
    }

    /// The record last written for `task_id`, or `None` if none ever was.
    pub fn get(&self, task_id: &str) -> (found: Option<TaskStatus>)
        ensures
            match found {
                Some(record) => self@.contains_key(task_id@) && record@ == self@[task_id@],
                None => !self@.contains_key(task_id@),
            },
    {
        map_get(&self.map, task_id)
    }
}

/// The contents of a store that held `start` and then took the given
/// writes, each a task id and a record, in order.
pub open spec fn after_writes(
    start: Map<Seq<char>, TaskStatusView>,
    writes: Seq<(Seq<char>, TaskStatusView)>,
) -> Map<Seq<char>, TaskStatusView>
    decreases writes.len(),
{
    if writes.len() == 0 {
        start
    } else {
        after_writes(start, writes.drop_last()).insert(writes.last().0, writes.last().1)
    }
}

/// The record of the latest write for `task_id` among `writes`, if there is
/// such a write.
pub open spec fn last_written(
    writes: Seq<(Seq<char>, TaskStatusView)>,
    task_id: Seq<char>,
) -> Option<TaskStatusView>
    decreases writes.len(),
{
    if writes.len() == 0 {
        None
    } else if writes.last().0 == task_id {
        Some(writes.last().1)
    } else {
        last_written(writes.drop_last(), task_id)
    }
}

/// A fresh store that has taken any series of writes holds, for every task
/// id, exactly the record of the latest write for that id: nothing for an
/// id that was never written, and never a record other than one that was
/// written whole.
pub proof fn lemma_store_holds_last_write(
    writes: Seq<(Seq<char>, TaskStatusView)>,
    task_id: Seq<char>,
)
    ensures
        match last_written(writes, task_id) {
            Some(record) => after_writes(no_records(), writes).contains_key(task_id)
                && after_writes(no_records(), writes)[task_id] == record,
            None => !after_writes(no_records(), writes).contains_key(task_id),
        },
    decreases writes.len(),
{
    if writes.len() > 0 {
        lemma_store_holds_last_write(writes.drop_last(), task_id);
    }
}

/// A write changes the record of the task it names and of no other, and
/// it never makes a record disappear.
pub proof fn lemma_write_is_local(
    before: Map<Seq<char>, TaskStatusView>,
    task_id: Seq<char>,
    record: TaskStatusView,
    other: Seq<char>,
)
    ensures
        before.insert(task_id, record).contains_key(task_id),
        before.insert(task_id, record)[task_id] == record,
        other != task_id ==> before.insert(task_id, record).contains_key(other)
            == before.contains_key(other),
        other != task_id && before.contains_key(other) ==> before.insert(task_id, record)[other]
            == before[other],
        before.contains_key(other) ==> before.insert(task_id, record).contains_key(other),
{
}

/// Writing the same record twice is the same as writing it once, and of two
/// writes for one task the later one counts.
pub proof fn lemma_write_overwrites(
    before: Map<Seq<char>, TaskStatusView>,
    task_id: Seq<char>,
    earlier: TaskStatusView,
    later: TaskStatusView,
)
    ensures
        before.insert(task_id, later).insert(task_id, later) == before.insert(task_id, later),
        before.insert(task_id, earlier).insert(task_id, later) == before.insert(task_id, later),
{
    assert(before.insert(task_id, later).insert(task_id, later) =~= before.insert(task_id, later));
    assert(before.insert(task_id, earlier).insert(task_id, later) =~= before.insert(
        task_id,
        later,
    ));
}

} // verus!
