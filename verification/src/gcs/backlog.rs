//! The backlog: urgent commands that could not be sent, by their numbers.

use dashmap::DashMap;
use vstd::prelude::*;

use crate::text::{copy_text, text_of};
use crate::time::Instant;

verus! {

/// How long a command stays in the backlog, in seconds.
pub const BACKLOG_LIFETIME_SECS: u64 = 30;

/// A command in the backlog.
#[derive(Debug)]
pub struct CommandEntry {
    pub id: u64,
    pub cmd_debug: String,
    pub deadline_instant: Instant,
    pub priority: u8,
    pub created_instant: Instant,
    pub rejection_reason: Option<String>,
}

/// A command in the backlog, with its texts as characters.
#[verifier::ext_equal]
pub struct CommandEntryView {
    pub id: u64,
    pub cmd_debug: Seq<char>,
    pub deadline_instant: Instant,
    pub priority: u8,
    pub created_instant: Instant,
    pub rejection_reason: Option<Seq<char>>,
}

impl View for CommandEntry {
    type V = CommandEntryView;

    open spec fn view(&self) -> CommandEntryView {
        CommandEntryView {
            id: self.id,
            cmd_debug: self.cmd_debug@,
            deadline_instant: self.deadline_instant,
            priority: self.priority,
            created_instant: self.created_instant,
            rejection_reason: text_of(self.rejection_reason),
        }
    }
}

impl Clone for CommandEntry {
    fn clone(&self) -> (r: CommandEntry)
        ensures
            r == *self,
    {
        CommandEntry {
            id: self.id,
            cmd_debug: self.cmd_debug.clone(),
            deadline_instant: self.deadline_instant,
            priority: self.priority,
            created_instant: self.created_instant,
            rejection_reason: copy_text(&self.rejection_reason),
        }
    }
}

impl CommandEntryView {
    /// Whether the command has been in the backlog for less than its lifetime.
    pub open spec fn fresh(self, now: Instant) -> bool {
        now.since(self.created_instant).nanos as int / 1_000_000_000 < BACKLOG_LIFETIME_SECS
    }
}

impl CommandEntry {
    /// Whether the command has been in the backlog for less than its lifetime.
    pub fn is_fresh(&self, now: Instant) -> (r: bool)
        ensures
            r == self@.fresh(now),
    {
        now.saturating_duration_since(self.created_instant).as_secs() < BACKLOG_LIFETIME_SECS
    }
}

/// The commands that have been in the backlog for less than their lifetime.
pub open spec fn fresh_entries(m: Map<u64, CommandEntryView>, now: Instant) -> Map<
    u64,
    CommandEntryView,
> {
    Map::new(|id: u64| m.contains_key(id) && m[id].fresh(now), |id: u64| m[id])
}

/// Whether `items` are the entries of `m`, each of them once, in whatever order.
pub open spec fn lists(m: Map<u64, CommandEntryView>, items: Seq<(u64, CommandEntry)>) -> bool {
    &&& forall|i: int|
        0 <= i < items.len() ==> m.contains_key((#[trigger] items[i]).0) && m[items[i].0]
            == items[i].1@
    &&& forall|i: int, j: int|
        0 <= i < j < items.len() ==> (#[trigger] items[i]).0 != (#[trigger] items[j]).0
    &&& forall|id: u64| #[trigger]
        m.contains_key(id) ==> exists|i: int| 0 <= i < items.len() && (#[trigger] items[i]).0 == id
}

/// Whether `m` has `n` entries.
pub open spec fn counts(m: Map<u64, CommandEntryView>, n: usize) -> bool {
    m.dom().finite() && m.dom().len() == n
}

/// The backlog without a command.
pub open spec fn no_entries() -> Map<u64, CommandEntryView> {
    Map::empty()
}

/// The concurrent map that the backlog is kept in.
#[verifier::external_type_specification]
#[verifier::external_body]
#[verifier::reject_recursive_types(K)]
#[verifier::reject_recursive_types(V)]
#[verifier::reject_recursive_types(S)]
pub struct ExDashMap<K, V, S>(DashMap<K, V, S>);

/// What a map holds.
pub uninterp spec fn entries(m: DashMap<u64, CommandEntry>) -> Map<u64, CommandEntryView>;

/// Calls `DashMap::new`. The contract claims that the map is empty.
#[verifier::external_body]
fn map_new() -> (m: DashMap<u64, CommandEntry>)
    ensures
        entries(m) == no_entries(),
{
    DashMap::new()
}

/// Calls `DashMap::contains_key`. The contract claims that it says whether the key is there.
#[verifier::external_body]
fn map_contains_key(m: &DashMap<u64, CommandEntry>, id: u64) -> (r: bool)
    ensures
        r == entries(*m).contains_key(id),
{
    m.contains_key(&id)
}

/// Calls `DashMap::insert`. The contract claims that the entry is set, in place of an earlier
/// one with the key, which is returned. The map is borrowed exclusively, so that nobody else
/// changes it and no guard into it is held.
#[verifier::external_body]
fn map_insert(m: &mut DashMap<u64, CommandEntry>, id: u64, entry: CommandEntry) -> (r: Option<
    CommandEntry,
>)
    ensures
        entries(*final(m)) == entries(*old(m)).insert(id, entry@),
        r is Some <==> entries(*old(m)).contains_key(id),
        r matches Some(e) ==> e@ == entries(*old(m))[id],
{
    m.insert(id, entry)
}

/// Calls `DashMap::get` and clones the entry. The contract claims that the entry is the one
/// with the key, and that there is none where the key is missing.
#[verifier::external_body]
fn map_get(m: &DashMap<u64, CommandEntry>, id: u64) -> (r: Option<CommandEntry>)
    ensures
        r is Some <==> entries(*m).contains_key(id),
        r matches Some(e) ==> e@ == entries(*m)[id],
{
    m.get(&id).map(|e| e.value().clone())
}

/// Calls `DashMap::remove`. The contract claims that the entry with the key is gone and that
/// it is returned if it was there. The map is borrowed exclusively, so that nobody else
/// changes it and no guard into it is held.
#[verifier::external_body]
fn map_remove(m: &mut DashMap<u64, CommandEntry>, id: u64) -> (r: Option<(u64, CommandEntry)>)
    ensures
        entries(*final(m)) == entries(*old(m)).remove(id),
        r is Some <==> entries(*old(m)).contains_key(id),
        r matches Some(e) ==> e.0 == id && e.1@ == entries(*old(m))[id],
{
    m.remove(&id)
}

/// Calls `DashMap::retain` with `CommandEntry::is_fresh`. The contract claims that exactly
/// the entries for which it holds stay, as they were. The map is borrowed exclusively, so
/// that nobody else changes it and no guard into it is held.
#[verifier::external_body]
fn map_retain_fresh(m: &mut DashMap<u64, CommandEntry>, now: Instant)
    ensures
        entries(*final(m)) == fresh_entries(entries(*old(m)), now),
{
    m.retain(|_, e| e.is_fresh(now))
}

/// Calls `DashMap::len`. The contract claims that it counts the entries, which are finitely
/// many.
#[verifier::external_body]
fn map_len(m: &DashMap<u64, CommandEntry>) -> (n: usize)
    ensures
        counts(entries(*m), n),
{
    m.len()
}

/// Calls `DashMap::iter` and clones each entry. The contract claims that each entry comes
/// once; the order is left open.
#[verifier::external_body]
fn map_items(m: &DashMap<u64, CommandEntry>) -> (items: Vec<(u64, CommandEntry)>)
    ensures
        lists(entries(*m), items@),
{
    m.iter().map(|e| (*e.key(), e.value().clone())).collect()
}

/// The backlog. It can only be changed by who borrows it exclusively.
pub struct Backlog {
    map: DashMap<u64, CommandEntry>,
}

impl View for Backlog {
    type V = Map<u64, CommandEntryView>;

    closed spec fn view(&self) -> Map<u64, CommandEntryView> {
        entries(self.map)
    }
}

impl Backlog {
    /// An empty backlog.
    pub fn new() -> (b: Backlog)
        ensures
            b@ == no_entries(),
    {
        Backlog { map: map_new() }
    }

    /// Whether the command `id` is in the backlog.
    pub fn contains_key(&self, id: u64) -> (r: bool)
        ensures
            r == self@.contains_key(id),
    {
        map_contains_key(&self.map, id)
    }

    /// Puts `entry` in the backlog under `id`, in place of an earlier one.
    pub fn insert(&mut self, id: u64, entry: CommandEntry)
        ensures
            final(self)@ == old(self)@.insert(id, entry@),
    {
        let _ = map_insert(&mut self.map, id, entry);
    }

    /// The command `id`, if it is in the backlog.
    pub fn get(&self, id: u64) -> (r: Option<CommandEntry>)
        ensures
            r is Some <==> self@.contains_key(id),
            r matches Some(e) ==> e@ == self@[id],
    {
        map_get(&self.map, id)
    }

    /// Takes the command `id` out of the backlog and says whether it was there.
    pub fn remove(&mut self, id: u64) -> (found: bool)
        ensures
            final(self)@ == old(self)@.remove(id),
            found == old(self)@.contains_key(id),
    {
        map_remove(&mut self.map, id).is_some()
    }

    /// Drops the commands whose lifetime is over at `now`.
    pub fn retain_fresh(&mut self, now: Instant)
        ensures
            final(self)@ == fresh_entries(old(self)@, now),
    {
        map_retain_fresh(&mut self.map, now);
    }

    /// The number of commands in the backlog.
    pub fn len(&self) -> (n: usize)
        ensures
            counts(self@, n),
    {
        map_len(&self.map)
    }

    /// The commands in the backlog with their keys, in no particular order.
    pub fn items(&self) -> (items: Vec<(u64, CommandEntry)>)
        ensures
            lists(self@, items@),
    {
        map_items(&self.map)
    }
}

/// Law: a listing of the backlog has as many items as the backlog has commands.
pub proof fn law_listing_is_complete(m: Map<u64, CommandEntryView>, items: Seq<(u64, CommandEntry)>)
    requires
        lists(m, items),
    ensures
        m.dom().finite(),
        items.len() == m.dom().len(),
{
    let ids = items.map_values(|e: (u64, CommandEntry)| e.0);
    assert(ids.no_duplicates());
    ids.unique_seq_to_set();
    assert(ids.to_set() =~= m.dom()) by {
        assert forall|id: u64| ids.to_set().contains(id) <==> m.dom().contains(id) by {
            if m.contains_key(id) {
                let i = choose|i: int| 0 <= i < items.len() && (#[trigger] items[i]).0 == id;
                assert(ids[i] == id);
            }
            if ids.contains(id) {
                let i = choose|i: int| 0 <= i < ids.len() && ids[i] == id;
                assert(items[i].0 == id);
            }
        }
    }
    vstd::seq_lib::seq_to_set_is_finite(ids);
}

} // verus!
