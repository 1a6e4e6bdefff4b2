//! The concurrent maps of the server state (`dashmap`), each given a
//! mathematical content and reached through the few operations the state
//! uses.
//!
//! Keys are `String`s; since `String`'s equality and hashing are those of
//! its characters, a table's content is a map from character sequences.

use dashmap::{DashMap, DashSet};
use vstd::prelude::*;

use crate::model::{PeerAddr, Timestamp};

verus! {

#[verifier::external_type_specification]
#[verifier::external_body]
#[verifier::reject_recursive_types(K)]
#[verifier::reject_recursive_types(V)]
#[verifier::reject_recursive_types(S)]
pub struct ExDashMap<K, V, S>(DashMap<K, V, S>);

#[verifier::external_type_specification]
#[verifier::external_body]
#[verifier::reject_recursive_types(K)]
#[verifier::reject_recursive_types(S)]
pub struct ExDashSet<K, S>(DashSet<K, S>);

/// A session kept by the authentication manager: who it belongs to and
/// when it was created.
#[derive(Clone, Debug)]
pub struct SessionRecord {
    pub username: String,
    pub created_at: Timestamp,
}

/// Content of a table from user names to peer addresses.
pub uninterp spec fn client_table(m: DashMap<String, PeerAddr>) -> Map<Seq<char>, PeerAddr>;

/// Content of a table from identifiers to instants (nanoseconds).
pub uninterp spec fn stamp_table(m: DashMap<String, u64>) -> Map<Seq<char>, u64>;

/// Content of a table from user names to rate windows (start in
/// nanoseconds, count).
pub uninterp spec fn window_table(m: DashMap<String, (u64, u32)>) -> Map<Seq<char>, (u64, u32)>;

/// Content of a table from names to sets of names.
pub uninterp spec fn member_index(m: DashMap<String, DashSet<String>>) -> Map<Seq<char>, Set<Seq<char>>>;

/// Content of a table from session tokens to (user name, creation instant).
pub uninterp spec fn session_table(m: DashMap<String, SessionRecord>) -> Map<Seq<char>, (Seq<char>, Timestamp)>;

/// `entries` lists every entry of `table` exactly once, keys by their views.
pub open spec fn lists_entries<V>(entries: Seq<(String, V)>, table: Map<Seq<char>, V>) -> bool {
    &&& forall|i: int| 0 <= i < entries.len() ==> #[trigger] table.contains_key(entries[i].0@)
        && table[entries[i].0@] == entries[i].1
    &&& forall|k: Seq<char>| #[trigger] table.contains_key(k) ==> exists|i: int|
        0 <= i < entries.len() && #[trigger] entries[i].0@ == k
    &&& forall|i: int, j: int| 0 <= i < entries.len() && 0 <= j < entries.len() && i != j
        ==> entries[i].0@ != entries[j].0@
}

/// `names` lists every element of `set` exactly once, by their views.
pub open spec fn lists_set(names: Seq<String>, set: Set<Seq<char>>) -> bool {
    &&& forall|i: int| 0 <= i < names.len() ==> #[trigger] set.contains(names[i]@)
    &&& forall|k: Seq<char>| #[trigger] set.contains(k) ==> exists|i: int|
        0 <= i < names.len() && #[trigger] names[i]@ == k
    &&& forall|i: int, j: int| 0 <= i < names.len() && 0 <= j < names.len() && i != j
        ==> names[i]@ != names[j]@
}

// ---------------------------------------------------------------- clients

/// `DashMap::new`: an empty table.
#[verifier::external_body]
pub(crate) fn client_table_new() -> (res: DashMap<String, PeerAddr>)
    ensures
        client_table(res) =~= Map::empty(),
{
    DashMap::new()
}

/// `DashMap::insert`: the key now maps to the value; other entries stay.
#[verifier::external_body]
pub(crate) fn client_table_insert(m: &mut DashMap<String, PeerAddr>, k: String, v: PeerAddr)
    ensures
        client_table(*final(m)) == client_table(*old(m)).insert(k@, v),
{
    m.insert(k, v);
}

/// `DashMap::remove`: the key no longer has an entry; other entries stay.
#[verifier::external_body]
pub(crate) fn client_table_remove(m: &mut DashMap<String, PeerAddr>, k: &str)
    ensures
        client_table(*final(m)) == client_table(*old(m)).remove(k@),
{
    m.remove(k);
}

/// `DashMap::get`, copying out the value.
#[verifier::external_body]
pub(crate) fn client_table_get(m: &DashMap<String, PeerAddr>, k: &str) -> (res: Option<PeerAddr>)
    ensures
        res == (if client_table(*m).contains_key(k@) { Some(client_table(*m)[k@]) } else { None::<PeerAddr> }),
{
    match m.get(k) {
        Some(entry) => Some(*entry.value()),
        None => None,
    }
}

/// `DashMap::contains_key`.
#[verifier::external_body]
pub(crate) fn client_table_contains(m: &DashMap<String, PeerAddr>, k: &str) -> (res: bool)
    ensures
        res == client_table(*m).contains_key(k@),
{
    m.contains_key(k)
}

/// `DashMap::len`: the number of entries.
#[verifier::external_body]
pub(crate) fn client_table_len(m: &DashMap<String, PeerAddr>) -> (res: usize)
    ensures
        res == client_table(*m).dom().len(),
{
    m.len()
}

/// `DashMap::iter`, copying out each entry; the order is unspecified.
#[verifier::external_body]
pub(crate) fn client_table_entries(m: &DashMap<String, PeerAddr>) -> (res: Vec<(String, PeerAddr)>)
    ensures
        lists_entries(res@, client_table(*m)),
{
    m.iter().map(|e| (e.key().clone(), *e.value())).collect()
}

// ---------------------------------------------------------------- stamps

/// `DashMap::new`: an empty table.
#[verifier::external_body]
pub(crate) fn stamp_table_new() -> (res: DashMap<String, u64>)
    ensures
        stamp_table(res) =~= Map::empty(),
{
    DashMap::new()
}

/// `DashMap::insert`: the key now maps to the value; other entries stay.
#[verifier::external_body]
pub(crate) fn stamp_table_insert(m: &mut DashMap<String, u64>, k: String, v: u64)
    ensures
        stamp_table(*final(m)) == stamp_table(*old(m)).insert(k@, v),
{
    m.insert(k, v);
}

/// `DashMap::remove`: the key no longer has an entry; other entries stay.
#[verifier::external_body]
pub(crate) fn stamp_table_remove(m: &mut DashMap<String, u64>, k: &str)
    ensures
        stamp_table(*final(m)) == stamp_table(*old(m)).remove(k@),
{
    m.remove(k);
}

/// `DashMap::contains_key`.
#[verifier::external_body]
pub(crate) fn stamp_table_contains(m: &DashMap<String, u64>, k: &str) -> (res: bool)
    ensures
        res == stamp_table(*m).contains_key(k@),
{
    m.contains_key(k)
}

/// `DashMap::get` on the seen-identifier table: the stamp of `k`, if any.
#[verifier::external_body]
pub(crate) fn stamp_table_get(m: &DashMap<String, u64>, k: &str) -> (res: Option<u64>)
    ensures
        res == (if stamp_table(*m).contains_key(k@) { Some(stamp_table(*m)[k@]) } else { None::<u64> }),
{
    match m.get(k) {
        Some(e) => Some(*e.value()),
        None => None,
    }
}

/// `DashMap::iter`, copying out each entry; the order is unspecified.
#[verifier::external_body]
pub(crate) fn stamp_table_entries(m: &DashMap<String, u64>) -> (res: Vec<(String, u64)>)
    ensures
        lists_entries(res@, stamp_table(*m)),
{
    m.iter().map(|e| (e.key().clone(), *e.value())).collect()
}

// ---------------------------------------------------------------- windows

/// `DashMap::new`: an empty table.
#[verifier::external_body]
pub(crate) fn window_table_new() -> (res: DashMap<String, (u64, u32)>)
    ensures
        window_table(res) =~= Map::empty(),
{
    DashMap::new()
}

/// `DashMap::insert`: the key now maps to the value; other entries stay.
#[verifier::external_body]
pub(crate) fn window_table_insert(m: &mut DashMap<String, (u64, u32)>, k: String, v: (u64, u32))
    ensures
        window_table(*final(m)) == window_table(*old(m)).insert(k@, v),
{
    m.insert(k, v);
}

/// `DashMap::remove`: the key no longer has an entry; other entries stay.
#[verifier::external_body]
pub(crate) fn window_table_remove(m: &mut DashMap<String, (u64, u32)>, k: &str)
    ensures
        window_table(*final(m)) == window_table(*old(m)).remove(k@),
{
    m.remove(k);
}

/// `DashMap::get`, copying out the value.
#[verifier::external_body]
pub(crate) fn window_table_get(m: &DashMap<String, (u64, u32)>, k: &str) -> (res: Option<(u64, u32)>)
    ensures
        res == (if window_table(*m).contains_key(k@) { Some(window_table(*m)[k@]) } else { None::<(u64, u32)> }),
{
    match m.get(k) {
        Some(entry) => Some(*entry.value()),
        None => None,
    }
}

// ---------------------------------------------------------------- member index

/// `DashMap::new`: an empty index.
#[verifier::external_body]
pub(crate) fn member_index_new() -> (res: DashMap<String, DashSet<String>>)
    ensures
        member_index(res) =~= Map::empty(),
{
    DashMap::new()
}

/// The set of `k` in `idx`, or the empty set when `k` has no entry.
pub open spec fn set_of(idx: Map<Seq<char>, Set<Seq<char>>>, k: Seq<char>) -> Set<Seq<char>> {
    if idx.contains_key(k) {
        idx[k]
    } else {
        Set::empty()
    }
}

/// `DashMap::entry(..).or_default()`: `k` has an entry afterwards (an
/// empty set if it had none); other entries stay.
#[verifier::external_body]
pub(crate) fn member_index_ensure(m: &mut DashMap<String, DashSet<String>>, k: &str)
    ensures
        member_index(*final(m)) == member_index(*old(m)).insert(k@, set_of(member_index(*old(m)), k@)),
{
    m.entry(k.to_string()).or_default();
}

/// `DashMap::entry(..).or_default().insert(..)`: `member` is added to the
/// set of `k`, which is created empty first if missing; other entries stay.
#[verifier::external_body]
pub(crate) fn member_index_add(m: &mut DashMap<String, DashSet<String>>, k: &str, member: &str)
    ensures
        member_index(*final(m)) == member_index(*old(m)).insert(k@, set_of(member_index(*old(m)), k@).insert(member@)),
{
    m.entry(k.to_string()).or_default().insert(member.to_string());
}

/// `DashSet::remove` on the set of `k`: `member` leaves that set; other
/// entries stay. Nothing changes when `k` has no entry.
#[verifier::external_body]
pub(crate) fn member_index_remove_member(m: &mut DashMap<String, DashSet<String>>, k: &str, member: &str)
    ensures
        member_index(*final(m)) == (if member_index(*old(m)).contains_key(k@) {
            member_index(*old(m)).insert(k@, member_index(*old(m))[k@].remove(member@))
        } else {
            member_index(*old(m))
        }),
{
    if let Some(entry) = m.get(k) {
        entry.value().remove(member);
    }
}

/// `DashMap::remove`: `k` no longer has an entry; other entries stay.
#[verifier::external_body]
pub(crate) fn member_index_remove_key(m: &mut DashMap<String, DashSet<String>>, k: &str)
    ensures
        member_index(*final(m)) == member_index(*old(m)).remove(k@),
{
    m.remove(k);
}

/// `DashMap::contains_key`.
#[verifier::external_body]
pub(crate) fn member_index_contains(m: &DashMap<String, DashSet<String>>, k: &str) -> (res: bool)
    ensures
        res == member_index(*m).contains_key(k@),
{
    m.contains_key(k)
}

/// `DashMap::len`: the number of keys.
#[verifier::external_body]
pub(crate) fn member_index_len(m: &DashMap<String, DashSet<String>>) -> (res: usize)
    ensures
        res == member_index(*m).dom().len(),
{
    m.len()
}

/// `DashSet::contains` on the set of `k` (false when `k` has no entry).
#[verifier::external_body]
pub(crate) fn member_index_has(m: &DashMap<String, DashSet<String>>, k: &str, member: &str) -> (res: bool)
    ensures
        res == set_of(member_index(*m), k@).contains(member@),
{
    match m.get(k) {
        Some(entry) => entry.value().contains(member),
        None => false,
    }
}

/// `DashSet::is_empty` on the set of `k` (true when `k` has no entry).
#[verifier::external_body]
pub(crate) fn member_index_set_is_empty(m: &DashMap<String, DashSet<String>>, k: &str) -> (res: bool)
    ensures
        res == (set_of(member_index(*m), k@).len() == 0),
{
    match m.get(k) {
        Some(entry) => entry.value().is_empty(),
        None => true,
    }
}

/// `DashSet::iter` on the set of `k`, copying out each element (nothing
/// when `k` has no entry); the order is unspecified.
#[verifier::external_body]
pub(crate) fn member_index_members(m: &DashMap<String, DashSet<String>>, k: &str) -> (res: Vec<String>)
    ensures
        lists_set(res@, set_of(member_index(*m), k@)),
{
    match m.get(k) {
        Some(entry) => entry.value().iter().map(|e| e.key().clone()).collect(),
        None => Vec::new(),
    }
}

// ---------------------------------------------------------------- sessions

/// `DashMap::new`: an empty table.
#[verifier::external_body]
pub(crate) fn session_table_new() -> (res: DashMap<String, SessionRecord>)
    ensures
        session_table(res) =~= Map::empty(),
{
    DashMap::new()
}

/// `DashMap::insert`: the token now maps to the record; other entries stay.
#[verifier::external_body]
pub(crate) fn session_table_insert(m: &mut DashMap<String, SessionRecord>, k: String, v: SessionRecord)
    ensures
        session_table(*final(m)) == session_table(*old(m)).insert(k@, (v.username@, v.created_at)),
{
    m.insert(k, v);
}

/// `DashMap::remove`: the token no longer has an entry; reports whether
/// it had one.
#[verifier::external_body]
pub(crate) fn session_table_remove(m: &mut DashMap<String, SessionRecord>, k: &str) -> (res: bool)
    ensures
        session_table(*final(m)) == session_table(*old(m)).remove(k@),
        res == session_table(*old(m)).contains_key(k@),
{
    m.remove(k).is_some()
}

/// `DashMap::get`, copying out the user name and creation instant.
#[verifier::external_body]
pub(crate) fn session_table_get(m: &DashMap<String, SessionRecord>, k: &str) -> (res: Option<(String, Timestamp)>)
    ensures
        match res {
            Some(p) => session_table(*m).contains_key(k@) && session_table(*m)[k@] == (p.0@, p.1),
            None => !session_table(*m).contains_key(k@),
        },
{
    match m.get(k) {
        Some(entry) => Some((entry.value().username.clone(), entry.value().created_at)),
        None => None,
    }
}

/// `DashMap::len`: the number of sessions.
#[verifier::external_body]
pub(crate) fn session_table_len(m: &DashMap<String, SessionRecord>) -> (res: usize)
    ensures
        res == session_table(*m).dom().len(),
{
    m.len()
}

/// `DashMap::iter`, copying out each entry; the order is unspecified.
#[verifier::external_body]
pub(crate) fn session_table_entries(m: &DashMap<String, SessionRecord>) -> (res: Vec<(String, SessionRecord)>)
    ensures
        forall|i: int| 0 <= i < res@.len() ==> #[trigger] session_table(*m).contains_key(res@[i].0@)
            && session_table(*m)[res@[i].0@] == (res@[i].1.username@, res@[i].1.created_at),
        forall|k: Seq<char>| #[trigger] session_table(*m).contains_key(k) ==> exists|i: int|
            0 <= i < res@.len() && #[trigger] res@[i].0@ == k,
        forall|i: int, j: int| 0 <= i < res@.len() && 0 <= j < res@.len() && i != j
            ==> #[trigger] res@[i].0@ != #[trigger] res@[j].0@,
{
    m.iter().map(|e| (e.key().clone(), e.value().clone())).collect()
}

} // verus!
