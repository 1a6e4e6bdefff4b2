//! Shared server state: who is connected, which rooms exist and who is in
//! them, per-user message rate windows and the identifiers of recently
//! seen direct messages.

use dashmap::{DashMap, DashSet};
use vstd::prelude::*;

use crate::collections::{
    client_table, client_table_contains, client_table_entries, client_table_get, client_table_insert,
    client_table_len, client_table_new, client_table_remove, lists_entries, lists_set, member_index,
    member_index_add, member_index_contains, member_index_ensure, member_index_has, member_index_len, member_index_members,
    member_index_new, member_index_remove_key, member_index_remove_member, member_index_set_is_empty, set_of,
    stamp_table, stamp_table_contains, stamp_table_entries, stamp_table_get, stamp_table_insert, stamp_table_new,
    stamp_table_remove, window_table, window_table_get, window_table_insert, window_table_new,
    window_table_remove,
};
use crate::clock::{instant_now, monotonic_nanos};
use std::time::Instant;
use crate::model::PeerAddr;

verus! {

/// Length of a rate-limit window, in nanoseconds.
pub const RATE_WINDOW_NS: u64 = 1_000_000_000;

/// How long a message identifier is remembered, in nanoseconds.
pub const SEEN_ID_TTL_NS: u64 = 3_600_000_000_000;

/// The rooms that always exist, even when empty.
pub open spec fn fixed_room(r: Seq<char>) -> bool {
    r == "#geral"@ || r == "#ajuda"@ || r == "#dev"@
}

/// A character allowed in a user name: ASCII letter or digit, `_` or `-`.
pub open spec fn username_char_ok(c: char) -> bool {
    ('0' <= c && c <= '9') || ('A' <= c && c <= 'Z') || ('a' <= c && c <= 'z') || c == '_' || c == '-'
}

/// The number of bytes of the UTF-8 encoding of `s`, as `str::len`
/// reports it.
pub open spec fn byte_len(s: Seq<char>) -> int {
    (vstd::utf8::encode_utf8(s).len() as usize) as int
}

/// The answer of user name validation: 3 to 20 bytes, all characters allowed.
pub open spec fn username_verdict(u: Seq<char>) -> Result<(), Seq<char>> {
    if byte_len(u) < 3 {
        Err("Username deve ter no mínimo 3 caracteres"@)
    } else if byte_len(u) > 20 {
        Err("Username deve ter no máximo 20 caracteres"@)
    } else if forall|i: int| 0 <= i < u.len() ==> #[trigger] username_char_ok(u[i]) {
        Ok(())
    } else {
        Err("Username só pode conter letras ASCII, números, underscore (_) e hífen (-)"@)
    }
}

/// `idx` with `member` taken out of the set of `key`; the key is dropped
/// when its set becomes empty, unless `keep_empty`.
pub open spec fn drop_member(
    idx: Map<Seq<char>, Set<Seq<char>>>,
    key: Seq<char>,
    member: Seq<char>,
    keep_empty: bool,
) -> Map<Seq<char>, Set<Seq<char>>> {
    if idx.contains_key(key) {
        let s = idx[key].remove(member);
        if s.len() == 0 && !keep_empty {
            idx.remove(key)
        } else {
            idx.insert(key, s)
        }
    } else {
        idx
    }
}

/// `idx` with `member` added to the set of `key` (created if missing).
pub open spec fn add_member(idx: Map<Seq<char>, Set<Seq<char>>>, key: Seq<char>, member: Seq<char>) -> Map<
    Seq<char>,
    Set<Seq<char>>,
> {
    idx.insert(key, set_of(idx, key).insert(member))
}

/// The rooms `rooms` after `user` leaves every room in `left`: each such
/// room loses the user and is dropped when it becomes empty and is not
/// fixed.
pub open spec fn leave_rooms(
    rooms: Map<Seq<char>, Set<Seq<char>>>,
    left: Set<Seq<char>>,
    user: Seq<char>,
) -> Map<Seq<char>, Set<Seq<char>>> {
    Map::new(
        |r: Seq<char>|
            rooms.contains_key(r) && !(left.contains(r) && rooms[r].remove(user).len() == 0
                && !fixed_room(r)),
        |r: Seq<char>|
            if left.contains(r) {
                rooms[r].remove(user)
            } else {
                rooms[r]
            },
    )
}

/// The verdict of the rate limiter on one message at time `now` (ns):
/// whether it passes, and the user's new window.
pub open spec fn rate_step(window: Option<(u64, u32)>, limit: u32, now: u64) -> (bool, Option<(u64, u32)>) {
    match window {
        None => (true, Some((now, 1u32))),
        Some(w) => if now as int - w.0 as int >= RATE_WINDOW_NS as int {
            (true, Some((now, 1u32)))
        } else if w.1 < limit {
            (true, Some((w.0, (w.1 + 1) as u32)))
        } else {
            (false, Some(w))
        },
    }
}

/// The remembered identifiers that are still fresh at `now` (ns).
pub open spec fn fresh_ids(seen: Map<Seq<char>, u64>, now: u64) -> Map<Seq<char>, u64> {
    seen.restrict(seen.dom().filter(|k: Seq<char>| (now as int) - (seen[k] as int) < (SEEN_ID_TTL_NS as int)))
}

/// The value of `k` in `m`, if any.
pub open spec fn lookup<V>(m: Map<Seq<char>, V>, k: Seq<char>) -> Option<V> {
    if m.contains_key(k) {
        Some(m[k])
    } else {
        None
    }
}

/// Whether an identifier first seen at `t` is forgotten at `now`.
pub open spec fn id_expired(t: u64, now: u64) -> bool {
    (now as int) - (t as int) >= (SEEN_ID_TTL_NS as int)
}

/// Taking a finite set `s` out of an index keeps the view of every key's
/// set as `set_of` sees it: after `drop_member`, `key`'s set is its old
/// set without `member`, and other keys are untouched.
pub proof fn lemma_set_of_drop(
    idx: Map<Seq<char>, Set<Seq<char>>>,
    key: Seq<char>,
    member: Seq<char>,
    keep_empty: bool,
)
    requires
        idx.contains_key(key) ==> idx[key].finite(),
    ensures
        forall|k: Seq<char>| #[trigger] set_of(drop_member(idx, key, member, keep_empty), k) == (if k == key {
            set_of(idx, key).remove(member)
        } else {
            set_of(idx, k)
        }),
{
    if idx.contains_key(key) {
        let s = idx[key].remove(member);
        if s.len() == 0 && !keep_empty {
            s.lemma_len0_is_empty();
            assert(s =~= Set::empty());
        }
    } else {
        assert(Set::<Seq<char>>::empty().remove(member) =~= Set::empty());
    }
    assert forall|k: Seq<char>| #[trigger] set_of(drop_member(idx, key, member, keep_empty), k) == (if k == key {
        set_of(idx, key).remove(member)
    } else {
        set_of(idx, k)
    }) by {
        if k == key && idx.contains_key(key) {
            let s = idx[key].remove(member);
            if s.len() == 0 && !keep_empty {
                s.lemma_len0_is_empty();
            }
        }
    }
}

/// The same for leaving a set of rooms at once.
pub proof fn lemma_set_of_leave(rooms: Map<Seq<char>, Set<Seq<char>>>, left: Set<Seq<char>>, user: Seq<char>)
    requires
        forall|r: Seq<char>| #[trigger] rooms.contains_key(r) ==> rooms[r].finite(),
    ensures
        forall|r: Seq<char>| #[trigger] set_of(leave_rooms(rooms, left, user), r) == (if left.contains(r) {
            set_of(rooms, r).remove(user)
        } else {
            set_of(rooms, r)
        }),
{
    assert forall|r: Seq<char>| #[trigger] set_of(leave_rooms(rooms, left, user), r) == (if left.contains(r) {
        set_of(rooms, r).remove(user)
    } else {
        set_of(rooms, r)
    }) by {
        if left.contains(r) {
            if rooms.contains_key(r) {
                let s = rooms[r].remove(user);
                if s.len() == 0 && !fixed_room(r) {
                    s.lemma_len0_is_empty();
                }
            } else {
                assert(Set::<Seq<char>>::empty().remove(user) =~= Set::empty());
            }
        }
    }
}

/// After an identifier is checked at `now`, checking it again at the same
/// instant reports it as already seen.
pub proof fn law_second_check_is_duplicate(seen: Map<Seq<char>, u64>, id: Seq<char>, now: u64)
    ensures
        ({
            let f = fresh_ids(seen, now);
            let after = if f.contains_key(id) { f } else { f.insert(id, now) };
            fresh_ids(after, now).contains_key(id)
        }),
{
    let f = fresh_ids(seen, now);
    let after = if f.contains_key(id) { f } else { f.insert(id, now) };
    if f.contains_key(id) {
        assert(seen.dom().filter(|k: Seq<char>| (now as int) - (seen[k] as int) < (SEEN_ID_TTL_NS as int)).contains(id));
        assert((now as int) - (after[id] as int) < (SEEN_ID_TTL_NS as int));
    } else {
        assert(after[id] == now);
    }
    assert(after.dom().filter(|k: Seq<char>| (now as int) - (after[k] as int) < (SEEN_ID_TTL_NS as int)).contains(id));
}

/// Within one window, the rate limiter lets through at most `max(limit, 1)`
/// messages, and it refuses exactly when the window is still open and
/// already holds `limit` messages.
pub proof fn law_rate_window_is_capped(window: Option<(u64, u32)>, limit: u32, now: u64)
    requires
        window matches Some(w) ==> w.1 <= (if limit == 0 { 1 } else { limit }),
    ensures
        rate_step(window, limit, now).1 matches Some(w) && w.1 <= (if limit == 0 { 1 } else { limit }),
        !rate_step(window, limit, now).0 <==> (window matches Some(w) && (now as int) - (w.0 as int) < (RATE_WINDOW_NS as int) && w.1 >= limit),
        !rate_step(window, limit, now).0 ==> rate_step(window, limit, now).1 == window,
{
}

/// The windows after the rate limiter has seen `calls` (a user and an
/// instant in ns each), one after the other, starting from `ws`.
pub open spec fn windows_after(ws: Map<Seq<char>, (u64, u32)>, calls: Seq<(Seq<char>, u64)>, limit: u32) -> Map<
    Seq<char>,
    (u64, u32),
>
    decreases calls.len(),
{
    if calls.len() == 0 {
        ws
    } else {
        let m = windows_after(ws, calls.drop_last(), limit);
        let (u, t) = calls.last();
        m.insert(u, rate_step(lookup(m, u), limit, t).1.unwrap())
    }
}

/// The verdicts of the rate limiter on `calls`, in order.
pub open spec fn call_verdicts(ws: Map<Seq<char>, (u64, u32)>, calls: Seq<(Seq<char>, u64)>, limit: u32) -> Seq<bool>
    decreases calls.len(),
{
    if calls.len() == 0 {
        Seq::empty()
    } else {
        let m = windows_after(ws, calls.drop_last(), limit);
        let (u, t) = calls.last();
        call_verdicts(ws, calls.drop_last(), limit).push(rate_step(lookup(m, u), limit, t).0)
    }
}

/// The instants of the calls of `u` among `calls`, in order.
pub open spec fn times_of(calls: Seq<(Seq<char>, u64)>, u: Seq<char>) -> Seq<u64>
    decreases calls.len(),
{
    if calls.len() == 0 {
        Seq::empty()
    } else if calls.last().0 == u {
        times_of(calls.drop_last(), u).push(calls.last().1)
    } else {
        times_of(calls.drop_last(), u)
    }
}

/// The verdicts on the calls of `u` among `calls` with verdicts `vs`.
pub open spec fn verdicts_of(calls: Seq<(Seq<char>, u64)>, vs: Seq<bool>, u: Seq<char>) -> Seq<bool>
    decreases calls.len(),
{
    if calls.len() == 0 || vs.len() == 0 {
        Seq::empty()
    } else if calls.last().0 == u {
        verdicts_of(calls.drop_last(), vs.drop_last(), u).push(vs.last())
    } else {
        verdicts_of(calls.drop_last(), vs.drop_last(), u)
    }
}

/// The window of one user after its calls at the instants `ts`, starting
/// from window `w`.
pub open spec fn user_window_after(w: Option<(u64, u32)>, ts: Seq<u64>, limit: u32) -> Option<(u64, u32)>
    decreases ts.len(),
{
    if ts.len() == 0 {
        w
    } else {
        rate_step(user_window_after(w, ts.drop_last(), limit), limit, ts.last()).1
    }
}

/// The verdicts on one user's calls at the instants `ts`, starting from
/// window `w`.
pub open spec fn user_verdicts(w: Option<(u64, u32)>, ts: Seq<u64>, limit: u32) -> Seq<bool>
    decreases ts.len(),
{
    if ts.len() == 0 {
        Seq::empty()
    } else {
        user_verdicts(w, ts.drop_last(), limit).push(
            rate_step(user_window_after(w, ts.drop_last(), limit), limit, ts.last()).0,
        )
    }
}

/// Users do not interfere in the rate limiter: after any sequence of calls
/// of several users, the window of `u` and the verdicts on `u`'s calls are
/// those of `u`'s calls alone.
pub proof fn law_rate_limit_is_per_user(
    ws: Map<Seq<char>, (u64, u32)>,
    calls: Seq<(Seq<char>, u64)>,
    limit: u32,
    u: Seq<char>,
)
    ensures
        lookup(windows_after(ws, calls, limit), u) == user_window_after(lookup(ws, u), times_of(calls, u), limit),
        verdicts_of(calls, call_verdicts(ws, calls, limit), u) == user_verdicts(
            lookup(ws, u),
            times_of(calls, u),
            limit,
        ),
    decreases calls.len(),
{
    if calls.len() > 0 {
        let d = calls.drop_last();
        law_rate_limit_is_per_user(ws, d, limit, u);
        let vs = call_verdicts(ws, calls, limit);
        assert(vs.drop_last() =~= call_verdicts(ws, d, limit));
        assert(vs.len() == calls.len()) by {
            lemma_call_verdicts_len(ws, calls, limit);
        }
        if calls.last().0 == u {
            assert(times_of(calls, u).drop_last() =~= times_of(d, u));
        }
    }
}

/// There is one verdict per call.
proof fn lemma_call_verdicts_len(ws: Map<Seq<char>, (u64, u32)>, calls: Seq<(Seq<char>, u64)>, limit: u32)
    ensures
        call_verdicts(ws, calls, limit).len() == calls.len(),
    decreases calls.len(),
{
    if calls.len() > 0 {
        lemma_call_verdicts_len(ws, calls.drop_last(), limit);
    }
}

/// There is one verdict per call of the user.
proof fn lemma_user_verdicts_len(w: Option<(u64, u32)>, ts: Seq<u64>, limit: u32)
    ensures
        user_verdicts(w, ts, limit).len() == ts.len(),
    decreases ts.len(),
{
    if ts.len() > 0 {
        lemma_user_verdicts_len(w, ts.drop_last(), limit);
    }
}

/// How many messages a window lets through: `limit`, and at least one.
pub open spec fn window_cap(limit: u32) -> int {
    if limit == 0 {
        1
    } else {
        limit as int
    }
}

/// Within one window exactly the first messages pass: when a user's calls
/// begin a new window (there was none, or it had run out) and all fall
/// within a second of the first, the first `window_cap(limit)` pass and the
/// others are refused, and the window counts those that passed.
pub proof fn law_first_calls_of_a_window_pass(w: Option<(u64, u32)>, ts: Seq<u64>, limit: u32)
    requires
        ts.len() > 0,
        w matches Some(x) ==> (ts[0] as int - x.0 as int) >= (RATE_WINDOW_NS as int),
        forall|k: int| 0 <= k < ts.len() ==> (#[trigger] ts[k] as int - ts[0] as int) < (RATE_WINDOW_NS as int),
    ensures
        forall|k: int| 0 <= k < ts.len() ==> #[trigger] user_verdicts(w, ts, limit)[k] == (k < window_cap(limit)),
        user_window_after(w, ts, limit) matches Some(x) && x.0 == ts[0] && x.1 == (if (ts.len() as int) < window_cap(
            limit,
        ) {
            ts.len() as int
        } else {
            window_cap(limit)
        }),
    decreases ts.len(),
{
    let n = ts.len();
    lemma_user_verdicts_len(w, ts, limit);
    if n == 1 {
        assert(ts.drop_last() =~= Seq::<u64>::empty());
        assert(ts.last() == ts[0]);
    }
    if n > 1 {
        let d = ts.drop_last();
        lemma_user_verdicts_len(w, d, limit);
        assert forall|k: int| 0 <= k < d.len() implies (#[trigger] d[k] as int - d[0] as int) < (RATE_WINDOW_NS as int) by {
            assert(d[k] == ts[k] && d[0] == ts[0]);
        }
        law_first_calls_of_a_window_pass(w, d, limit);
        assert((ts.last() as int - ts[0] as int) < (RATE_WINDOW_NS as int)) by {
            assert(ts.last() == ts[n - 1]);
        }
        let vs = user_verdicts(w, ts, limit);
        assert forall|k: int| 0 <= k < n implies #[trigger] vs[k] == (k < window_cap(limit)) by {
            if k < n - 1 {
                assert(vs[k] == user_verdicts(w, d, limit)[k]);
            }
        }
    }
}

/// After a window has run out, the next message passes and opens a new
/// window that counts it.
pub proof fn law_expired_window_reopens(w: (u64, u32), limit: u32, now: u64)
    requires
        (now as int - w.0 as int) >= (RATE_WINDOW_NS as int),
    ensures
        rate_step(Some(w), limit, now) == (true, Some((now, 1u32))),
{
}

/// A message the rate limiter refuses leaves the user's window as it was.
pub proof fn law_refused_call_keeps_the_window(w: Option<(u64, u32)>, limit: u32, now: u64)
    requires
        !rate_step(w, limit, now).0,
    ensures
        rate_step(w, limit, now).1 == w,
{
}

/// The addresses of the connected users among `names`, in order.
pub open spec fn names_to_addrs(names: Seq<String>, clients: Map<Seq<char>, PeerAddr>) -> Seq<PeerAddr>
    decreases names.len(),
{
    if names.len() == 0 {
        Seq::empty()
    } else {
        let rest = names_to_addrs(names.drop_last(), clients);
        if clients.contains_key(names.last()@) {
            rest.push(clients[names.last()@])
        } else {
            rest
        }
    }
}

/// `addrs` are the addresses of the users in `keys`, each user once, in some
/// order.
pub open spec fn lists_targets(addrs: Seq<PeerAddr>, clients: Map<Seq<char>, PeerAddr>, keys: Set<Seq<char>>) -> bool {
    exists|ks: Seq<Seq<char>>| #[trigger] ks.to_set() == keys && ks.no_duplicates()
        && addrs == ks.map_values(|k: Seq<char>| clients[k])
}

proof fn lemma_names_to_addrs_step(names: Seq<String>, i: int, clients: Map<Seq<char>, PeerAddr>)
    requires
        0 <= i < names.len(),
    ensures
        names_to_addrs(names.subrange(0, i + 1), clients) == (if clients.contains_key(names[i]@) {
            names_to_addrs(names.subrange(0, i), clients).push(clients[names[i]@])
        } else {
            names_to_addrs(names.subrange(0, i), clients)
        }),
{
    assert(names.subrange(0, i + 1).drop_last() =~= names.subrange(0, i));
}

/// The names among `names` that are connected, in order.
pub open spec fn present_keys(names: Seq<String>, clients: Map<Seq<char>, PeerAddr>) -> Seq<Seq<char>>
    decreases names.len(),
{
    if names.len() == 0 {
        Seq::empty()
    } else {
        let rest = present_keys(names.drop_last(), clients);
        if clients.contains_key(names.last()@) {
            rest.push(names.last()@)
        } else {
            rest
        }
    }
}

proof fn lemma_present_keys(names: Seq<String>, clients: Map<Seq<char>, PeerAddr>)
    ensures
        names_to_addrs(names, clients) == present_keys(names, clients).map_values(|k: Seq<char>| clients[k]),
        forall|k: Seq<char>| #[trigger] present_keys(names, clients).contains(k) <==> (clients.contains_key(k)
            && exists|j: int| 0 <= j < names.len() && #[trigger] names[j]@ == k),
        (forall|a: int, b: int| 0 <= a < names.len() && 0 <= b < names.len() && a != b ==> names[a]@ != names[b]@)
            ==> present_keys(names, clients).no_duplicates(),
    decreases names.len(),
{
    let g = |k: Seq<char>| clients[k];
    if names.len() == 0 {
        assert(present_keys(names, clients).map_values(g) =~= Seq::<PeerAddr>::empty());
    } else {
        let init = names.drop_last();
        lemma_present_keys(init, clients);
        let pk = present_keys(init, clients);
        let last = names.last()@;
        if clients.contains_key(last) {
            assert(pk.push(last).map_values(g) =~= pk.map_values(g).push(g(last)));
        }
        assert forall|k: Seq<char>| #[trigger] present_keys(names, clients).contains(k) <==> (clients.contains_key(k)
            && exists|j: int| 0 <= j < names.len() && #[trigger] names[j]@ == k) by {
            if present_keys(names, clients).contains(k) {
                if pk.contains(k) {
                    let j = choose|j: int| 0 <= j < init.len() && #[trigger] init[j]@ == k;
                    assert(names[j]@ == k);
                } else {
                    let i = choose|i: int| 0 <= i < present_keys(names, clients).len() && present_keys(names, clients)[i] == k;
                    assert(k == last);
                    assert(names[names.len() - 1]@ == k);
                }
            }
            if clients.contains_key(k) && exists|j: int| 0 <= j < names.len() && #[trigger] names[j]@ == k {
                let j = choose|j: int| 0 <= j < names.len() && #[trigger] names[j]@ == k;
                if j < names.len() - 1 {
                    assert(init[j]@ == k);
                    assert(pk.contains(k));
                    if clients.contains_key(last) {
                        let i = choose|i: int| 0 <= i < pk.len() && pk[i] == k;
                        assert(pk.push(last)[i] == k);
                    }
                } else {
                    assert(pk.push(last)[pk.len() as int] == k);
                }
            }
        }
        if forall|a: int, b: int| 0 <= a < names.len() && 0 <= b < names.len() && a != b ==> names[a]@ != names[b]@ {
            assert forall|a: int, b: int| 0 <= a < init.len() && 0 <= b < init.len() && a != b implies init[a]@ != init[b]@ by {
                assert(names[a]@ != names[b]@);
            }
            if clients.contains_key(last) {
                assert(!pk.contains(last)) by {
                    if pk.contains(last) {
                        let j = choose|j: int| 0 <= j < init.len() && #[trigger] init[j]@ == last;
                        assert(names[j]@ != names[names.len() - 1]@);
                    }
                }
                let q = pk.push(last);
                assert forall|a: int, b: int| 0 <= a < q.len() && 0 <= b < q.len() && a != b implies q[a] != q[b] by {
                    if a < pk.len() && b < pk.len() {
                    } else if a < pk.len() {
                        assert(pk.contains(pk[a]));
                    } else {
                        assert(pk.contains(pk[b]));
                    }
                }
            }
        }
    }
}

/// What removing user `u` does: it is no longer connected, its rate window
/// and subscriptions are gone, it leaves every room it had joined (rooms
/// left empty disappear unless fixed), and nothing else changes.
pub open spec fn user_removed(pre: ChatState, post: ChatState, u: Seq<char>) -> bool {
    &&& post.clients_map() == pre.clients_map().remove(u)
    &&& post.windows_map() == pre.windows_map().remove(u)
    &&& post.subs_map() == pre.subs_map().remove(u)
    &&& post.rooms_map() == leave_rooms(pre.rooms_map(), set_of(pre.subs_map(), u), u)
    &&& post.seen_map() == pre.seen_map()
}

/// The content of the server state: connected users and their addresses,
/// rooms and their members, users and the rooms they joined, remembered
/// message identifiers, and rate windows.
pub struct StateView {
    pub clients: Map<Seq<char>, PeerAddr>,
    pub rooms: Map<Seq<char>, Set<Seq<char>>>,
    pub subs: Map<Seq<char>, Set<Seq<char>>>,
    pub seen: Map<Seq<char>, u64>,
    pub windows: Map<Seq<char>, (u64, u32)>,
}

/// Whether the rate limiter lets a message of `u` through at `now` (ns).
pub open spec fn rate_ok(s: StateView, u: Seq<char>, limit: u32, now: u64) -> bool {
    rate_step(lookup(s.windows, u), limit, now).0
}

/// The state after the rate limiter has seen a message of `u` at `now`.
pub open spec fn rated(s: StateView, u: Seq<char>, limit: u32, now: u64) -> StateView {
    StateView { windows: s.windows.insert(u, rate_step(lookup(s.windows, u), limit, now).1.unwrap()), ..s }
}

/// Whether `id` is a remembered identifier at `now` (ns).
pub open spec fn id_dup(s: StateView, id: Seq<char>, now: u64) -> bool {
    fresh_ids(s.seen, now).contains_key(id)
}

/// The state after duplicate detection has seen `id` at `now`: stale
/// identifiers are forgotten and a new one is remembered.
pub open spec fn marked(s: StateView, id: Seq<char>, now: u64) -> StateView {
    StateView {
        seen: if id_dup(s, id, now) {
            fresh_ids(s.seen, now)
        } else {
            fresh_ids(s.seen, now).insert(id, now)
        },
        ..s
    }
}

/// The state after `u` joins room `r`.
pub open spec fn joined(s: StateView, u: Seq<char>, r: Seq<char>) -> StateView {
    StateView { rooms: add_member(s.rooms, r, u), subs: add_member(s.subs, u, r), ..s }
}

/// The state after `u` leaves room `r`.
pub open spec fn parted(s: StateView, u: Seq<char>, r: Seq<char>) -> StateView {
    StateView {
        rooms: drop_member(s.rooms, r, u, fixed_room(r)),
        subs: drop_member(s.subs, u, r, false),
        ..s
    }
}

/// The state after `u` connects from `a`.
pub open spec fn with_client(s: StateView, u: Seq<char>, a: PeerAddr) -> StateView {
    StateView { clients: s.clients.insert(u, a), ..s }
}

/// The state after user `u` is removed entirely.
pub open spec fn without_user(s: StateView, u: Seq<char>) -> StateView {
    StateView {
        clients: s.clients.remove(u),
        windows: s.windows.remove(u),
        subs: s.subs.remove(u),
        rooms: leave_rooms(s.rooms, set_of(s.subs, u), u),
        seen: s.seen,
    }
}

/// `who` is a user connected from `addr`, or `None` when nobody is.
pub open spec fn user_at(clients: Map<Seq<char>, PeerAddr>, addr: PeerAddr, who: Option<Seq<char>>) -> bool {
    match who {
        Some(u) => clients.contains_key(u) && clients[u] == addr,
        None => forall|k: Seq<char>| #[trigger] clients.contains_key(k) ==> clients[k] != addr,
    }
}

/// An identifier seen for the first time at `now` is reported as a
/// duplicate by every check in the hour that follows.
pub proof fn law_new_id_is_duplicate_within_the_hour(s: StateView, id: Seq<char>, now: u64, later: u64)
    requires
        !id_dup(s, id, now),
        now <= later,
        later - now < SEEN_ID_TTL_NS,
    ensures
        id_dup(marked(s, id, now), id, later),
{
    let seen2 = marked(s, id, now).seen;
    assert(seen2[id] == now);
    assert(seen2.dom().filter(|k: Seq<char>| (later as int) - (seen2[k] as int) < (SEEN_ID_TTL_NS as int)).contains(id));
}

/// The server state.
pub struct ChatState {
    /// user name -> address of the connection it is logged in from
    clients: DashMap<String, PeerAddr>,
    /// message id -> instant (ns) it was first seen
    seen_message_ids: DashMap<String, u64>,
    /// room -> its members
    rooms: DashMap<String, DashSet<String>>,
    /// user -> the rooms it joined
    subscriptions: DashMap<String, DashSet<String>>,
    /// user -> (start of its current window in ns, messages in that window)
    rate_counters: DashMap<String, (u64, u32)>,
    /// the monotonic clock's reading when this state was made: the rate
    /// limiter and duplicate detection count nanoseconds from it
    origin: Instant,
    /// the latest clock reading handed out (ns since `origin`)
    last_reading: u64,
}

impl ChatState {
    /// Connected users and their addresses.
    pub closed spec fn clients_map(&self) -> Map<Seq<char>, PeerAddr> {
        client_table(self.clients)
    }

    /// Rooms and their members.
    pub closed spec fn rooms_map(&self) -> Map<Seq<char>, Set<Seq<char>>> {
        member_index(self.rooms)
    }

    /// Users and the rooms they joined.
    pub closed spec fn subs_map(&self) -> Map<Seq<char>, Set<Seq<char>>> {
        member_index(self.subscriptions)
    }

    /// Remembered message identifiers and when they were first seen.
    pub closed spec fn seen_map(&self) -> Map<Seq<char>, u64> {
        stamp_table(self.seen_message_ids)
    }

    /// Rate windows per user.
    pub closed spec fn windows_map(&self) -> Map<Seq<char>, (u64, u32)> {
        window_table(self.rate_counters)
    }

    /// The whole content of the state.
    pub open spec fn model(&self) -> StateView {
        StateView {
            clients: self.clients_map(),
            rooms: self.rooms_map(),
            subs: self.subs_map(),
            seen: self.seen_map(),
            windows: self.windows_map(),
        }
    }

    /// The state's invariant: every table is finite; a user is a member of
    /// a room exactly when the room is among the user's subscriptions;
    /// nobody has an empty subscription set; only fixed rooms can be empty.
    pub closed spec fn wf(&self) -> bool {
        &&& self.clients_map().dom().finite()
        &&& self.rooms_map().dom().finite()
        &&& self.subs_map().dom().finite()
        &&& forall|r: Seq<char>| #[trigger] self.rooms_map().contains_key(r) ==> self.rooms_map()[r].finite()
        &&& forall|u: Seq<char>| #[trigger] self.subs_map().contains_key(u) ==> self.subs_map()[u].finite()
        &&& forall|r: Seq<char>, u: Seq<char>|
            #[trigger] set_of(self.rooms_map(), r).contains(u) <==> #[trigger] set_of(self.subs_map(), u).contains(r)
        &&& forall|u: Seq<char>| #[trigger] self.subs_map().contains_key(u) ==> self.subs_map()[u].len() > 0
        &&& forall|r: Seq<char>| #[trigger] self.rooms_map().contains_key(r) && !fixed_room(r)
            ==> self.rooms_map()[r].len() > 0
    }

    /// An empty state: no clients, no rooms.
    pub fn new() -> (s: Self)
        ensures
            s.wf(),
            s.clients_map() =~= Map::empty(),
            s.rooms_map() =~= Map::empty(),
            s.subs_map() =~= Map::empty(),
            s.seen_map() =~= Map::empty(),
            s.windows_map() =~= Map::empty(),
    {
        Self {
            clients: client_table_new(),
            seen_message_ids: stamp_table_new(),
            rooms: member_index_new(),
            subscriptions: member_index_new(),
            rate_counters: window_table_new(),
            origin: instant_now(),
            last_reading: 0,
        }
    }

    /// The latest reading `clock_nanos` handed out (0 before the first).
    pub closed spec fn last_reading(&self) -> u64 {
        self.last_reading
    }

    /// Nanoseconds gone by on the monotonic clock since this state was
    /// made: the instant the rate limiter and duplicate detection are run at
    /// by `check_rate_limit` and `check_and_mark_message_id`. The readings
    /// never go back: std documents that `Instant` does not, and a reading
    /// below the latest one handed out is raised to it.
    pub fn clock_nanos(&mut self) -> (ns: u64)
        requires
            old(self).wf(),
        ensures
            final(self).wf(),
            ns >= old(self).last_reading(),
            final(self).last_reading() == ns,
            final(self).model() == old(self).model(),
    {
        let n = monotonic_nanos(&self.origin);
        let ns = if n < self.last_reading { self.last_reading } else { n };
        self.last_reading = ns;
        ns
    }

    /// Whether `room` is one of the fixed rooms.
    pub fn is_fixed_room(room: &str) -> (b: bool)
        ensures
            b == fixed_room(room@),
    {
        str_equal(room, "#geral") || str_equal(room, "#ajuda") || str_equal(room, "#dev")
    }

    /// Creates the fixed rooms that do not exist yet.
    pub fn init_fixed_rooms(&mut self)
        requires
            old(self).wf(),
        ensures
            final(self).wf(),
            final(self).rooms_map() == old(self).rooms_map()
                .insert("#geral"@, set_of(old(self).rooms_map(), "#geral"@))
                .insert("#ajuda"@, set_of(old(self).rooms_map(), "#ajuda"@))
                .insert("#dev"@, set_of(old(self).rooms_map(), "#dev"@)),
            final(self).clients_map() == old(self).clients_map(),
            final(self).subs_map() == old(self).subs_map(),
            final(self).seen_map() == old(self).seen_map(),
            final(self).windows_map() == old(self).windows_map(),
    {
        let ghost r0 = self.rooms_map();
        member_index_ensure(&mut self.rooms, "#geral");
        member_index_ensure(&mut self.rooms, "#ajuda");
        member_index_ensure(&mut self.rooms, "#dev");
        proof {
            let r = self.rooms_map();
            assert forall|k: Seq<char>, u: Seq<char>| #[trigger] set_of(r, k).contains(u) implies set_of(r0, k).contains(u) by {}
            assert forall|k: Seq<char>, u: Seq<char>| #[trigger] set_of(r0, k).contains(u) implies set_of(r, k).contains(u) by {}
            assert forall|k: Seq<char>| #[trigger] r.contains_key(k) && !fixed_room(k) implies r[k].len() > 0 by {
                assert(r0.contains_key(k));
            }
            assert forall|k: Seq<char>| #[trigger] r.contains_key(k) implies r[k].finite() by {
                if !r0.contains_key(k) {
                    assert(r[k] =~= Set::empty());
                }
            }
            assert forall|k: Seq<char>, u: Seq<char>|
                #[trigger] set_of(r, k).contains(u) <==> #[trigger] set_of(self.subs_map(), u).contains(k) by {
                assert(set_of(r, k).contains(u) == set_of(r0, k).contains(u));
            }
        }
    }

    /// Checks a user name: 3 to 20 bytes, only ASCII letters, digits, `_`
    /// and `-`. The error says which rule failed.
    pub fn validate_username(username: &str) -> (r: Result<(), String>)
        ensures
            match r {
                Ok(()) => username_verdict(username@) == Ok::<(), Seq<char>>(()),
                Err(e) => username_verdict(username@) == Err::<(), Seq<char>>(e@),
            },
    {
        if username.len() < 3 {
            return Err("Username deve ter no mínimo 3 caracteres".to_owned());
        }
        if username.len() > 20 {
            return Err("Username deve ter no máximo 20 caracteres".to_owned());
        }
        let n = username.unicode_len();
        let mut i: usize = 0;
        while i < n
            invariant
                n == username@.len(),
                i <= n,
                3 <= byte_len(username@) <= 20,
                forall|j: int| 0 <= j < i ==> #[trigger] username_char_ok(username@[j]),
            decreases n - i,
        {
            let c = username.get_char(i);
            let ok = ('0' <= c && c <= '9') || ('A' <= c && c <= 'Z') || ('a' <= c && c <= 'z')
                || c == '_' || c == '-';
            if !ok {
                assert(!username_char_ok(username@[i as int]));
                return Err(
                    "Username só pode conter letras ASCII, números, underscore (_) e hífen (-)".to_owned(),
                );
            }
            i = i + 1;
        }
        Ok(())
    }

    /// Whether a user with this name is connected.
    pub fn is_username_taken(&self, username: &str) -> (b: bool)
        ensures
            b == self.clients_map().contains_key(username@),
    {
        client_table_contains(&self.clients, username)
    }

    /// Whether a user with this name is connected.
    pub fn has_user(&self, username: &str) -> (b: bool)
        ensures
            b == self.clients_map().contains_key(username@),
    {
        client_table_contains(&self.clients, username)
    }

    /// Registers `username` as connected from `addr` (replacing an earlier
    /// entry for the same name).
    pub fn add_client(&mut self, addr: PeerAddr, username: String)
        requires
            old(self).wf(),
        ensures
            final(self).wf(),
            final(self).model() == with_client(old(self).model(), username@, addr),
            final(self).clients_map() == old(self).clients_map().insert(username@, addr),
            final(self).rooms_map() == old(self).rooms_map(),
            final(self).subs_map() == old(self).subs_map(),
            final(self).seen_map() == old(self).seen_map(),
            final(self).windows_map() == old(self).windows_map(),
    {
        client_table_insert(&mut self.clients, username, addr);
    }

    /// Number of connected users.
    pub fn client_count(&self) -> (n: usize)
        requires
            self.wf(),
        ensures
            n == self.clients_map().dom().len(),
    {
        client_table_len(&self.clients)
    }

    /// Whether the rate limiter would let a message of `username` through at
    /// `now` (ns); nothing changes.
    pub fn rate_allows_at(&self, username: &str, limit_per_sec: u32, now: u64) -> (b: bool)
        ensures
            b == rate_ok(self.model(), username@, limit_per_sec, now),
    {
        match window_table_get(&self.rate_counters, username) {
            Some(w) => {
                let (start, count) = w;
                (now >= start && now - start >= RATE_WINDOW_NS) || count < limit_per_sec
            },
            None => true,
        }
    }

    /// Whether `id` is still remembered at `now` (ns); nothing changes.
    pub fn seen_recently_at(&self, id: &str, now: u64) -> (b: bool)
        ensures
            b == id_dup(self.model(), id@, now),
    {
        match stamp_table_get(&self.seen_message_ids, id) {
            Some(t) => !(now >= t && now - t >= SEEN_ID_TTL_NS),
            None => false,
        }
    }

    /// Room membership and subscriptions mirror each other in every state
    /// the operations keep: `u` is a member of `r` exactly when `r` is among
    /// `u`'s subscriptions; nobody has an empty subscription set; only the
    /// fixed rooms can be empty. Every operation that changes memberships
    /// (`join_room`, `leave_room`, `remove_client_by_username`, ...) keeps
    /// `wf`, so this holds after each of them.
    pub proof fn law_memberships_mirror(&self, r: Seq<char>, u: Seq<char>)
        requires
            self.wf(),
        ensures
            set_of(self.rooms_map(), r).contains(u) <==> set_of(self.subs_map(), u).contains(r),
            self.subs_map().contains_key(u) ==> self.subs_map()[u].len() > 0,
            self.rooms_map().contains_key(r) && !fixed_room(r) ==> self.rooms_map()[r].len() > 0,
            self.rooms_map().dom().finite(),
            self.subs_map().dom().finite(),
            self.rooms_map().contains_key(r) ==> self.rooms_map()[r].finite(),
            self.subs_map().contains_key(u) ==> self.subs_map()[u].finite(),
    {
    }

    /// Joining a room that does not exist (and is not fixed) and leaving it
    /// again gives back the state as it was.
    pub proof fn law_join_then_leave_restores(&self, u: Seq<char>, r: Seq<char>)
        requires
            self.wf(),
            !self.rooms_map().contains_key(r),
            !fixed_room(r),
        ensures
            parted(joined(self.model(), u, r), u, r) == self.model(),
    {
        let s = self.model();
        let after = parted(joined(s, u, r), u, r);
        assert(!set_of(s.subs, u).contains(r)) by {
            assert(!set_of(s.rooms, r).contains(u));
        }
        let one = set_of(s.rooms, r).insert(u);
        assert(set_of(s.rooms, r) =~= Set::empty());
        assert(one.remove(u) =~= Set::<Seq<char>>::empty());
        assert(after.rooms =~= s.rooms);
        let subs1 = set_of(s.subs, u).insert(r);
        assert(subs1.remove(r) =~= set_of(s.subs, u));
        if s.subs.contains_key(u) {
            assert(s.subs[u].len() > 0);
            assert(after.subs =~= s.subs);
        } else {
            assert(set_of(s.subs, u) =~= Set::empty());
            assert(after.subs =~= s.subs);
        }
    }

    /// A removed user is no longer connected and is in no room.
    pub proof fn law_removed_user_is_gone(&self, u: Seq<char>)
        requires
            self.wf(),
        ensures
            !without_user(self.model(), u).clients.contains_key(u),
            forall|r: Seq<char>| !#[trigger] set_of(without_user(self.model(), u).rooms, r).contains(u),
    {
        let s = self.model();
        lemma_set_of_leave(s.rooms, set_of(s.subs, u), u);
        assert forall|r: Seq<char>| !#[trigger] set_of(without_user(s, u).rooms, r).contains(u) by {
            if !set_of(s.subs, u).contains(r) {
                assert(!set_of(s.rooms, r).contains(u));
            }
        }
    }

    /// Whether room `room` exists.
    pub fn room_exists(&self, room: &str) -> (b: bool)
        ensures
            b == self.rooms_map().contains_key(room@),
    {
        member_index_contains(&self.rooms, room)
    }

    /// Whether `username` is a member of room `room` (false when the room
    /// does not exist).
    pub fn is_member(&self, room: &str, username: &str) -> (b: bool)
        ensures
            b == set_of(self.rooms_map(), room@).contains(username@),
    {
        member_index_has(&self.rooms, room, username)
    }

    /// How many rooms exist.
    pub fn room_count(&self) -> (n: usize)
        ensures
            n == self.rooms_map().dom().len(),
    {
        member_index_len(&self.rooms)
    }

    /// Whether `username` has joined any room.
    pub fn has_subscriptions(&self, username: &str) -> (b: bool)
        ensures
            b == self.subs_map().contains_key(username@),
    {
        member_index_contains(&self.subscriptions, username)
    }

    /// Whether `username` has joined `room`.
    pub fn is_subscribed(&self, username: &str, room: &str) -> (b: bool)
        ensures
            b == set_of(self.subs_map(), username@).contains(room@),
    {
        member_index_has(&self.subscriptions, username, room)
    }

    /// The address whose channel delivers to `target_username`, if connected.
    pub fn get_client_tx(&self, target_username: &str) -> (a: Option<PeerAddr>)
        ensures
            a == (if self.clients_map().contains_key(target_username@) {
                Some(self.clients_map()[target_username@])
            } else {
                None::<PeerAddr>
            }),
    {
        client_table_get(&self.clients, target_username)
    }


    /// Makes `username` join `room`, creating the room if needed.
    pub fn join_room(&mut self, username: &str, room: &str)
        requires
            old(self).wf(),
        ensures
            final(self).wf(),
            final(self).model() == joined(old(self).model(), username@, room@),
            final(self).rooms_map() == add_member(old(self).rooms_map(), room@, username@),
            final(self).subs_map() == add_member(old(self).subs_map(), username@, room@),
            final(self).rooms_map()[room@].contains(username@),
            final(self).subs_map()[username@].contains(room@),
            final(self).clients_map() == old(self).clients_map(),
            final(self).seen_map() == old(self).seen_map(),
            final(self).windows_map() == old(self).windows_map(),
    {
        let ghost r0 = self.rooms_map();
        let ghost s0 = self.subs_map();
        member_index_add(&mut self.rooms, room, username);
        member_index_add(&mut self.subscriptions, username, room);
        proof {
            let r1 = self.rooms_map();
            let s1 = self.subs_map();
            assert forall|r: Seq<char>, u: Seq<char>|
                #[trigger] set_of(r1, r).contains(u) <==> #[trigger] set_of(s1, u).contains(r) by {
                assert(set_of(r1, r).contains(u) == (set_of(r0, r).contains(u) || (r == room@ && u == username@)));
                assert(set_of(s1, u).contains(r) == (set_of(s0, u).contains(r) || (r == room@ && u == username@)));
            }
            assert forall|r: Seq<char>| #[trigger] r1.contains_key(r) implies r1[r].finite() by {
                if r == room@ && !r0.contains_key(r) {
                    assert(set_of(r0, r) =~= Set::empty());
                }
            }
            assert forall|u: Seq<char>| #[trigger] s1.contains_key(u) implies s1[u].finite() by {
                if u == username@ && !s0.contains_key(u) {
                    assert(set_of(s0, u) =~= Set::empty());
                }
            }
            assert forall|u: Seq<char>| #[trigger] s1.contains_key(u) implies s1[u].len() > 0 by {
                if u == username@ {
                    assert(s1[u].contains(room@));
                }
            }
            assert forall|r: Seq<char>| #[trigger] r1.contains_key(r) && !fixed_room(r) implies r1[r].len() > 0 by {
                if r == room@ {
                    assert(r1[r].contains(username@));
                }
            }
        }
    }

    /// Makes `username` leave `room`. A room left empty is removed unless
    /// fixed; a user left with no room has its subscription entry removed.
    pub fn leave_room(&mut self, username: &str, room: &str)
        requires
            old(self).wf(),
        ensures
            final(self).wf(),
            final(self).model() == parted(old(self).model(), username@, room@),
            final(self).rooms_map() == drop_member(old(self).rooms_map(), room@, username@, fixed_room(room@)),
            final(self).subs_map() == drop_member(old(self).subs_map(), username@, room@, false),
            !set_of(final(self).rooms_map(), room@).contains(username@),
            !set_of(final(self).subs_map(), username@).contains(room@),
            fixed_room(room@) && old(self).rooms_map().contains_key(room@) ==> final(self).rooms_map().contains_key(room@),
            final(self).clients_map() == old(self).clients_map(),
            final(self).seen_map() == old(self).seen_map(),
            final(self).windows_map() == old(self).windows_map(),
    {
        let ghost r0 = self.rooms_map();
        let ghost s0 = self.subs_map();
        if member_index_contains(&self.rooms, room) {
            member_index_remove_member(&mut self.rooms, room, username);
            let empty = member_index_set_is_empty(&self.rooms, room);
            if empty && !Self::is_fixed_room(room) {
                member_index_remove_key(&mut self.rooms, room);
            }
        }
        if member_index_contains(&self.subscriptions, username) {
            member_index_remove_member(&mut self.subscriptions, username, room);
            let empty = member_index_set_is_empty(&self.subscriptions, username);
            if empty {
                member_index_remove_key(&mut self.subscriptions, username);
            }
        }
        proof {
            assert(self.rooms_map() =~= drop_member(r0, room@, username@, fixed_room(room@)));
            assert(self.subs_map() =~= drop_member(s0, username@, room@, false));
            lemma_set_of_drop(r0, room@, username@, fixed_room(room@));
            lemma_set_of_drop(s0, username@, room@, false);
            let r1 = self.rooms_map();
            let s1 = self.subs_map();
            assert forall|r: Seq<char>, u: Seq<char>|
                #[trigger] set_of(r1, r).contains(u) <==> #[trigger] set_of(s1, u).contains(r) by {
                assert(set_of(r1, r) == (if r == room@ { set_of(r0, room@).remove(username@) } else { set_of(r0, r) }));
                assert(set_of(s1, u) == (if u == username@ { set_of(s0, username@).remove(room@) } else { set_of(s0, u) }));
            }
            assert forall|r: Seq<char>| #[trigger] r1.contains_key(r) implies r1[r].finite() by {
                assert(r0.contains_key(r));
            }
            assert forall|u: Seq<char>| #[trigger] s1.contains_key(u) implies s1[u].finite() by {
                assert(s0.contains_key(u));
            }
            assert forall|u: Seq<char>| #[trigger] s1.contains_key(u) implies s1[u].len() > 0 by {
                assert(s0.contains_key(u));
            }
            assert forall|r: Seq<char>| #[trigger] r1.contains_key(r) && !fixed_room(r) implies r1[r].len() > 0 by {
                assert(r0.contains_key(r));
            }
            assert(set_of(r1, room@) == set_of(r0, room@).remove(username@));
            assert(set_of(s1, username@) == set_of(s0, username@).remove(room@));
        }
    }

    /// Removes user `username` entirely: its connection entry, its rate
    /// window, its subscriptions, and its membership in every room it
    /// joined (rooms left empty disappear unless fixed).
    pub fn remove_client_by_username(&mut self, username: &str)
        requires
            old(self).wf(),
        ensures
            final(self).wf(),
            final(self).model() == without_user(old(self).model(), username@),
            user_removed(*old(self), *final(self), username@),
            !final(self).clients_map().contains_key(username@),
            !final(self).subs_map().contains_key(username@),
            forall|r: Seq<char>| !#[trigger] set_of(final(self).rooms_map(), r).contains(username@),
    {
        let ghost r0 = self.rooms_map();
        let ghost s0 = self.subs_map();
        let ghost left = set_of(s0, username@);
        if member_index_contains(&self.subscriptions, username) {
            let rooms_vec = member_index_members(&self.subscriptions, username);
            member_index_remove_key(&mut self.subscriptions, username);
            let ghost mut done: Set<Seq<char>> = Set::empty();
            let mut i: usize = 0;
            while i < rooms_vec.len()
                invariant
                    i <= rooms_vec@.len(),
                    lists_set(rooms_vec@, left),
                    forall|k: Seq<char>| #[trigger] done.contains(k) <==> exists|j: int|
                        0 <= j < i && #[trigger] rooms_vec@[j]@ == k,
                    member_index(self.rooms) == leave_rooms(r0, done, username@),
                    member_index(self.subscriptions) == s0.remove(username@),
                    client_table(self.clients) == old(self).clients_map(),
                    window_table(self.rate_counters) == old(self).windows_map(),
                    stamp_table(self.seen_message_ids) == old(self).seen_map(),
                decreases rooms_vec@.len() - i,
            {
                let room = &rooms_vec[i];
                let ghost cur = member_index(self.rooms);
                proof {
                    assert(!done.contains(room@)) by {
                        if done.contains(room@) {
                            let j = choose|j: int| 0 <= j < i && #[trigger] rooms_vec@[j]@ == room@;
                            assert(rooms_vec@[j]@ == rooms_vec@[i as int]@);
                        }
                    }
                }
                if member_index_contains(&self.rooms, room.as_str()) {
                    member_index_remove_member(&mut self.rooms, room.as_str(), username);
                    let empty = member_index_set_is_empty(&self.rooms, room.as_str());
                    if empty && !Self::is_fixed_room(room.as_str()) {
                        member_index_remove_key(&mut self.rooms, room.as_str());
                    }
                }
                proof {
                    assert(member_index(self.rooms) =~= drop_member(cur, room@, username@, fixed_room(room@)));
                    let nd = done.insert(room@);
                    assert(drop_member(cur, room@, username@, fixed_room(room@)) =~= leave_rooms(r0, nd, username@));
                    done = nd;
                    assert forall|k: Seq<char>| #[trigger] done.contains(k) <==> exists|j: int|
                        0 <= j < i + 1 && #[trigger] rooms_vec@[j]@ == k by {
                        if done.contains(k) && k != room@ {
                            let j = choose|j: int| 0 <= j < i && #[trigger] rooms_vec@[j]@ == k;
                            assert(0 <= j < i + 1 && rooms_vec@[j]@ == k);
                        }
                        if exists|j: int| 0 <= j < i + 1 && #[trigger] rooms_vec@[j]@ == k {
                            let j = choose|j: int| 0 <= j < i + 1 && #[trigger] rooms_vec@[j]@ == k;
                            if j < i {
                                assert(exists|j2: int| 0 <= j2 < i && #[trigger] rooms_vec@[j2]@ == k);
                            }
                        }
                    }
                }
                i = i + 1;
            }
            proof {
                assert(done =~= left) by {
                    assert forall|k: Seq<char>| left.contains(k) implies done.contains(k) by {
                        let j = choose|j: int| 0 <= j < rooms_vec@.len() && #[trigger] rooms_vec@[j]@ == k;
                        assert(rooms_vec@[j]@ == k);
                    }
                    assert forall|k: Seq<char>| done.contains(k) implies left.contains(k) by {
                        let j = choose|j: int| 0 <= j < i && #[trigger] rooms_vec@[j]@ == k;
                        assert(left.contains(rooms_vec@[j]@));
                    }
                }
            }
        } else {
            proof {
                assert(left =~= Set::empty());
                assert(leave_rooms(r0, left, username@) =~= r0);
                assert(s0.remove(username@) =~= s0);
            }
        }
        window_table_remove(&mut self.rate_counters, username);
        client_table_remove(&mut self.clients, username);
        proof {
            lemma_set_of_leave(r0, left, username@);
            let r1 = self.rooms_map();
            let s1 = self.subs_map();
            assert(r1.dom() =~= r0.dom().filter(|r: Seq<char>| !(left.contains(r) && r0[r].remove(username@).len() == 0
                && !fixed_room(r))));
            assert forall|r: Seq<char>, u: Seq<char>|
                #[trigger] set_of(r1, r).contains(u) <==> #[trigger] set_of(s1, u).contains(r) by {
                assert(set_of(r1, r) == (if left.contains(r) { set_of(r0, r).remove(username@) } else { set_of(r0, r) }));
                if u == username@ {
                    assert(set_of(s1, u) =~= Set::empty());
                    if !left.contains(r) {
                        assert(set_of(r0, r).contains(u) == set_of(s0, u).contains(r));
                    }
                } else {
                    assert(set_of(s1, u) == set_of(s0, u));
                }
            }
            assert forall|r: Seq<char>| #[trigger] r1.contains_key(r) implies r1[r].finite() by {
                assert(r0.contains_key(r));
            }
            assert forall|u: Seq<char>| #[trigger] s1.contains_key(u) implies s1[u].finite() by {
                assert(s0.contains_key(u));
            }
            assert forall|u: Seq<char>| #[trigger] s1.contains_key(u) implies s1[u].len() > 0 by {
                assert(s0.contains_key(u));
            }
            assert forall|r: Seq<char>| #[trigger] r1.contains_key(r) && !fixed_room(r) implies r1[r].len() > 0 by {
                assert(r0.contains_key(r));
            }
            assert forall|r: Seq<char>| !#[trigger] set_of(r1, r).contains(username@) by {
                if !left.contains(r) {
                    assert(set_of(r0, r).contains(username@) == set_of(s0, username@).contains(r));
                }
            }
            assert(self.clients_map() =~= old(self).clients_map().remove(username@));
        }
    }

    /// Removes the user connected from `addr`, if any, as
    /// `remove_client_by_username` does, and returns its name.
    pub fn remove_client(&mut self, addr: &PeerAddr) -> (r: Option<String>)
        requires
            old(self).wf(),
        ensures
            final(self).wf(),
            match r {
                Some(u) => old(self).clients_map().contains_key(u@) && old(self).clients_map()[u@] == *addr
                    && user_removed(*old(self), *final(self), u@)
                    && final(self).model() == without_user(old(self).model(), u@),
                None => *final(self) == *old(self) && forall|k: Seq<char>| #[trigger] old(self).clients_map().contains_key(k)
                    ==> old(self).clients_map()[k] != *addr,
            },
    {
        match self.username_by_addr(addr) {
            Some(username) => {
                self.remove_client_by_username(username.as_str());
                Some(username)
            },
            None => None,
        }
    }

    /// The rate limiter at time `now` (ns): a user may send up to
    /// `limit_per_sec` messages per one-second window (the first message of
    /// a window always passes). Returns whether this message passes.
    pub fn check_rate_limit_at(&mut self, username: &str, limit_per_sec: u32, now: u64) -> (b: bool)
        requires
            old(self).wf(),
        ensures
            final(self).wf(),
            b == rate_ok(old(self).model(), username@, limit_per_sec, now),
            final(self).last_reading() == old(self).last_reading(),
            final(self).model() == rated(old(self).model(), username@, limit_per_sec, now),
            b == rate_step(lookup(old(self).windows_map(), username@), limit_per_sec, now).0,
            final(self).windows_map() == old(self).windows_map().insert(
                username@,
                rate_step(lookup(old(self).windows_map(), username@), limit_per_sec, now).1.unwrap(),
            ),
            final(self).clients_map() == old(self).clients_map(),
            final(self).rooms_map() == old(self).rooms_map(),
            final(self).subs_map() == old(self).subs_map(),
            final(self).seen_map() == old(self).seen_map(),
    {
        match window_table_get(&self.rate_counters, username) {
            Some(w) => {
                let (start, count) = w;
                if now >= start && now - start >= RATE_WINDOW_NS {
                    window_table_insert(&mut self.rate_counters, username.to_owned(), (now, 1));
                    true
                } else if count < limit_per_sec {
                    window_table_insert(&mut self.rate_counters, username.to_owned(), (start, count + 1));
                    true
                } else {
                    proof {
                        assert(self.windows_map() =~= self.windows_map().insert(username@, w));
                    }
                    false
                }
            },
            None => {
                window_table_insert(&mut self.rate_counters, username.to_owned(), (now, 1));
                true
            },
        }
    }

    /// The rate limiter at the current time (see `check_rate_limit_at`).
    pub fn check_rate_limit(&mut self, username: &str, limit_per_sec: u32) -> (b: bool)
        requires
            old(self).wf(),
        ensures
            final(self).wf(),
            exists|now: u64|
                now >= old(self).last_reading() && final(self).last_reading() == now
                && b == #[trigger] rate_step(lookup(old(self).windows_map(), username@), limit_per_sec, now).0
                && final(self).windows_map() == old(self).windows_map().insert(
                    username@,
                    rate_step(lookup(old(self).windows_map(), username@), limit_per_sec, now).1.unwrap(),
                ),
            final(self).clients_map() == old(self).clients_map(),
            final(self).rooms_map() == old(self).rooms_map(),
            final(self).subs_map() == old(self).subs_map(),
            final(self).seen_map() == old(self).seen_map(),
    {
        let now = self.clock_nanos();
        self.check_rate_limit_at(username, limit_per_sec, now)
    }

    /// Duplicate detection at time `now` (ns): forgets identifiers first seen
    /// an hour or more ago, then reports whether `id` is still remembered;
    /// if not, remembers it as seen at `now`.
    pub fn check_and_mark_message_id_at(&mut self, id: &str, now: u64) -> (b: bool)
        requires
            old(self).wf(),
        ensures
            final(self).wf(),
            b == id_dup(old(self).model(), id@, now),
            final(self).last_reading() == old(self).last_reading(),
            final(self).model() == marked(old(self).model(), id@, now),
            b == fresh_ids(old(self).seen_map(), now).contains_key(id@),
            final(self).seen_map() == (if b {
                fresh_ids(old(self).seen_map(), now)
            } else {
                fresh_ids(old(self).seen_map(), now).insert(id@, now)
            }),
            final(self).clients_map() == old(self).clients_map(),
            final(self).rooms_map() == old(self).rooms_map(),
            final(self).subs_map() == old(self).subs_map(),
            final(self).windows_map() == old(self).windows_map(),
    {
        let ghost s0 = self.seen_map();
        let entries = stamp_table_entries(&self.seen_message_ids);
        let mut i: usize = 0;
        while i < entries.len()
            invariant
                i <= entries@.len(),
                lists_entries(entries@, s0),
                forall|k: Seq<char>| #[trigger] stamp_table(self.seen_message_ids).contains_key(k) ==> s0.contains_key(k)
                    && stamp_table(self.seen_message_ids)[k] == s0[k],
                forall|k: Seq<char>| #[trigger] s0.contains_key(k) && !id_expired(s0[k], now)
                    ==> stamp_table(self.seen_message_ids).contains_key(k),
                forall|j: int| 0 <= j < i && id_expired(entries@[j].1, now)
                    ==> !stamp_table(self.seen_message_ids).contains_key(#[trigger] entries@[j].0@),
                member_index(self.rooms) == old(self).rooms_map(),
                member_index(self.subscriptions) == old(self).subs_map(),
                client_table(self.clients) == old(self).clients_map(),
                window_table(self.rate_counters) == old(self).windows_map(),
                self.last_reading == old(self).last_reading,
            decreases entries@.len() - i,
        {
            let t = entries[i].1;
            if now >= t && now - t >= SEEN_ID_TTL_NS {
                stamp_table_remove(&mut self.seen_message_ids, entries[i].0.as_str());
            }
            proof {
                assert(s0.contains_key(entries@[i as int].0@));
                assert forall|j: int| 0 <= j < i + 1 && id_expired(entries@[j].1, now)
                    implies !stamp_table(self.seen_message_ids).contains_key(#[trigger] entries@[j].0@) by {
                    if j < i {
                        assert(entries@[j].0@ != entries@[i as int].0@);
                    }
                }
            }
            i = i + 1;
        }
        proof {
            let cur = stamp_table(self.seen_message_ids);
            let f = fresh_ids(s0, now);
            assert forall|k: Seq<char>| cur.contains_key(k) <==> f.contains_key(k) by {
                if s0.contains_key(k) && id_expired(s0[k], now) {
                    let j = choose|j: int| 0 <= j < entries@.len() && #[trigger] entries@[j].0@ == k;
                    assert(entries@[j].1 == s0[k]);
                    assert(!cur.contains_key(entries@[j].0@));
                }
            }
            assert(cur =~= f);
        }
        if stamp_table_contains(&self.seen_message_ids, id) {
            true
        } else {
            stamp_table_insert(&mut self.seen_message_ids, id.to_owned(), now);
            false
        }
    }

    /// Duplicate detection at the current time (see
    /// `check_and_mark_message_id_at`): `true` when `id` was already seen.
    pub fn check_and_mark_message_id(&mut self, id: &str) -> (b: bool)
        requires
            old(self).wf(),
        ensures
            final(self).wf(),
            exists|now: u64|
                now >= old(self).last_reading() && final(self).last_reading() == now
                && b == #[trigger] fresh_ids(old(self).seen_map(), now).contains_key(id@)
                && final(self).seen_map() == (if b {
                    fresh_ids(old(self).seen_map(), now)
                } else {
                    fresh_ids(old(self).seen_map(), now).insert(id@, now)
                }),
            final(self).clients_map() == old(self).clients_map(),
            final(self).rooms_map() == old(self).rooms_map(),
            final(self).subs_map() == old(self).subs_map(),
            final(self).windows_map() == old(self).windows_map(),
    {
        let now = self.clock_nanos();
        self.check_and_mark_message_id_at(id, now)
    }


    /// The addresses of the connected users in `names` (others are
    /// skipped), in the order of `names`.
    pub fn addrs_of(&self, names: &Vec<String>) -> (v: Vec<PeerAddr>)
        ensures
            v@ == names_to_addrs(names@, self.clients_map()),
    {
        let mut v: Vec<PeerAddr> = Vec::new();
        let mut i: usize = 0;
        while i < names.len()
            invariant
                i <= names@.len(),
                v@ == names_to_addrs(names@.subrange(0, i as int), self.clients_map()),
            decreases names@.len() - i,
        {
            proof {
                lemma_names_to_addrs_step(names@, i as int, self.clients_map());
            }
            match client_table_get(&self.clients, names[i].as_str()) {
                Some(a) => v.push(a),
                None => {},
            }
            i = i + 1;
        }
        proof {
            assert(names@.subrange(0, names@.len() as int) =~= names@);
        }
        v
    }

    /// The addresses of all connected users except `exclude` (when given),
    /// each once, in no particular order.
    pub fn client_addrs_except(&self, exclude: Option<&str>) -> (v: Vec<PeerAddr>)
        ensures
            lists_targets(v@, self.clients_map(), match exclude {
                Some(x) => self.clients_map().dom().remove(x@),
                None => self.clients_map().dom(),
            }),
    {
        let ghost keys = match exclude {
            Some(x) => self.clients_map().dom().remove(x@),
            None => self.clients_map().dom(),
        };
        let entries = client_table_entries(&self.clients);
        let mut v: Vec<PeerAddr> = Vec::new();
        let ghost mut ks: Seq<Seq<char>> = Seq::empty();
        let mut i: usize = 0;
        while i < entries.len()
            invariant
                i <= entries@.len(),
                lists_entries(entries@, self.clients_map()),
                ks.no_duplicates(),
                forall|k: Seq<char>| #[trigger] ks.contains(k) <==> (keys.contains(k) && exists|j: int|
                    0 <= j < i && #[trigger] entries@[j].0@ == k),
                v@ == ks.map_values(|k: Seq<char>| self.clients_map()[k]),
                keys == match exclude {
                    Some(x) => self.clients_map().dom().remove(x@),
                    None => self.clients_map().dom(),
                },
            decreases entries@.len() - i,
        {
            let skip = match exclude {
                Some(x) => str_equal(entries[i].0.as_str(), x),
                None => false,
            };
            let ghost k = entries@[i as int].0@;
            proof {
                assert(self.clients_map().contains_key(k));
                assert(!ks.contains(k)) by {
                    if ks.contains(k) {
                        let j = choose|j: int| 0 <= j < i && #[trigger] entries@[j].0@ == k;
                        assert(entries@[j].0@ == entries@[i as int].0@);
                    }
                }
            }
            if !skip {
                v.push(entries[i].1);
                proof {
                    let nks = ks.push(k);
                    assert(nks.map_values(|k: Seq<char>| self.clients_map()[k]) =~= ks.map_values(|k: Seq<char>| self.clients_map()[k]).push(self.clients_map()[k]));
                    assert(keys.contains(k));
                    assert forall|x: Seq<char>| #[trigger] nks.contains(x) <==> (keys.contains(x) && exists|j: int|
                        0 <= j < i + 1 && #[trigger] entries@[j].0@ == x) by {
                        if nks.contains(x) && x != k {
                            assert(ks.contains(x));
                        }
                        if keys.contains(x) && exists|j: int| 0 <= j < i + 1 && #[trigger] entries@[j].0@ == x {
                            let j = choose|j: int| 0 <= j < i + 1 && #[trigger] entries@[j].0@ == x;
                            if j < i {
                                assert(ks.contains(x));
                                assert(nks.contains(x)) by { assert(nks[ks.index_of(x)] == x); }
                            } else {
                                assert(nks[ks.len() as int] == x);
                            }
                        }
                    }
                    ks = nks;
                }
            } else {
                proof {
                    assert forall|x: Seq<char>| #[trigger] ks.contains(x) <==> (keys.contains(x) && exists|j: int|
                        0 <= j < i + 1 && #[trigger] entries@[j].0@ == x) by {
                        if keys.contains(x) && exists|j: int| 0 <= j < i + 1 && #[trigger] entries@[j].0@ == x {
                            let j = choose|j: int| 0 <= j < i + 1 && #[trigger] entries@[j].0@ == x;
                            if j == i {
                                assert(!keys.contains(x));
                            }
                        }
                    }
                }
            }
            i = i + 1;
        }
        proof {
            assert forall|x: Seq<char>| #[trigger] keys.contains(x) implies ks.contains(x) by {
                let j = choose|j: int| 0 <= j < entries@.len() && #[trigger] entries@[j].0@ == x;
            }
            assert(ks.to_set() =~= keys);
        }
        v
    }

    /// The addresses of the connected members of `room`, each once, in no
    /// particular order.
    pub fn room_member_addrs(&self, room: &str) -> (v: Vec<PeerAddr>)
        ensures
            lists_targets(v@, self.clients_map(), set_of(self.rooms_map(), room@).intersect(self.clients_map().dom())),
    {
        let members = member_index_members(&self.rooms, room);
        let v = self.addrs_of(&members);
        proof {
            let keys = set_of(self.rooms_map(), room@).intersect(self.clients_map().dom());
            lemma_present_keys(members@, self.clients_map());
            let ks = present_keys(members@, self.clients_map());
            assert forall|k: Seq<char>| ks.contains(k) <==> keys.contains(k) by {
                if keys.contains(k) {
                    let j = choose|j: int| 0 <= j < members@.len() && #[trigger] members@[j]@ == k;
                    assert(members@[j]@ == k);
                }
            }
            assert(ks.to_set() =~= keys);
        }
        v
    }

    /// The names of all connected users, each once, in no particular order.
    pub fn list_usernames(&self) -> (v: Vec<String>)
        ensures
            lists_set(v@, self.clients_map().dom()),
    {
        let entries = client_table_entries(&self.clients);
        let mut names: Vec<String> = Vec::new();
        let mut i: usize = 0;
        while i < entries.len()
            invariant
                i <= entries@.len(),
                lists_entries(entries@, self.clients_map()),
                names@.len() == i,
                forall|j: int| 0 <= j < i ==> #[trigger] names@[j]@ == entries@[j].0@,
            decreases entries@.len() - i,
        {
            names.push(entries[i].0.clone());
            i = i + 1;
        }
        proof {
            assert forall|k: Seq<char>| #[trigger] self.clients_map().dom().contains(k) implies exists|j: int|
                0 <= j < names@.len() && #[trigger] names@[j]@ == k by {
                let j = choose|j: int| 0 <= j < entries@.len() && #[trigger] entries@[j].0@ == k;
                assert(names@[j]@ == k);
            }
            assert forall|a: int, b: int| 0 <= a < names@.len() && 0 <= b < names@.len() && a != b
                implies names@[a]@ != names@[b]@ by {
                assert(names@[a]@ == entries@[a].0@);
                assert(names@[b]@ == entries@[b].0@);
            }
            assert forall|j: int| 0 <= j < names@.len() implies #[trigger] self.clients_map().dom().contains(names@[j]@) by {
                assert(names@[j]@ == entries@[j].0@);
            }
        }
        names
    }

    /// The name of a user connected from `addr`, if any.
    pub fn username_by_addr(&self, addr: &PeerAddr) -> (r: Option<String>)
        ensures
            match r {
                Some(u) => self.clients_map().contains_key(u@) && self.clients_map()[u@] == *addr,
                None => forall|k: Seq<char>| #[trigger] self.clients_map().contains_key(k)
                    ==> self.clients_map()[k] != *addr,
            },
    {
        let entries = client_table_entries(&self.clients);
        let mut i: usize = 0;
        while i < entries.len()
            invariant
                i <= entries@.len(),
                lists_entries(entries@, self.clients_map()),
                forall|j: int| 0 <= j < i ==> #[trigger] entries@[j].1 != *addr,
            decreases entries@.len() - i,
        {
            if entries[i].1 == *addr {
                assert(self.clients_map().contains_key(entries@[i as int].0@));
                return Some(entries[i].0.clone());
            }
            i = i + 1;
        }
        proof {
            assert forall|k: Seq<char>| #[trigger] self.clients_map().contains_key(k)
                implies self.clients_map()[k] != *addr by {
                let j = choose|j: int| 0 <= j < entries@.len() && #[trigger] entries@[j].0@ == k;
                assert(entries@[j].1 != *addr);
            }
        }
        None
    }
}

/// Whether two strings have the same characters.
pub fn str_equal(a: &str, b: &str) -> (r: bool)
    ensures
        r == (a@ == b@),
{
    let x = a.to_owned();
    let y = b.to_owned();
    x == y
}

} // verus!
