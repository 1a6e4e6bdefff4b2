//! Server metrics, kept in Prometheus counters and gauges, and their
//! registration with the Prometheus registry the application exposes.

use prometheus::{IntCounter, IntGauge, Registry};
use vstd::prelude::*;

verus! {

/// A Prometheus integer counter (`prometheus::IntCounter`). Verus cannot
/// take the declaration of Prometheus's generic counter type, so the counter
/// is held here and reached only through the operations below.
#[verifier::external_body]
pub struct Counter {
    inner: IntCounter,
}

/// A Prometheus integer gauge (`prometheus::IntGauge`), held as `Counter`
/// holds its counter.
#[verifier::external_body]
pub struct Gauge {
    inner: IntGauge,
}

/// The value a counter holds.
pub uninterp spec fn counter_value(c: Counter) -> u64;

/// The value a gauge holds.
pub uninterp spec fn gauge_value(g: Gauge) -> i64;

/// A character that may begin a metric name: an ASCII letter, `_` or `:`.
pub open spec fn metric_name_start(c: char) -> bool {
    ('a' <= c && c <= 'z') || ('A' <= c && c <= 'Z') || c == '_' || c == ':'
}

/// A character that may follow in a metric name: those that may begin one,
/// and ASCII digits.
pub open spec fn metric_name_char(c: char) -> bool {
    metric_name_start(c) || ('0' <= c && c <= '9')
}

/// A name that Prometheus accepts for a metric.
pub open spec fn valid_metric_name(s: Seq<char>) -> bool {
    &&& s.len() > 0
    &&& metric_name_start(s[0])
    &&& forall|i: int| 1 <= i < s.len() ==> metric_name_char(#[trigger] s[i])
}

/// `IntCounter::new`: a counter holding 0. Prometheus refuses it (`None`)
/// exactly when the help text is empty or the name is not a valid metric
/// name (the checks of `Desc::new`; no labels are given).
#[verifier::external_body]
fn new_counter(name: &str, help: &str) -> (res: Option<Counter>)
    ensures
        res is Some <==> (help@.len() > 0 && valid_metric_name(name@)),
        (res matches Some(c) ==> counter_value(c) == 0),
{
    IntCounter::new(name, help).ok().map(|inner| Counter { inner })
}

/// `IntGauge::new`: a gauge holding 0, refused (`None`) exactly as
/// `IntCounter::new` is.
#[verifier::external_body]
fn new_gauge(name: &str, help: &str) -> (res: Option<Gauge>)
    ensures
        res is Some <==> (help@.len() > 0 && valid_metric_name(name@)),
        (res matches Some(g) ==> gauge_value(g) == 0),
{
    IntGauge::new(name, help).ok().map(|inner| Gauge { inner })
}

/// `IntCounter::inc`: adds one, wrapping around at 2^64.
#[verifier::external_body]
fn counter_inc(c: &mut Counter)
    ensures
        counter_value(*final(c)) == (counter_value(*old(c)) + 1) as u64,
{
    c.inner.inc();
}

/// `IntCounter::inc_by`: adds `n`, wrapping around at 2^64.
#[verifier::external_body]
fn counter_inc_by(c: &mut Counter, n: u64)
    ensures
        counter_value(*final(c)) == (counter_value(*old(c)) + n) as u64,
{
    c.inner.inc_by(n);
}

/// `IntCounter::get`: the value.
#[verifier::external_body]
fn counter_get(c: &Counter) -> (res: u64)
    ensures
        res == counter_value(*c),
{
    c.inner.get()
}

/// `IntGauge::set`: the gauge now holds `v`.
#[verifier::external_body]
fn gauge_set(g: &mut Gauge, v: i64)
    ensures
        gauge_value(*final(g)) == v,
{
    g.inner.set(v);
}

/// `IntGauge::get`: the value.
#[verifier::external_body]
fn gauge_get(g: &Gauge) -> (res: i64)
    ensures
        res == gauge_value(*g),
{
    g.inner.get()
}

/// `prometheus::Registry`: the metrics a scrape gathers.
#[verifier::external_type_specification]
#[verifier::external_body]
pub struct ExRegistry(Registry);

/// `Registry::register` with a handle on the counter of `c`: from then on a
/// gather of `registry` reads that counter. Whether the registry takes it
/// depends on what it already holds (a name can be registered once), which
/// is opaque here, so the result is left unsaid; a refusal is carried as
/// Prometheus's error text.
#[verifier::external_body]
fn register_counter(registry: &Registry, c: &Counter) -> (r: Result<(), String>) {
    registry.register(Box::new(c.inner.clone())).map_err(|e| e.to_string())
}

/// `Registry::register` with a handle on the gauge of `g`, as
/// `register_counter`.
#[verifier::external_body]
fn register_gauge(registry: &Registry, g: &Gauge) -> (r: Result<(), String>) {
    registry.register(Box::new(g.inner.clone())).map_err(|e| e.to_string())
}

/// The counters and gauges of the server.
pub struct Metrics {
    /// Number of failed try_send due to full channel
    pub send_full: Counter,
    /// Total messages sent (room + private)
    pub messages_sent: Counter,
    /// Total private messages sent
    pub private_messages: Counter,
    /// Total room messages sent
    pub room_messages: Counter,
    /// Messages delivered immediately (recipient online)
    pub messages_delivered: Counter,
    /// Messages queued for offline delivery
    pub messages_queued: Counter,
    /// Offline messages delivered on login
    pub offline_messages_delivered: Counter,
    /// Messages rejected due to full recipient queue
    pub queue_full: Counter,
    /// Total successful logins
    pub logins: Counter,
    /// Total user registrations
    pub registrations: Counter,
    /// Total logouts
    pub logouts: Counter,
    /// Total room joins
    pub room_joins: Counter,
    /// Total room leaves
    pub room_leaves: Counter,
    /// Refused requests for the metrics endpoint
    pub metrics_unauthorized: Counter,
    /// Sessions removed by the cleanup because they expired
    pub expired_sessions: Counter,
    /// Current number of users online
    pub users_online: Gauge,
    /// Current number of pending offline messages
    pub pending_messages: Gauge,
    /// Current number of active rooms
    pub active_rooms: Gauge,
    /// Current number of open sessions
    pub active_sessions: Gauge,
}

/// The values of the counters, in declaration order.
pub open spec fn counter_values(m: Metrics) -> Seq<u64> {
    seq![counter_value(m.send_full), counter_value(m.messages_sent), counter_value(m.private_messages), counter_value(m.room_messages), counter_value(m.messages_delivered), counter_value(m.messages_queued), counter_value(m.offline_messages_delivered), counter_value(m.queue_full), counter_value(m.logins), counter_value(m.registrations), counter_value(m.logouts), counter_value(m.room_joins), counter_value(m.room_leaves), counter_value(m.metrics_unauthorized), counter_value(m.expired_sessions)]
}

/// The values of the gauges, in declaration order.
pub open spec fn gauge_values(m: Metrics) -> Seq<i64> {
    seq![gauge_value(m.users_online), gauge_value(m.pending_messages), gauge_value(m.active_rooms), gauge_value(m.active_sessions)]
}

impl Metrics {
    /// Registers every counter and gauge with `registry`, in declaration
    /// order, stopping at the first that the registry refuses. The values
    /// are untouched; the registry only reads them.
    pub fn register_all(&self, registry: &Registry) -> (r: Result<(), String>) {
        let counters: Vec<&Counter> = vec![
            &self.send_full,
            &self.messages_sent,
            &self.private_messages,
            &self.room_messages,
            &self.messages_delivered,
            &self.messages_queued,
            &self.offline_messages_delivered,
            &self.queue_full,
            &self.logins,
            &self.registrations,
            &self.logouts,
            &self.room_joins,
            &self.room_leaves,
            &self.metrics_unauthorized,
            &self.expired_sessions,
        ];
        let mut i: usize = 0;
        while i < counters.len()
            invariant
                i <= counters@.len(),
            decreases counters@.len() - i,
        {
            match register_counter(registry, counters[i]) {
                Err(e) => return Err(e),
                Ok(()) => {},
            }
            i = i + 1;
        }
        let gauges: Vec<&Gauge> = vec![&self.users_online, &self.pending_messages, &self.active_rooms, &self.active_sessions];
        let mut j: usize = 0;
        while j < gauges.len()
            invariant
                j <= gauges@.len(),
            decreases gauges@.len() - j,
        {
            match register_gauge(registry, gauges[j]) {
                Err(e) => return Err(e),
                Ok(()) => {},
            }
            j = j + 1;
        }
        Ok(())
    }

    /// All counters and gauges at zero. Prometheus accepts every name and
    /// help text used here, so the metrics are always made.
    pub fn new() -> (r: Option<Metrics>)
        ensures
            r is Some,
            (r matches Some(m) ==> counter_values(m) == Seq::new(15, |i: int| 0u64) && gauge_values(m) == Seq::new(4, |i: int| 0i64)),
    {
        proof {
            reveal_strlit("chat_send_full_total");
            reveal_strlit("Number of failed try_send due to full channel");
        }
        let send_full = match new_counter("chat_send_full_total", "Number of failed try_send due to full channel") {
            Some(c) => c,
            None => return None,
        };
        proof {
            reveal_strlit("chat_messages_sent_total");
            reveal_strlit("Total messages sent (room + private)");
        }
        let messages_sent = match new_counter("chat_messages_sent_total", "Total messages sent (room + private)") {
            Some(c) => c,
            None => return None,
        };
        proof {
            reveal_strlit("chat_private_messages_total");
            reveal_strlit("Total private messages sent");
        }
        let private_messages = match new_counter("chat_private_messages_total", "Total private messages sent") {
            Some(c) => c,
            None => return None,
        };
        proof {
            reveal_strlit("chat_room_messages_total");
            reveal_strlit("Total room messages sent");
        }
        let room_messages = match new_counter("chat_room_messages_total", "Total room messages sent") {
            Some(c) => c,
            None => return None,
        };
        proof {
            reveal_strlit("chat_messages_delivered_total");
            reveal_strlit("Messages delivered immediately (recipient online)");
        }
        let messages_delivered = match new_counter("chat_messages_delivered_total", "Messages delivered immediately (recipient online)") {
            Some(c) => c,
            None => return None,
        };
        proof {
            reveal_strlit("chat_messages_queued_total");
            reveal_strlit("Messages queued for offline delivery");
        }
        let messages_queued = match new_counter("chat_messages_queued_total", "Messages queued for offline delivery") {
            Some(c) => c,
            None => return None,
        };
        proof {
            reveal_strlit("chat_offline_messages_delivered_total");
            reveal_strlit("Offline messages delivered on login");
        }
        let offline_messages_delivered = match new_counter("chat_offline_messages_delivered_total", "Offline messages delivered on login") {
            Some(c) => c,
            None => return None,
        };
        proof {
            reveal_strlit("chat_message_queue_full_total");
            reveal_strlit("Messages rejected due to full recipient queue");
        }
        let queue_full = match new_counter("chat_message_queue_full_total", "Messages rejected due to full recipient queue") {
            Some(c) => c,
            None => return None,
        };
        proof {
            reveal_strlit("chat_logins_total");
            reveal_strlit("Total successful logins");
        }
        let logins = match new_counter("chat_logins_total", "Total successful logins") {
            Some(c) => c,
            None => return None,
        };
        proof {
            reveal_strlit("chat_registrations_total");
            reveal_strlit("Total user registrations");
        }
        let registrations = match new_counter("chat_registrations_total", "Total user registrations") {
            Some(c) => c,
            None => return None,
        };
        proof {
            reveal_strlit("chat_logouts_total");
            reveal_strlit("Total logouts");
        }
        let logouts = match new_counter("chat_logouts_total", "Total logouts") {
            Some(c) => c,
            None => return None,
        };
        proof {
            reveal_strlit("chat_room_joins_total");
            reveal_strlit("Total room joins");
        }
        let room_joins = match new_counter("chat_room_joins_total", "Total room joins") {
            Some(c) => c,
            None => return None,
        };
        proof {
            reveal_strlit("chat_room_leaves_total");
            reveal_strlit("Total room leaves");
        }
        let room_leaves = match new_counter("chat_room_leaves_total", "Total room leaves") {
            Some(c) => c,
            None => return None,
        };
        proof {
            reveal_strlit("chat_metrics_unauthorized_total");
            reveal_strlit("Total de tentativas não autorizadas ao endpoint /metrics");
        }
        let metrics_unauthorized = match new_counter("chat_metrics_unauthorized_total", "Total de tentativas não autorizadas ao endpoint /metrics") {
            Some(c) => c,
            None => return None,
        };
        proof {
            reveal_strlit("chat_expired_sessions_total");
            reveal_strlit("Total de sessões expiradas");
        }
        let expired_sessions = match new_counter("chat_expired_sessions_total", "Total de sessões expiradas") {
            Some(c) => c,
            None => return None,
        };
        proof {
            reveal_strlit("chat_users_online");
            reveal_strlit("Current number of users online");
        }
        let users_online = match new_gauge("chat_users_online", "Current number of users online") {
            Some(g) => g,
            None => return None,
        };
        proof {
            reveal_strlit("chat_pending_messages");
            reveal_strlit("Current number of pending offline messages");
        }
        let pending_messages = match new_gauge("chat_pending_messages", "Current number of pending offline messages") {
            Some(g) => g,
            None => return None,
        };
        proof {
            reveal_strlit("chat_active_rooms");
            reveal_strlit("Current number of active rooms");
        }
        let active_rooms = match new_gauge("chat_active_rooms", "Current number of active rooms") {
            Some(g) => g,
            None => return None,
        };
        proof {
            reveal_strlit("chat_active_sessions");
            reveal_strlit("Número de sessões ativas");
        }
        let active_sessions = match new_gauge("chat_active_sessions", "Número de sessões ativas") {
            Some(g) => g,
            None => return None,
        };
        let m = Metrics { send_full, messages_sent, private_messages, room_messages, messages_delivered, messages_queued, offline_messages_delivered, queue_full, logins, registrations, logouts, room_joins, room_leaves, metrics_unauthorized, expired_sessions, users_online, pending_messages, active_rooms, active_sessions };
        proof {
            assert(counter_values(m) =~= Seq::new(15, |i: int| 0u64));
            assert(gauge_values(m) =~= Seq::new(4, |i: int| 0i64));
        }
        Some(m)
    }
}

/// Counts a send that failed because the receiver's channel was full: counter 0 goes up by one (wrapping), the rest stay.
pub fn inc_send_full(m: &mut Metrics)
    ensures
        counter_values(*final(m)) == counter_values(*old(m)).update(0, (counter_values(*old(m))[0] + 1) as u64),
        gauge_values(*final(m)) == gauge_values(*old(m)),
{
    counter_inc(&mut m.send_full);
    proof {
        assert(counter_values(*m) =~= counter_values(*old(m)).update(0, (counter_values(*old(m))[0] + 1) as u64));
        assert(gauge_values(*m) =~= gauge_values(*old(m)));
    }
}

/// Counts a message sent (to a room or privately): counter 1 goes up by one (wrapping), the rest stay.
pub fn inc_messages_sent(m: &mut Metrics)
    ensures
        counter_values(*final(m)) == counter_values(*old(m)).update(1, (counter_values(*old(m))[1] + 1) as u64),
        gauge_values(*final(m)) == gauge_values(*old(m)),
{
    counter_inc(&mut m.messages_sent);
    proof {
        assert(counter_values(*m) =~= counter_values(*old(m)).update(1, (counter_values(*old(m))[1] + 1) as u64));
        assert(gauge_values(*m) =~= gauge_values(*old(m)));
    }
}

/// Counts a private message sent: counter 2 goes up by one (wrapping), the rest stay.
pub fn inc_private_messages(m: &mut Metrics)
    ensures
        counter_values(*final(m)) == counter_values(*old(m)).update(2, (counter_values(*old(m))[2] + 1) as u64),
        gauge_values(*final(m)) == gauge_values(*old(m)),
{
    counter_inc(&mut m.private_messages);
    proof {
        assert(counter_values(*m) =~= counter_values(*old(m)).update(2, (counter_values(*old(m))[2] + 1) as u64));
        assert(gauge_values(*m) =~= gauge_values(*old(m)));
    }
}

/// Counts a room or broadcast message sent: counter 3 goes up by one (wrapping), the rest stay.
pub fn inc_room_messages(m: &mut Metrics)
    ensures
        counter_values(*final(m)) == counter_values(*old(m)).update(3, (counter_values(*old(m))[3] + 1) as u64),
        gauge_values(*final(m)) == gauge_values(*old(m)),
{
    counter_inc(&mut m.room_messages);
    proof {
        assert(counter_values(*m) =~= counter_values(*old(m)).update(3, (counter_values(*old(m))[3] + 1) as u64));
        assert(gauge_values(*m) =~= gauge_values(*old(m)));
    }
}

/// Counts a private message delivered at once: counter 4 goes up by one (wrapping), the rest stay.
pub fn inc_messages_delivered(m: &mut Metrics)
    ensures
        counter_values(*final(m)) == counter_values(*old(m)).update(4, (counter_values(*old(m))[4] + 1) as u64),
        gauge_values(*final(m)) == gauge_values(*old(m)),
{
    counter_inc(&mut m.messages_delivered);
    proof {
        assert(counter_values(*m) =~= counter_values(*old(m)).update(4, (counter_values(*old(m))[4] + 1) as u64));
        assert(gauge_values(*m) =~= gauge_values(*old(m)));
    }
}

/// Counts a private message kept for offline delivery: counter 5 goes up by one (wrapping), the rest stay.
pub fn inc_messages_queued(m: &mut Metrics)
    ensures
        counter_values(*final(m)) == counter_values(*old(m)).update(5, (counter_values(*old(m))[5] + 1) as u64),
        gauge_values(*final(m)) == gauge_values(*old(m)),
{
    counter_inc(&mut m.messages_queued);
    proof {
        assert(counter_values(*m) =~= counter_values(*old(m)).update(5, (counter_values(*old(m))[5] + 1) as u64));
        assert(gauge_values(*m) =~= gauge_values(*old(m)));
    }
}

/// Counts a batch of offline messages delivered at login: counter 6 goes up by one (wrapping), the rest stay.
pub fn inc_offline_messages_delivered(m: &mut Metrics)
    ensures
        counter_values(*final(m)) == counter_values(*old(m)).update(6, (counter_values(*old(m))[6] + 1) as u64),
        gauge_values(*final(m)) == gauge_values(*old(m)),
{
    counter_inc(&mut m.offline_messages_delivered);
    proof {
        assert(counter_values(*m) =~= counter_values(*old(m)).update(6, (counter_values(*old(m))[6] + 1) as u64));
        assert(gauge_values(*m) =~= gauge_values(*old(m)));
    }
}

/// Counts a private message refused because the recipient's inbox is full: counter 7 goes up by one (wrapping), the rest stay.
pub fn inc_queue_full(m: &mut Metrics)
    ensures
        counter_values(*final(m)) == counter_values(*old(m)).update(7, (counter_values(*old(m))[7] + 1) as u64),
        gauge_values(*final(m)) == gauge_values(*old(m)),
{
    counter_inc(&mut m.queue_full);
    proof {
        assert(counter_values(*m) =~= counter_values(*old(m)).update(7, (counter_values(*old(m))[7] + 1) as u64));
        assert(gauge_values(*m) =~= gauge_values(*old(m)));
    }
}

/// Counts a successful login: counter 8 goes up by one (wrapping), the rest stay.
pub fn inc_logins(m: &mut Metrics)
    ensures
        counter_values(*final(m)) == counter_values(*old(m)).update(8, (counter_values(*old(m))[8] + 1) as u64),
        gauge_values(*final(m)) == gauge_values(*old(m)),
{
    counter_inc(&mut m.logins);
    proof {
        assert(counter_values(*m) =~= counter_values(*old(m)).update(8, (counter_values(*old(m))[8] + 1) as u64));
        assert(gauge_values(*m) =~= gauge_values(*old(m)));
    }
}

/// Counts a registration: counter 9 goes up by one (wrapping), the rest stay.
pub fn inc_registrations(m: &mut Metrics)
    ensures
        counter_values(*final(m)) == counter_values(*old(m)).update(9, (counter_values(*old(m))[9] + 1) as u64),
        gauge_values(*final(m)) == gauge_values(*old(m)),
{
    counter_inc(&mut m.registrations);
    proof {
        assert(counter_values(*m) =~= counter_values(*old(m)).update(9, (counter_values(*old(m))[9] + 1) as u64));
        assert(gauge_values(*m) =~= gauge_values(*old(m)));
    }
}

/// Counts a logout: counter 10 goes up by one (wrapping), the rest stay.
pub fn inc_logouts(m: &mut Metrics)
    ensures
        counter_values(*final(m)) == counter_values(*old(m)).update(10, (counter_values(*old(m))[10] + 1) as u64),
        gauge_values(*final(m)) == gauge_values(*old(m)),
{
    counter_inc(&mut m.logouts);
    proof {
        assert(counter_values(*m) =~= counter_values(*old(m)).update(10, (counter_values(*old(m))[10] + 1) as u64));
        assert(gauge_values(*m) =~= gauge_values(*old(m)));
    }
}

/// Counts a room join: counter 11 goes up by one (wrapping), the rest stay.
pub fn inc_room_joins(m: &mut Metrics)
    ensures
        counter_values(*final(m)) == counter_values(*old(m)).update(11, (counter_values(*old(m))[11] + 1) as u64),
        gauge_values(*final(m)) == gauge_values(*old(m)),
{
    counter_inc(&mut m.room_joins);
    proof {
        assert(counter_values(*m) =~= counter_values(*old(m)).update(11, (counter_values(*old(m))[11] + 1) as u64));
        assert(gauge_values(*m) =~= gauge_values(*old(m)));
    }
}

/// Counts a room leave: counter 12 goes up by one (wrapping), the rest stay.
pub fn inc_room_leaves(m: &mut Metrics)
    ensures
        counter_values(*final(m)) == counter_values(*old(m)).update(12, (counter_values(*old(m))[12] + 1) as u64),
        gauge_values(*final(m)) == gauge_values(*old(m)),
{
    counter_inc(&mut m.room_leaves);
    proof {
        assert(counter_values(*m) =~= counter_values(*old(m)).update(12, (counter_values(*old(m))[12] + 1) as u64));
        assert(gauge_values(*m) =~= gauge_values(*old(m)));
    }
}

/// Counts a refused request for the metrics endpoint: counter 13 goes up by one (wrapping), the rest stay.
pub fn inc_metrics_unauthorized(m: &mut Metrics)
    ensures
        counter_values(*final(m)) == counter_values(*old(m)).update(13, (counter_values(*old(m))[13] + 1) as u64),
        gauge_values(*final(m)) == gauge_values(*old(m)),
{
    counter_inc(&mut m.metrics_unauthorized);
    proof {
        assert(counter_values(*m) =~= counter_values(*old(m)).update(13, (counter_values(*old(m))[13] + 1) as u64));
        assert(gauge_values(*m) =~= gauge_values(*old(m)));
    }
}

/// Whether a request for the metrics endpoint may read the metrics: when a
/// bearer token `expected` is configured, its `Authorization` header
/// (`None` when missing or not text) must be `Bearer ` and the token.
pub fn scrape_allowed(expected: Option<&str>, authorization: Option<&str>) -> (b: bool)
    ensures
        b == match expected {
            None => true,
            Some(e) => match authorization {
                Some(a) => a@ == "Bearer "@ + e@,
                None => false,
            },
        },
{
    match expected {
        None => true,
        Some(e) => match authorization {
            Some(a) => {
                let want = crate::text::concat2("Bearer ", e);
                crate::state::str_equal(a, want.as_str())
            },
            None => false,
        },
    }
}

/// Counts `n` sessions removed because they expired: counter 14 goes up by `n` (wrapping), the rest stay.
pub fn inc_expired_sessions_by(m: &mut Metrics, n: u64)
    ensures
        counter_values(*final(m)) == counter_values(*old(m)).update(14, (counter_values(*old(m))[14] + n) as u64),
        gauge_values(*final(m)) == gauge_values(*old(m)),
{
    counter_inc_by(&mut m.expired_sessions, n);
    proof {
        assert(counter_values(*m) =~= counter_values(*old(m)).update(14, (counter_values(*old(m))[14] + n) as u64));
        assert(gauge_values(*m) =~= gauge_values(*old(m)));
    }
}

/// Sets gauge 3 (open sessions) to `count`; the rest stay.
pub fn set_active_sessions(m: &mut Metrics, count: i64)
    ensures
        gauge_values(*final(m)) == gauge_values(*old(m)).update(3, count),
        counter_values(*final(m)) == counter_values(*old(m)),
{
    gauge_set(&mut m.active_sessions, count);
    proof {
        assert(gauge_values(*m) =~= gauge_values(*old(m)).update(3, count));
        assert(counter_values(*m) =~= counter_values(*old(m)));
    }
}

/// Sets gauge 0 (users online) to `count`; the rest stay.
pub fn set_users_online(m: &mut Metrics, count: i64)
    ensures
        gauge_values(*final(m)) == gauge_values(*old(m)).update(0, count),
        counter_values(*final(m)) == counter_values(*old(m)),
{
    gauge_set(&mut m.users_online, count);
    proof {
        assert(gauge_values(*m) =~= gauge_values(*old(m)).update(0, count));
        assert(counter_values(*m) =~= counter_values(*old(m)));
    }
}

/// Sets gauge 1 (pending messages) to `count`; the rest stay.
pub fn set_pending_messages(m: &mut Metrics, count: i64)
    ensures
        gauge_values(*final(m)) == gauge_values(*old(m)).update(1, count),
        counter_values(*final(m)) == counter_values(*old(m)),
{
    gauge_set(&mut m.pending_messages, count);
    proof {
        assert(gauge_values(*m) =~= gauge_values(*old(m)).update(1, count));
        assert(counter_values(*m) =~= counter_values(*old(m)));
    }
}

/// Sets gauge 2 (active rooms) to `count`; the rest stay.
pub fn set_active_rooms(m: &mut Metrics, count: i64)
    ensures
        gauge_values(*final(m)) == gauge_values(*old(m)).update(2, count),
        counter_values(*final(m)) == counter_values(*old(m)),
{
    gauge_set(&mut m.active_rooms, count);
    proof {
        assert(gauge_values(*m) =~= gauge_values(*old(m)).update(2, count));
        assert(counter_values(*m) =~= counter_values(*old(m)));
    }
}

/// The value of counter `c`.
pub fn counter_of(c: &Counter) -> (v: u64)
    ensures
        v == counter_value(*c),
{
    counter_get(c)
}

/// The value of gauge `g`.
pub fn gauge_of(g: &Gauge) -> (v: i64)
    ensures
        v == gauge_value(*g),
{
    gauge_get(g)
}

} // verus!
