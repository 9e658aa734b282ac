//! Per-caller request rate limiting in one-second windows, and the table of
//! callers' windows.
use vstd::prelude::*;
use vstd::hash_map::StringHashMap;
use crate::text::{first_segment, first_segment_of, owned, text_eq, trim_spec, trimmed};

verus! {

/// The length of a counting window, in nanoseconds.
pub const WINDOW_NS: u64 = 1_000_000_000;

/// Requests per window a caller may make with `POST`, `PUT` or `DELETE`.
pub const WRITE_LIMIT: u32 = 12;

/// Requests per window a caller may make with any other method.
pub const READ_LIMIT: u32 = 40;

/// A caller's current window: when it started and how many requests it saw.
#[derive(Debug, Clone, Copy, PartialEq, Eq)]
pub struct Window {
    pub started_ns: u64,
    pub count: u32,
}

/// A method that changes state.
pub open spec fn is_write_method(m: Seq<char>) -> bool {
    m == "POST"@ || m == "PUT"@ || m == "DELETE"@
}

/// The per-window allowance for a request method.
pub open spec fn limit_for(m: Seq<char>) -> u32 {
    if is_write_method(m) {
        WRITE_LIMIT
    } else {
        READ_LIMIT
    }
}

/// The per-window allowance for a request method.
pub fn request_limit(method: &str) -> (l: u32)
    ensures
        l == limit_for(method@),
{
    if text_eq(method, "POST") || text_eq(method, "PUT") || text_eq(method, "DELETE") {
        WRITE_LIMIT
    } else {
        READ_LIMIT
    }
}

/// The window a request at `now` counts in: a new one when the caller has
/// none or its window started a full window length ago or earlier.
pub open spec fn current_window(prev: Option<Window>, now: u64) -> Window {
    match prev {
        None => Window { started_ns: now, count: 0 },
        Some(w) => if now >= w.started_ns && now - w.started_ns >= WINDOW_NS {
            Window { started_ns: now, count: 0 }
        } else {
            w
        },
    }
}

/// The window after one more request at `now`, and whether that request is
/// admitted: it is when the window's count, including it, is within `limit`.
/// The count stops at `u32::MAX`.
pub open spec fn rate_step_spec(prev: Option<Window>, now: u64, limit: u32) -> (Window, bool) {
    let b = current_window(prev, now);
    let c: u32 = if b.count < u32::MAX {
        (b.count + 1) as u32
    } else {
        u32::MAX
    };
    (Window { started_ns: b.started_ns, count: c }, c <= limit)
}

/// Counts one request at `now` against the caller's window.
pub fn rate_step(prev: Option<Window>, now_ns: u64, limit: u32) -> (r: (Window, bool))
    ensures
        r == rate_step_spec(prev, now_ns, limit),
{
    let base = match prev {
        None => Window { started_ns: now_ns, count: 0 },
        Some(w) => if now_ns >= w.started_ns && now_ns - w.started_ns >= WINDOW_NS {
            Window { started_ns: now_ns, count: 0 }
        } else {
            w
        },
    };
    let c = if base.count < u32::MAX {
        base.count + 1
    } else {
        u32::MAX
    };
    (Window { started_ns: base.started_ns, count: c }, c <= limit)
}

/// The address a request is counted under: the first entry of
/// `X-Forwarded-For`, trimmed, when the header is present, else the peer's
/// address.
pub fn client_ip(forwarded: Option<&str>, peer: &str) -> (ip: String)
    ensures
        ip@ == match forwarded {
            Some(v) => trim_spec(first_segment(v@, ',')),
            None => peer@,
        },
{
    match forwarded {
        Some(v) => {
            let first = first_segment_of(v, ',');
            trimmed(first.as_str())
        },
        None => owned(peer),
    }
}

/// The effect of requests at `times`, in order, on a caller whose window was
/// `prev`: the resulting window and how many of them were admitted.
pub open spec fn replay(prev: Option<Window>, times: Seq<u64>, limit: u32) -> (Option<Window>, nat)
    decreases times.len(),
{
    if times.len() == 0 {
        (prev, 0)
    } else {
        let (p, admitted) = replay(prev, times.drop_last(), limit);
        let (w, ok) = rate_step_spec(p, times.last(), limit);
        (Some(w), admitted + if ok {
            1nat
        } else {
            0nat
        })
    }
}

/// The effect of one request from `key` at `now` on a table of callers'
/// windows: the caller's window is stepped (a caller without one starts a
/// fresh one), and the request is admitted or refused by that window alone.
pub open spec fn table_step(t: Map<Seq<char>, Window>, key: Seq<char>, now: u64, limit: u32) -> (
    Map<Seq<char>, Window>,
    bool,
) {
    let prev = if t.contains_key(key) {
        Some(t[key])
    } else {
        None
    };
    let (w, ok) = rate_step_spec(prev, now, limit);
    (t.insert(key, w), ok)
}

/// The current window of every caller that has made a request.
pub struct RateTable {
    windows: StringHashMap<Window>,
}

impl View for RateTable {
    type V = Map<Seq<char>, Window>;

    closed spec fn view(&self) -> Map<Seq<char>, Window> {
        self.windows@
    }
}

impl RateTable {
    /// A table in which no caller has a window yet.
    pub fn new() -> (t: RateTable)
        ensures
            t@ == Map::<Seq<char>, Window>::empty(),
    {
        RateTable { windows: StringHashMap::new() }
    }

    /// The current window of caller `key`, if it has one.
    pub fn window(&self, key: &str) -> (w: Option<Window>)
        ensures
            w == (if self@.contains_key(key@) {
                Some(self@[key@])
            } else {
                None
            }),
    {
        match self.windows.get(key) {
            Some(w) => Some(*w),
            None => None,
        }
    }

    /// Counts one request from caller `key` at `now` and says whether it is
    /// admitted under `limit`.
    pub fn hit(&mut self, key: String, now_ns: u64, limit: u32) -> (ok: bool)
        ensures
            (final(self)@, ok) == table_step(old(self)@, key@, now_ns, limit),
    {
        let prev = self.window(key.as_str());
        let (w, ok) = rate_step(prev, now_ns, limit);
        self.windows.insert(key, w);
        ok
    }
}

} // verus!
