//! What the live-weight monitor knows between requests: the latest raw
//! reading, the tare the operator captured, a sample counter and a smoothed
//! sample interval. The server shares one value of this type between its
//! sampling thread and its request handlers; every change goes through the
//! transitions below.

use vstd::prelude::*;

verus! {

/// The monitor's state.
#[derive(Debug, Clone)]
pub struct MonitorState {
    /// Last successful raw reading (ADC counts); meaningful once `has_reading`.
    pub latest_raw: i32,
    /// Whether any reading has landed yet.
    pub has_reading: bool,
    /// The captured zero (raw counts); meaningful while `tare_set`.
    pub tare_raw: i32,
    /// Whether the operator has captured a zero.
    pub tare_set: bool,
    /// Number of readings so far (wrapping), so a page can see a stalled stream.
    pub seq: u64,
    /// Smoothed interval between readings in microseconds (0 until known).
    pub interval_us: u64,
    /// The message of the last read, if it failed.
    pub last_err: Option<String>,
}

/// The sample counter after one more reading: it wraps at `u64::MAX`.
pub open spec fn next_seq(seq: u64) -> u64 {
    if seq == u64::MAX {
        0
    } else {
        (seq + 1) as u64
    }
}

/// The smoothed interval after a new measured interval `inst`: the first
/// measurement is taken as it is, after that the average weights the new
/// one by a fifth (each part divided with truncation).
pub open spec fn ema_interval(old: u64, inst: u64) -> int {
    if old == 0 {
        inst as int
    } else {
        inst as int / 5 + (old as int * 4) / 5
    }
}

/// The reading net of the tare, while a tare is set.
pub open spec fn spec_tared_raw(s: MonitorState) -> Option<i64> {
    if s.tare_set {
        Some((s.latest_raw - s.tare_raw) as i64)
    } else {
        None
    }
}

/// The smoothed interval never exceeds the larger of the old value and the
/// new measurement, so it always fits in a `u64`.
pub proof fn law_ema_interval_bounded(old: u64, inst: u64)
    ensures
        0 <= ema_interval(old, inst),
        ema_interval(old, inst) <= if old < inst { inst as int } else { old as int },
{
    if old != 0 {
        assert(inst as int / 5 * 5 <= inst as int) by (nonlinear_arith);
        assert((old as int * 4) / 5 * 5 <= old as int * 4) by (nonlinear_arith);
        assert(inst as int / 5 >= 0) by (nonlinear_arith);
        assert((old as int * 4) / 5 >= 0) by (nonlinear_arith);
    }
}

impl MonitorState {
    /// A monitor with no reading, no tare and no error.
    pub fn new() -> (s: Self)
        ensures
            !s.has_reading,
            !s.tare_set,
            s.seq == 0,
            s.interval_us == 0,
            s.latest_raw == 0,
            s.tare_raw == 0,
            s.last_err is None,
    {
        MonitorState {
            latest_raw: 0,
            has_reading: false,
            tare_raw: 0,
            tare_set: false,
            seq: 0,
            interval_us: 0,
            last_err: None,
        }
    }

    /// A reading arrived: it becomes the latest, the counter advances and any
    /// earlier read error is cleared. The tare and interval are unchanged.
    pub fn record_ok(&mut self, raw: i32)
        ensures
            final(self).latest_raw == raw,
            final(self).has_reading,
            final(self).seq == next_seq(old(self).seq),
            final(self).last_err is None,
            final(self).tare_raw == old(self).tare_raw,
            final(self).tare_set == old(self).tare_set,
            final(self).interval_us == old(self).interval_us,
    {
        self.latest_raw = raw;
        self.has_reading = true;
        self.seq = self.seq.wrapping_add(1);
        self.last_err = None;
    }

    /// A read failed with `message`; only the error changes.
    pub fn record_err(&mut self, message: String)
        ensures
            final(self).last_err == Some(message),
            final(self).latest_raw == old(self).latest_raw,
            final(self).has_reading == old(self).has_reading,
            final(self).seq == old(self).seq,
            final(self).tare_raw == old(self).tare_raw,
            final(self).tare_set == old(self).tare_set,
            final(self).interval_us == old(self).interval_us,
    {
        self.last_err = Some(message);
    }

    /// Fold a newly measured interval between readings (microseconds) into
    /// the smoothed interval (see [`ema_interval`]).
    pub fn record_interval(&mut self, inst_us: u64)
        ensures
            final(self).interval_us == ema_interval(old(self).interval_us, inst_us),
            final(self).latest_raw == old(self).latest_raw,
            final(self).has_reading == old(self).has_reading,
            final(self).seq == old(self).seq,
            final(self).tare_raw == old(self).tare_raw,
            final(self).tare_set == old(self).tare_set,
            final(self).last_err == old(self).last_err,
    {
        let old_us = self.interval_us;
        proof {
            law_ema_interval_bounded(old_us, inst_us);
        }
        if old_us == 0 {
            self.interval_us = inst_us;
        } else {
            let wide: u128 = (inst_us as u128) / 5 + (old_us as u128 * 4) / 5;
            self.interval_us = wide as u64;
        }
    }

    /// Capture the current reading as the zero. Refused (returning `false`
    /// and changing nothing) while no reading has landed: a zero captured
    /// then would be made up.
    pub fn set_tare(&mut self) -> (ok: bool)
        ensures
            ok == old(self).has_reading,
            ok ==> final(self).tare_set && final(self).tare_raw == old(self).latest_raw,
            !ok ==> final(self).tare_set == old(self).tare_set && final(self).tare_raw == old(
                self,
            ).tare_raw,
            final(self).latest_raw == old(self).latest_raw,
            final(self).has_reading == old(self).has_reading,
            final(self).seq == old(self).seq,
            final(self).interval_us == old(self).interval_us,
            final(self).last_err == old(self).last_err,
    {
        if !self.has_reading {
            return false;
        }
        self.tare_raw = self.latest_raw;
        self.tare_set = true;
        true
    }

    /// Forget the captured zero.
    pub fn clear_tare(&mut self)
        ensures
            !final(self).tare_set,
            final(self).tare_raw == old(self).tare_raw,
            final(self).latest_raw == old(self).latest_raw,
            final(self).has_reading == old(self).has_reading,
            final(self).seq == old(self).seq,
            final(self).interval_us == old(self).interval_us,
            final(self).last_err == old(self).last_err,
    {
        self.tare_set = false;
    }

    /// The latest reading, once there is one.
    pub fn reading(&self) -> (r: Option<i32>)
        ensures
            r == (if self.has_reading { Some(self.latest_raw) } else { None }),
    {
        if self.has_reading {
            Some(self.latest_raw)
        } else {
            None
        }
    }

    /// The latest reading net of the tare, while a tare is set.
    pub fn tared_raw(&self) -> (r: Option<i64>)
        ensures
            r == spec_tared_raw(*self),
    {
        if self.tare_set {
            Some(self.latest_raw as i64 - self.tare_raw as i64)
        } else {
            None
        }
    }
}

/// Right after a successful tare the net reading is zero, and it follows
/// the gross reading from then on: a later reading `raw` nets to
/// `raw - latest` where `latest` was the reading at the tare.
pub proof fn law_tare_zeroes_then_follows(s: MonitorState, raw: i32)
    requires
        s.has_reading,
    ensures
        ({
            let t = MonitorState { tare_raw: s.latest_raw, tare_set: true, ..s };
            &&& spec_tared_raw(t) == Some(0i64)
            &&& spec_tared_raw(MonitorState { latest_raw: raw, ..t }) == Some(
                (raw - s.latest_raw) as i64,
            )
        }),
{
}

/// The request a monitor page can make.
#[derive(Debug, Clone, Copy, PartialEq, Eq)]
pub enum Endpoint {
    /// `GET /`: the page itself.
    Index,
    /// `GET /reading`: the current state as JSON.
    Reading,
    /// `POST /tare`: capture the zero.
    Tare,
    /// `POST /tare/clear`: forget the zero.
    TareClear,
    /// Anything else.
    NotFound,
}

/// The HTTP method of a request, as far as the monitor cares.
#[derive(Debug, Clone, Copy, PartialEq, Eq)]
pub enum HttpMethod {
    Get,
    Post,
    Other,
}

/// The path of a request URL: everything before the first `?`.
pub open spec fn spec_url_path(url: Seq<char>) -> Seq<char> {
    let q = crate::monitor::first_index(url, '?');
    if q < url.len() {
        url.take(q)
    } else {
        url
    }
}

/// Which endpoint a request with this method and URL asks for.
pub open spec fn spec_route(m: HttpMethod, url: Seq<char>) -> Endpoint {
    let p = spec_url_path(url);
    match m {
        HttpMethod::Get => if p == "/"@ {
            Endpoint::Index
        } else if p == "/reading"@ {
            Endpoint::Reading
        } else {
            Endpoint::NotFound
        },
        HttpMethod::Post => if p == "/tare"@ {
            Endpoint::Tare
        } else if p == "/tare/clear"@ {
            Endpoint::TareClear
        } else {
            Endpoint::NotFound
        },
        HttpMethod::Other => Endpoint::NotFound,
    }
}

fn str_eq(a: &str, b: &str) -> (r: bool)
    ensures
        r == (a@ == b@),
{
    let n = a.unicode_len();
    if n != b.unicode_len() {
        return false;
    }
    let mut i: usize = 0;
    while i < n
        invariant
            n == a@.len(),
            n == b@.len(),
            i <= n,
            forall|j: int| 0 <= j < i ==> a@[j] == b@[j],
        decreases n - i,
    {
        if a.get_char(i) != b.get_char(i) {
            return false;
        }
        i = i + 1;
    }
    proof {
        assert(a@ =~= b@);
    }
    true
}

/// Which endpoint a request asks for (see [`spec_route`]); a query string
/// is ignored.
pub fn route(m: HttpMethod, url: &str) -> (e: Endpoint)
    ensures
        e == spec_route(m, url@),
{
    let n = url.unicode_len();
    let mut q: usize = 0;
    while q < n && url.get_char(q) != '?'
        invariant
            n == url@.len(),
            q <= n,
            forall|j: int| 0 <= j < q ==> url@[j] != '?',
        decreases n - q,
    {
        q = q + 1;
    }
    proof {
        crate::monitor::lemma_first_index_is(url@, '?', q as int);
        assert(url@.take(n as int) =~= url@);
    }
    let path = url.substring_char(0, q);
    proof {
        reveal_strlit("/");
        reveal_strlit("/reading");
        reveal_strlit("/tare");
        reveal_strlit("/tare/clear");
    }
    match m {
        HttpMethod::Get => {
            if str_eq(path, "/") {
                Endpoint::Index
            } else if str_eq(path, "/reading") {
                Endpoint::Reading
            } else {
                Endpoint::NotFound
            }
        },
        HttpMethod::Post => {
            if str_eq(path, "/tare") {
                Endpoint::Tare
            } else if str_eq(path, "/tare/clear") {
                Endpoint::TareClear
            } else {
                Endpoint::NotFound
            }
        },
        HttpMethod::Other => Endpoint::NotFound,
    }
}

/// Why a state-changing request is refused, if it is: without the custom
/// header (which forces a browser to preflight the request, so a foreign
/// page cannot send it) or with a `Host` that is not a LAN name, the answer
/// is 403 with a reason.
pub open spec fn spec_refusal(has_csrf_header: bool, host_is_lan: bool) -> Option<(u16, &'static str)> {
    if !has_csrf_header {
        Some((403u16, "missing X-Doser-Monitor header"))
    } else if !host_is_lan {
        Some((403u16, "Host is not a LAN address"))
    } else {
        None
    }
}

/// Gate for the state-changing endpoints (see [`spec_refusal`]).
pub fn state_change_refusal(has_csrf_header: bool, host_is_lan: bool) -> (r: Option<(u16, &'static str)>)
    ensures
        r == spec_refusal(has_csrf_header, host_is_lan),
{
    if !has_csrf_header {
        Some((403, "missing X-Doser-Monitor header"))
    } else if !host_is_lan {
        Some((403, "Host is not a LAN address"))
    } else {
        None
    }
}

} // verus!
