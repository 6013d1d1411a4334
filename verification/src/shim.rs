//! The freestanding runtime shim layer.
//!
//! The compiled script engine and its support libraries assume a hosted C
//! runtime. On the bare device nothing provides one, so each required entry
//! point is either backed by a real host facility (writing to the text
//! output sink, answering elapsed time) or is a deterministic stub that
//! must print a fixed one-word diagnostic and terminate the process. This
//! module holds every decision those entry points make; the thin outer
//! layer only performs the resulting effect (print, write, terminate).
//!
//! The only persistent state is the runtime-start timestamp: lazily
//! initialized the first time elapsed time is asked for, then read-only.
//! Execution is single-threaded and non-preemptive, so the check-and-set
//! initialization is race-free by construction.

use vstd::arithmetic::div_mod::{
    lemma_div_is_ordered, lemma_fundamental_div_mod, lemma_mod_bound,
};
use vstd::prelude::*;

verus! {

/// Every C-runtime entry point the toolchain requires of the shim layer.
#[derive(Clone, Copy, PartialEq, Eq, Structural, Debug)]
pub enum ShimEntry {
    IsATty,
    Write,
    Open,
    LSeek,
    Close,
    FStat,
    GetPid,
    Kill,
    TimeOfDay,
    Sbrk,
    Read,
    Exit,
}

/// How one entry point behaves: backed by a real host facility, or a
/// deterministic "unsupported, abort" stub kept only for the linker.
#[derive(Clone, Copy, PartialEq, Eq, Structural, Debug)]
pub enum ShimDisposition {
    /// Implemented with a genuinely available host facility.
    Backed,
    /// Prints its diagnostic and unconditionally terminates the process.
    Unsupported,
}

/// Exactly two entry points are backed: write-to-output and
/// get-current-time. Every other one is an unsupported stub.
pub open spec fn spec_disposition(e: ShimEntry) -> ShimDisposition {
    match e {
        ShimEntry::Write => ShimDisposition::Backed,
        ShimEntry::TimeOfDay => ShimDisposition::Backed,
        _ => ShimDisposition::Unsupported,
    }
}

/// The fixed one-word diagnostic naming an entry point. An unsupported
/// stub prints exactly this, whatever its arguments were.
pub open spec fn spec_diagnostic(e: ShimEntry) -> Seq<char> {
    match e {
        ShimEntry::IsATty => "isatty"@,
        ShimEntry::Write => "write"@,
        ShimEntry::Open => "open"@,
        ShimEntry::LSeek => "lseek"@,
        ShimEntry::Close => "close"@,
        ShimEntry::FStat => "fstat"@,
        ShimEntry::GetPid => "getpid"@,
        ShimEntry::Kill => "kill"@,
        ShimEntry::TimeOfDay => "gettimeofday"@,
        ShimEntry::Sbrk => "sbrk"@,
        ShimEntry::Read => "read"@,
        ShimEntry::Exit => "exit"@,
    }
}

/// How an entry point behaves, as executable data.
pub fn disposition(e: ShimEntry) -> (r: ShimDisposition)
    ensures
        r == spec_disposition(e),
{
    match e {
        ShimEntry::Write => ShimDisposition::Backed,
        ShimEntry::TimeOfDay => ShimDisposition::Backed,
        _ => ShimDisposition::Unsupported,
    }
}

/// The fixed diagnostic of an entry point.
pub fn diagnostic(e: ShimEntry) -> (r: &'static str)
    ensures
        r@ == spec_diagnostic(e),
{
    match e {
        ShimEntry::IsATty => "isatty",
        ShimEntry::Write => "write",
        ShimEntry::Open => "open",
        ShimEntry::LSeek => "lseek",
        ShimEntry::Close => "close",
        ShimEntry::FStat => "fstat",
        ShimEntry::GetPid => "getpid",
        ShimEntry::Kill => "kill",
        ShimEntry::TimeOfDay => "gettimeofday",
        ShimEntry::Sbrk => "sbrk",
        ShimEntry::Read => "read",
        ShimEntry::Exit => "exit",
    }
}

/// Unsupported-shim determinism law: what an unsupported entry point does
/// is a function of the entry point alone — its disposition and its
/// diagnostic are given by the two tables above, which take nothing but
/// the entry point, so no argument can change which diagnostic is printed
/// or whether the process terminates. The diagnostic it always prints is
/// never empty.
pub proof fn lemma_stub_deterministic(e: ShimEntry)
    requires
        spec_disposition(e) == ShimDisposition::Unsupported,
    ensures
        spec_diagnostic(e).len() > 0,
{
    reveal_strlit("isatty");
    reveal_strlit("open");
    reveal_strlit("lseek");
    reveal_strlit("close");
    reveal_strlit("fstat");
    reveal_strlit("getpid");
    reveal_strlit("kill");
    reveal_strlit("sbrk");
    reveal_strlit("read");
    reveal_strlit("exit");
}

/// Elapsed whole seconds and sub-second microseconds, as the C runtime's
/// time-of-day call reports them.
#[derive(Clone, Copy, PartialEq, Eq, Structural, Debug)]
pub struct Timeval {
    pub tv_sec: i64,
    pub tv_usec: i64,
}

/// The `Timeval` reporting an elapsed duration given in microseconds.
pub open spec fn spec_timeval_of(micros: u64) -> Timeval {
    Timeval { tv_sec: (micros / 1_000_000) as i64, tv_usec: (micros % 1_000_000) as i64 }
}

/// Pointwise order on reported times: later means no smaller seconds, and
/// no smaller microseconds at equal seconds.
pub open spec fn timeval_le(a: Timeval, b: Timeval) -> bool {
    a.tv_sec < b.tv_sec || (a.tv_sec == b.tv_sec && a.tv_usec <= b.tv_usec)
}

/// The elapsed microseconds a query reads: zero before the start timestamp
/// exists (the first query itself establishes it), the distance from the
/// start otherwise. A host clock that ran backwards is clamped to zero
/// rather than wrapped.
pub open spec fn spec_elapsed(start: Option<u64>, now: u64) -> u64 {
    match start {
        Option::None => 0,
        Option::Some(s) => if now >= s {
            (now - s) as u64
        } else {
            0
        },
    }
}

/// The start timestamp after a query: the first query writes the current
/// reading, every later query leaves it untouched.
pub open spec fn spec_start_after(start: Option<u64>, now: u64) -> Option<u64> {
    match start {
        Option::None => Option::Some(now),
        Option::Some(s) => Option::Some(s),
    }
}

/// What one time-of-day query answers.
#[derive(Clone, Copy, PartialEq, Eq, Structural, Debug)]
pub struct TimeAnswer {
    /// Elapsed time since the runtime-start timestamp.
    pub tv: Timeval,
    /// Whether the caller also asked for time-zone information, which the
    /// shim cannot supply: the whole process must then terminate.
    pub timezone_fatal: bool,
}

/// The runtime-start timestamp: process-wide, lazily initialized by the
/// first time query, read-only thereafter.
pub struct ShimClock {
    start: Option<u64>,
}

impl ShimClock {
    /// The start timestamp, in host monotonic microseconds, once a query
    /// has established it.
    pub closed spec fn spec_start(&self) -> Option<u64> {
        self.start
    }

    /// A fresh clock: no query has been made, no timestamp exists.
    pub fn new() -> (c: ShimClock)
        ensures
            c.spec_start() is None,
    {
        ShimClock { start: Option::None }
    }

    /// Answer one time-of-day query, given the host's monotonic clock
    /// reading in microseconds. The first query establishes the start
    /// timestamp and therefore reads exactly zero elapsed time. Asking for
    /// time-zone resolution marks the answer fatal; the elapsed time is
    /// still reported, as the caller writes it out before terminating.
    pub fn query(&mut self, now_micros: u64, with_timezone: bool) -> (r: TimeAnswer)
        ensures
            final(self).spec_start() == spec_start_after(old(self).spec_start(), now_micros),
            r.tv == spec_timeval_of(spec_elapsed(old(self).spec_start(), now_micros)),
            r.timezone_fatal == with_timezone,
            old(self).spec_start() is None ==> r.tv == spec_timeval_of(0),
    {
        let start: u64 = match self.start {
            Option::Some(s) => s,
            Option::None => {
                self.start = Option::Some(now_micros);
                now_micros
            },
        };
        let elapsed: u64 = if now_micros >= start {
            now_micros - start
        } else {
            0
        };
        proof {
            lemma_div_is_ordered(elapsed as int, u64::MAX as int, 1_000_000);
            lemma_mod_bound(elapsed as int, 1_000_000);
        }
        let tv = Timeval {
            tv_sec: (elapsed / 1_000_000) as i64,
            tv_usec: (elapsed % 1_000_000) as i64,
        };
        TimeAnswer { tv, timezone_fatal: with_timezone }
    }
}

/// Monotonic-time law: reading the clock twice, the later reading reports
/// no smaller a time — elapsed microseconds that do not decrease yield
/// `Timeval`s that do not decrease.
pub proof fn lemma_time_monotonic(m1: u64, m2: u64)
    requires
        m1 <= m2,
    ensures
        timeval_le(spec_timeval_of(m1), spec_timeval_of(m2)),
{
    lemma_div_is_ordered(m1 as int, m2 as int, 1_000_000);
    lemma_div_is_ordered(m1 as int, u64::MAX as int, 1_000_000);
    lemma_div_is_ordered(m2 as int, u64::MAX as int, 1_000_000);
    lemma_mod_bound(m1 as int, 1_000_000);
    lemma_mod_bound(m2 as int, 1_000_000);
    if m1 as int / 1_000_000 == m2 as int / 1_000_000 {
        lemma_fundamental_div_mod(m1 as int, 1_000_000);
        lemma_fundamental_div_mod(m2 as int, 1_000_000);
    }
}

/// Monotonic-time law over two successive queries of one clock: whatever
/// state the clock starts in, if the host readings do not decrease and the
/// first reading is no earlier than an already-established start, the two
/// answers do not decrease either — and on a fresh clock the first answer
/// is exactly zero.
pub proof fn lemma_successive_queries_monotonic(start: Option<u64>, now1: u64, now2: u64)
    requires
        now1 <= now2,
        start matches Option::Some(s) ==> s <= now1,
    ensures
        timeval_le(
            spec_timeval_of(spec_elapsed(start, now1)),
            spec_timeval_of(spec_elapsed(spec_start_after(start, now1), now2)),
        ),
        start is None ==> spec_elapsed(start, now1) == 0,
{
    lemma_time_monotonic(
        spec_elapsed(start, now1),
        spec_elapsed(spec_start_after(start, now1), now2),
    );
}

} // verus!
