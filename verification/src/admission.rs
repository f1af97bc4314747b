//! Admission control for the entry point that writes.
//!
//! Submissions are admitted at a bounded rate that all clients share: so many
//! per window of time. A burst beyond the rate is held back, up to a bounded
//! number of pending submissions, each until the window that has room for it;
//! beyond that a submission is turned away at once. Every submission has a
//! fixed time to finish in. The form itself is served without any of this.
//!
//! The policy is a value: [`Admission`] decides, and whoever serves requests
//! tells it the time and carries the decision out. Time is a count of
//! milliseconds on a clock that does not go back.

use vstd::prelude::*;

verus! {

/// The bounds that admission keeps.
#[derive(Debug, Clone, Copy, PartialEq, Eq, Structural)]
pub struct AdmissionPolicy {
    /// How many submissions a window admits; at least one.
    pub limit: u32,
    /// The length of a window in milliseconds; at least one.
    pub window_ms: u32,
    /// How many submissions may be pending beyond the current window's.
    pub buffer: u32,
    /// How long a submission may take in all, in milliseconds.
    pub timeout_ms: u32,
}

/// What admission makes of a submission.
#[derive(Debug, Clone, Copy, PartialEq, Eq, Structural)]
pub enum Decision {
    /// The submission runs now.
    Accepted,
    /// The submission is pending: it runs at the instant `until`.
    Delayed { until: u64 },
    /// Rate and buffer are both used up: the submission is turned away.
    Rejected,
}

/// The mathematical value of an [`Admission`]: its policy, the instant the
/// current window began, and the number of submissions booked into the
/// current window and the ones after it.
pub ghost struct AdmissionView {
    pub policy: AdmissionPolicy,
    pub window_start: int,
    pub booked: int,
}

impl AdmissionPolicy {
    /// A policy that admission can keep: a window has a length and admits something.
    pub open spec fn valid(self) -> bool {
        self.limit >= 1 && self.window_ms >= 1
    }

    /// The instant by which a submission that arrived at `arrived` must be
    /// done, held within the clock's range.
    pub open spec fn deadline_of(self, arrived: int) -> int {
        if arrived + self.timeout_ms > u64::MAX {
            u64::MAX as int
        } else {
            arrived + self.timeout_ms
        }
    }

    /// The fixed policy of the directory: 100 submissions a second, 100
    /// pending, 30 seconds each.
    pub fn baseline() -> (p: AdmissionPolicy)
        ensures
            p == (AdmissionPolicy { limit: 100, window_ms: 1000, buffer: 100, timeout_ms: 30000 }),
            p.valid(),
    {
        AdmissionPolicy { limit: 100, window_ms: 1000, buffer: 100, timeout_ms: 30000 }
    }

    /// The instant by which a submission that arrived at `arrived` must be done.
    pub fn deadline(&self, arrived: u64) -> (at: u64)
        ensures
            at == self.deadline_of(arrived as int),
    {
        let timeout: u64 = self.timeout_ms as u64;
        if arrived > u64::MAX - timeout {
            u64::MAX
        } else {
            arrived + timeout
        }
    }
}

impl AdmissionView {
    /// The bounds that every state of admission keeps.
    pub open spec fn wf(self) -> bool {
        &&& self.policy.valid()
        &&& 0 <= self.window_start <= u64::MAX
        &&& 0 <= self.booked <= self.policy.limit + self.policy.buffer
    }

    /// The state once the clock reads `now`, before the submission that
    /// arrives then is looked at. Within the current window nothing changes.
    /// Once whole windows have passed, what was booked into them is done; if
    /// that is all that was booked, a new window begins at `now`.
    pub open spec fn rolled(self, now: int) -> AdmissionView {
        let limit = self.policy.limit as int;
        let window = self.policy.window_ms as int;
        if self.booked == 0 {
            AdmissionView { window_start: now, ..self }
        } else if now - self.window_start < window {
            self
        } else {
            let passed = (now - self.window_start) / window;
            if passed * limit >= self.booked {
                AdmissionView { window_start: now, booked: 0, ..self }
            } else {
                AdmissionView {
                    window_start: self.window_start + passed * window,
                    booked: self.booked - passed * limit,
                    ..self
                }
            }
        }
    }

    /// The instant at which the next submission to be booked runs: the start of
    /// the window that its place falls into, held within the clock's range.
    pub open spec fn next_slot(self) -> int {
        let at = self.window_start + (self.booked / (self.policy.limit as int))
            * self.policy.window_ms;
        if at > u64::MAX {
            u64::MAX as int
        } else {
            at
        }
    }

    /// What becomes of a submission that arrives at `now`, and the state after it.
    pub open spec fn decided(self, now: int) -> (AdmissionView, Decision) {
        let s = self.rolled(now);
        if s.booked < s.policy.limit {
            (AdmissionView { booked: s.booked + 1, ..s }, Decision::Accepted)
        } else if s.booked < s.policy.limit + s.policy.buffer {
            (
                AdmissionView { booked: s.booked + 1, ..s },
                Decision::Delayed { until: s.next_slot() as u64 },
            )
        } else {
            (s, Decision::Rejected)
        }
    }

    /// The state after submissions arrive at the instants `times`, in turn.
    pub open spec fn after(self, times: Seq<int>) -> AdmissionView
        decreases times.len(),
    {
        if times.len() == 0 {
            self
        } else {
            self.after(times.drop_last()).decided(times.last()).0
        }
    }
}

/// The state of admission control.
#[derive(Debug)]
pub struct Admission {
    policy: AdmissionPolicy,
    window_start: u64,
    booked: u64,
}

impl View for Admission {
    type V = AdmissionView;

    closed spec fn view(&self) -> AdmissionView {
        AdmissionView {
            policy: self.policy,
            window_start: self.window_start as int,
            booked: self.booked as int,
        }
    }
}

impl Admission {
    #[verifier::type_invariant]
    spec fn bounds_kept(&self) -> bool {
        self@.wf()
    }

    /// Admission under `policy`, with nothing booked. `None` for a policy whose
    /// window has no length or admits nothing.
    pub fn new(policy: AdmissionPolicy) -> (r: Option<Admission>)
        ensures
            r is Some <==> policy.valid(),
            r matches Some(a) ==> a@ == (AdmissionView { policy, window_start: 0, booked: 0 })
                && a@.wf(),
    {
        if policy.limit == 0 || policy.window_ms == 0 {
            None
        } else {
            Some(Admission { policy, window_start: 0, booked: 0 })
        }
    }

    /// The policy that is kept.
    pub fn policy(&self) -> (p: AdmissionPolicy)
        ensures
            p == self@.policy,
            p.valid(),
            self@.wf(),
    {
        proof {
            use_type_invariant(self);
        }
        self.policy
    }

    /// How many submissions are pending: booked into a window after the current one.
    pub fn pending(&self) -> (n: u64)
        ensures
            n == (if self@.booked > self@.policy.limit {
                self@.booked - self@.policy.limit
            } else {
                0
            }),
    {
        proof {
            use_type_invariant(self);
        }
        let limit: u64 = self.policy.limit as u64;
        if self.booked > limit {
            self.booked - limit
        } else {
            0
        }
    }

    /// Brings the state to the instant `now`.
    fn roll(&mut self, now: u64)
        ensures
            final(self)@ == old(self)@.rolled(now as int),
            final(self)@.wf(),
    {
        proof {
            use_type_invariant(&*self);
        }
        let limit: u64 = self.policy.limit as u64;
        let window: u64 = self.policy.window_ms as u64;
        if self.booked == 0 {
            self.window_start = now;
        } else if now < self.window_start || now - self.window_start < window {
        } else {
            let passed: u64 = (now - self.window_start) / window;
            let needed: u64 = (self.booked - 1) / limit + 1;
            proof {
                lemma_windows_needed(self.booked as int, limit as int, passed as int);
                lemma_windows_passed((now - self.window_start) as int, window as int);
            }
            if passed >= needed {
                self.window_start = now;
                self.booked = 0;
            } else {
                self.window_start = self.window_start + passed * window;
                self.booked = self.booked - passed * limit;
            }
        }
    }

    /// Decides on a submission that arrives at the instant `now`, and books it
    /// unless it is turned away.
    pub fn decide(&mut self, now: u64) -> (decision: Decision)
        ensures
            (final(self)@, decision) == old(self)@.decided(now as int),
            final(self)@.wf(),
    {
        self.roll(now);
        proof {
            use_type_invariant(&*self);
        }
        let limit: u64 = self.policy.limit as u64;
        let buffer: u64 = self.policy.buffer as u64;
        let window: u64 = self.policy.window_ms as u64;
        if self.booked < limit {
            self.booked = self.booked + 1;
            Decision::Accepted
        } else if self.booked < limit + buffer {
            let ahead: u64 = self.booked / limit;
            proof {
                lemma_windows_ahead(self.booked as int, limit as int, buffer as int, window as int);
            }
            let wait: u64 = ahead * window;
            let until: u64 = if self.window_start > u64::MAX - wait {
                u64::MAX
            } else {
                self.window_start + wait
            };
            self.booked = self.booked + 1;
            Decision::Delayed { until }
        } else {
            Decision::Rejected
        }
    }
}

/// With `booked` places taken at `limit` a window, `passed` whole windows use
/// them all up exactly when `passed` reaches the number of windows they fill.
proof fn lemma_windows_needed(booked: int, limit: int, passed: int)
    requires
        booked >= 1,
        limit >= 1,
        passed >= 0,
    ensures
        passed >= (booked - 1) / limit + 1 <==> passed * limit >= booked,
        passed < (booked - 1) / limit + 1 ==> 0 <= passed * limit < booked,
{
    let q = (booked - 1) / limit;
    assert(q * limit <= booked - 1 < q * limit + limit) by (nonlinear_arith)
        requires
            q == (booked - 1) / limit,
            limit >= 1,
            booked >= 1,
    ;
    if passed >= q + 1 {
        assert(passed * limit >= (q + 1) * limit) by (nonlinear_arith)
            requires
                passed >= q + 1,
                limit >= 1,
        ;
        assert((q + 1) * limit == q * limit + limit) by (nonlinear_arith);
    } else {
        assert(passed * limit <= q * limit) by (nonlinear_arith)
            requires
                passed <= q,
                limit >= 1,
        ;
        assert(0 <= passed * limit) by (nonlinear_arith)
            requires
                passed >= 0,
                limit >= 1,
        ;
    }
}

/// The whole windows within a span of time are no longer than the span.
proof fn lemma_windows_passed(span: int, window: int)
    requires
        span >= 0,
        window >= 1,
    ensures
        0 <= (span / window) * window <= span,
{
    assert(0 <= (span / window) * window <= span) by (nonlinear_arith)
        requires
            span >= 0,
            window >= 1,
    ;
}

/// A pending submission waits no more windows than the buffer is deep.
proof fn lemma_windows_ahead(booked: int, limit: int, buffer: int, window: int)
    requires
        1 <= limit <= u32::MAX,
        0 <= buffer <= u32::MAX,
        0 <= window <= u32::MAX,
        0 <= booked < limit + buffer,
    ensures
        0 <= (booked / limit) * window <= u64::MAX,
{
    let ahead = booked / limit;
    assert(0 <= ahead <= buffer + 1) by (nonlinear_arith)
        requires
            ahead == booked / limit,
            limit >= 1,
            buffer >= 0,
            0 <= booked < limit + buffer,
    ;
    assert(0 <= ahead * window <= 0x1_0000_0000 * 0xffff_ffff) by (nonlinear_arith)
        requires
            0 <= ahead <= 0x1_0000_0000,
            0 <= window <= 0xffff_ffff,
    ;
}

/// Admission keeps its bounds whatever arrives: never more is booked than the
/// rate and the buffer allow, so never more is pending than the buffer holds.
pub proof fn lemma_bounds_are_kept(s: AdmissionView, now: int)
    requires
        s.wf(),
        0 <= now <= u64::MAX,
    ensures
        s.rolled(now).wf(),
        s.decided(now).0.wf(),
        s.decided(now).0.policy == s.policy,
        s.decided(now).1 is Rejected ==> s.decided(now).0.booked == s.policy.limit
            + s.policy.buffer,
{
    let limit = s.policy.limit as int;
    let window = s.policy.window_ms as int;
    if s.booked > 0 && now - s.window_start >= window {
        lemma_windows_needed(s.booked, limit, (now - s.window_start) / window);
        lemma_windows_passed(now - s.window_start, window);
    }
}

/// A submission that is held back runs later than it arrived: at the start
/// of a window after the current one. Where that instant is beyond the clock's
/// range, it is the clock's last.
pub proof fn lemma_delay_is_ahead(s: AdmissionView, now: int)
    requires
        s.wf(),
        0 <= now <= u64::MAX,
    ensures
        s.decided(now).1 matches Decision::Delayed { until } ==> now < until || until == u64::MAX,
{
    let limit = s.policy.limit as int;
    let window = s.policy.window_ms as int;
    let r = s.rolled(now);
    lemma_bounds_are_kept(s, now);
    if s.decided(now).1 is Delayed {
        assert(r.booked >= limit);
        assert(now - r.window_start < window) by {
            if s.booked > 0 && now - s.window_start >= window {
                let passed = (now - s.window_start) / window;
                lemma_windows_needed(s.booked, limit, passed);
                assert(now - s.window_start < passed * window + window) by (nonlinear_arith)
                    requires
                        passed == (now - s.window_start) / window,
                        window >= 1,
                        now - s.window_start >= 0,
                ;
            }
        }
        let ahead = r.booked / limit;
        assert(ahead >= 1) by (nonlinear_arith)
            requires
                ahead == r.booked / limit,
                r.booked >= limit,
                limit >= 1,
        ;
        assert(ahead * window >= window) by (nonlinear_arith)
            requires
                ahead >= 1,
                window >= 1,
        ;
    }
}

/// Where the first of some submissions opens a window and the others arrive
/// within the window's length of it, the first `n` of them, up to the rate,
/// are all booked into that window.
proof fn lemma_window_fills(s: AdmissionView, times: Seq<int>, n: int)
    requires
        s.wf(),
        1 <= n <= times.len(),
        n <= s.policy.limit,
        s.rolled(times[0]).booked == 0,
        forall|i: int| 0 <= i < times.len() ==> times[0] <= #[trigger] times[i] < times[0]
            + s.policy.window_ms,
    ensures
        s.after(times.take(n)) == (AdmissionView { window_start: times[0], booked: n, ..s }),
        s.after(times.take(n - 1)).decided(times[n - 1]).1 == Decision::Accepted,
    decreases n,
{
    assert(times.take(n).drop_last() =~= times.take(n - 1));
    assert(times.take(n).last() == times[n - 1]);
    if n == 1 {
        assert(times.take(0) =~= Seq::<int>::empty());
        assert(s.after(times.take(0)) == s);
    } else {
        lemma_window_fills(s, times, n - 1);
        assert(times[0] <= times[n - 1] < times[0] + s.policy.window_ms);
    }
}

/// A burst beyond the rate is not let through. Take a window's worth of
/// submissions and one more, the first of which opens a window (nothing is
/// booked when it arrives, or all that was booked is done) and the others
/// arriving within the window's length of it. Then every one of the window's
/// worth is accepted, the last of them too, and the one more is not: it is
/// held back until the next window begins where the buffer has room, and
/// turned away where it has none.
pub proof fn lemma_burst_beyond_rate(s: AdmissionView, times: Seq<int>)
    requires
        s.wf(),
        times.len() == s.policy.limit + 1,
        s.rolled(times[0]).booked == 0,
        forall|i: int| 0 <= i < times.len() ==> times[0] <= #[trigger] times[i] < times[0]
            + s.policy.window_ms,
    ensures
        forall|i: int|
            0 <= i < s.policy.limit ==> (#[trigger] s.after(times.take(i))).decided(times[i]).1
                == Decision::Accepted,
        s.after(times.take(s.policy.limit as int)).decided(times[s.policy.limit as int]).1
            != Decision::Accepted,
        s.after(times.take(s.policy.limit as int)).decided(times[s.policy.limit as int]).1
            is Rejected <==> s.policy.buffer == 0,
{
    let limit = s.policy.limit as int;
    assert forall|i: int| 0 <= i < limit implies (#[trigger] s.after(times.take(i))).decided(
        times[i],
    ).1 == Decision::Accepted by {
        lemma_window_fills(s, times, i + 1);
    }
    lemma_window_fills(s, times, limit);
    assert(times[0] <= times[limit] < times[0] + s.policy.window_ms);
}

} // verus!
