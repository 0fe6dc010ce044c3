//! Lazy and adjustable animation clocks.
//!
//! A [`LazyClock`] fetches the monotonic time once and then retains it until
//! it is explicitly cleared or set. An [`AdjustableClock`] runs a virtual
//! time on top of a lazy clock: every observed change of the underlying time
//! moves the virtual time by at most one frame (`MAX_STEP_NANOS`), scaled by
//! the clock's rate.
use vstd::prelude::*;

use crate::time::{max_nanos, Duration, MAX_TOTAL_NANOS, NANOS_PER_SEC};

verus! {

/// The largest step of the underlying time that one observation hands on to
/// the virtual time: about one frame at 60 Hz.
pub const MAX_STEP_NANOS: u64 = 16_666_667;

/// Reads `CLOCK_MONOTONIC` with `rustix::time::clock_gettime` and returns
/// the seconds and nanoseconds of the timespec. The contract claims only
/// what rustix documents for `Timespec::tv_nsec` and POSIX for a
/// normalized timespec: the nanoseconds lie in `0..1_000_000_000`. What the
/// clock reads is left unsaid.
#[verifier::external_body]
fn clock_gettime_monotonic() -> (ts: (i64, i64))
    ensures
        0 <= ts.1 < NANOS_PER_SEC,
{
    let ts = rustix::time::clock_gettime(rustix::time::ClockId::Monotonic);
    (ts.tv_sec, ts.tv_nsec)
}

/// The span a timespec of `secs` seconds and `nsecs` nanoseconds gives, with
/// the seconds taken as an unsigned count.
pub fn duration_from_timespec(secs: i64, nsecs: i64) -> (d: Duration)
    requires
        0 <= nsecs < NANOS_PER_SEC,
    ensures
        d@ == (secs as u64) * NANOS_PER_SEC + nsecs,
{
    let secs: u64 = secs as u64;
    let nsecs: u32 = nsecs as u32;
    assert(secs * NANOS_PER_SEC + nsecs <= max_nanos()) by (nonlinear_arith)
        requires
            secs <= u64::MAX,
            nsecs < NANOS_PER_SEC,
    ;
    Duration::new(secs, nsecs)
}

/// The current time of the monotonic clock. What it reads depends on the
/// time, so nothing is stated of the value; `duration_from_timespec` states
/// how the reading becomes a span.
pub fn get_monotonic_time() -> (d: Duration) {
    let (secs, nsecs) = clock_gettime_monotonic();
    duration_from_timespec(secs, nsecs)
}

/// What one read of a lazy clock does: a stored time is returned and kept;
/// without one, the time read is fetched and stored.
pub open spec fn lazy_now_spec(pre: Option<Duration>, post: Option<Duration>, r: Duration) -> bool {
    match pre {
        Some(t) => r == t && post == pre,
        None => post == Some(r),
    }
}

/// A clock that fetches the time once and then retains it until explicitly
/// cleared.
#[derive(Debug)]
pub struct LazyClock {
    time: Option<Duration>,
}

impl View for LazyClock {
    type V = Option<Duration>;

    /// The retained time, if any.
    closed spec fn view(&self) -> Option<Duration> {
        self.time
    }
}

impl Default for LazyClock {
    fn default() -> (c: LazyClock)
        ensures
            c@ == None::<Duration>,
    {
        LazyClock { time: None }
    }
}

impl LazyClock {
    /// A clock that retains `time`.
    pub fn with_time(time: Duration) -> (c: LazyClock)
        ensures
            c@ == Some(time),
    {
        LazyClock { time: Some(time) }
    }

    /// Forgets the retained time, so that the next read fetches it anew.
    pub fn clear(&mut self)
        ensures
            final(self)@ == None::<Duration>,
    {
        self.time = None;
    }

    /// Retains `time`.
    pub fn set(&mut self, time: Duration)
        ensures
            final(self)@ == Some(time),
    {
        self.time = Some(time);
    }

    /// The retained time; without one, the monotonic time, which is then
    /// retained.
    pub fn now(&mut self) -> (r: Duration)
        ensures
            lazy_now_spec(old(self)@, final(self)@, r),
    {
        match self.time {
            Some(t) => t,
            None => {
                let t = get_monotonic_time();
                self.time = Some(t);
                t
            },
        }
    }
}

/// Two reads of a lazy clock with nothing in between give the same time:
/// the clock fetches the time once and retains it.
pub proof fn law_lazy_now_retains(
    c0: Option<Duration>,
    c1: Option<Duration>,
    c2: Option<Duration>,
    r1: Duration,
    r2: Duration,
)
    requires
        lazy_now_spec(c0, c1, r1),
        lazy_now_spec(c1, c2, r2),
    ensures
        r2 == r1,
        c2 == c1,
        c1 == Some(r1),
{
}

/// A read after the clock was set to `t` gives `t`.
pub proof fn law_lazy_now_after_set(t: Duration, post: Option<Duration>, r: Duration)
    requires
        lazy_now_spec(Some(t), post, r),
    ensures
        r == t,
        post == Some(t),
{
}

/// The state of an adjustable clock.
pub struct ClockView {
    /// The time the underlying lazy clock retains, if any.
    pub unadjusted: Option<Duration>,
    /// The virtual time.
    pub current: Duration,
    /// The underlying time at the last read.
    pub last_seen: Duration,
    /// Whether animations should complete instantly.
    pub complete_instantly: bool,
}

/// The distance between two underlying times, capped at one frame.
pub open spec fn step_span(from: nat, to: nat) -> nat {
    let gap: nat = if from <= to { (to - from) as nat } else { (from - to) as nat };
    if gap <= MAX_STEP_NANOS { gap } else { MAX_STEP_NANOS as nat }
}

/// The virtual time after a step of `scaled` nanoseconds, forward or
/// backward, saturating at the bounds of `Duration`.
pub open spec fn stepped(current: nat, scaled: nat, forward: bool) -> nat {
    if forward {
        if current + scaled <= max_nanos() { current + scaled } else { max_nanos() }
    } else {
        if scaled <= current { (current - scaled) as nat } else { 0 }
    }
}

/// What one read of an adjustable clock does. The underlying time `t` is
/// read from the lazy clock. Where it equals the time of the last read, the
/// virtual time stays. Otherwise the distance to it, capped at one frame,
/// is handed to `scale`, and the virtual time moves by the scaled span in
/// the direction in which the underlying time moved. The read returns the
/// virtual time.
pub open spec fn now_spec<F: Fn(Duration) -> Duration>(
    pre: ClockView,
    post: ClockView,
    r: Duration,
    scale: F,
) -> bool {
    let t = post.last_seen;
    &&& lazy_now_spec(pre.unadjusted, post.unadjusted, t)
    &&& post.complete_instantly == pre.complete_instantly
    &&& r == post.current
    &&& if t@ == pre.last_seen@ {
        post.current == pre.current
    } else {
        exists|d: Duration, s: Duration|
            #![trigger scale.ensures((d,), s)]
            d@ == step_span(pre.last_seen@, t@) && scale.ensures((d,), s) && post.current@
                == stepped(pre.current@, s@, pre.last_seen@ < t@)
    }
}

/// A clock whose virtual time follows an underlying lazy clock, one capped
/// and scaled step per observed change.
#[derive(Debug)]
pub struct AdjustableClock {
    inner: LazyClock,
    current_time: Duration,
    last_seen_time: Duration,
    complete_instantly: bool,
}

impl View for AdjustableClock {
    type V = ClockView;

    closed spec fn view(&self) -> ClockView {
        ClockView {
            unadjusted: self.inner@,
            current: self.current_time,
            last_seen: self.last_seen_time,
            complete_instantly: self.complete_instantly,
        }
    }
}

impl Default for AdjustableClock {
    fn default() -> (c: AdjustableClock)
        ensures
            c@.unadjusted == Some(c@.current),
            c@.current == c@.last_seen,
            !c@.complete_instantly,
    {
        AdjustableClock::new(LazyClock::default())
    }
}

impl AdjustableClock {
    /// A clock whose virtual time starts at the time `inner` reads.
    pub fn new(inner: LazyClock) -> (c: AdjustableClock)
        ensures
            lazy_now_spec(inner@, c@.unadjusted, c@.current),
            c@.current == c@.last_seen,
            !c@.complete_instantly,
    {
        let mut inner = inner;
        let time = inner.now();
        AdjustableClock {
            inner,
            current_time: time,
            last_seen_time: time,
            complete_instantly: false,
        }
    }

    /// Whether animations should complete instantly.
    pub fn should_complete_instantly(&self) -> (b: bool)
        ensures
            b == self@.complete_instantly,
    {
        self.complete_instantly
    }

    /// Sets whether animations should complete instantly.
    pub fn set_complete_instantly(&mut self, value: bool)
        ensures
            final(self)@ == (ClockView { complete_instantly: value, ..old(self)@ }),
    {
        self.complete_instantly = value;
    }

    /// The underlying time, not adjusted for the rate.
    pub fn now_unadjusted(&mut self) -> (r: Duration)
        ensures
            lazy_now_spec(old(self)@.unadjusted, final(self)@.unadjusted, r),
            final(self)@.current == old(self)@.current,
            final(self)@.last_seen == old(self)@.last_seen,
            final(self)@.complete_instantly == old(self)@.complete_instantly,
    {
        self.inner.now()
    }

    /// Sets the underlying time.
    pub fn set_unadjusted(&mut self, time: Duration)
        ensures
            final(self)@ == (ClockView { unadjusted: Some(time), ..old(self)@ }),
    {
        self.inner.set(time);
    }

    /// Clears the underlying time, so that it is fetched again at the next
    /// read.
    pub fn clear(&mut self)
        ensures
            final(self)@ == (ClockView { unadjusted: None, ..old(self)@ }),
    {
        self.inner.clear();
    }

    /// The virtual time, after following the underlying time by one capped
    /// step that `scale` turns into the span the virtual time moves.
    pub fn now<F: Fn(Duration) -> Duration>(&mut self, scale: F) -> (r: Duration)
        requires
            forall|d: Duration| #[trigger] scale.requires((d,)),
        ensures
            now_spec(old(self)@, final(self)@, r, scale),
    {
        let time = self.inner.now();
        if self.last_seen_time.same_as(&time) {
            return self.current_time;
        }
        let max_step = Duration::from_nanos(MAX_STEP_NANOS);
        let forward = self.last_seen_time.is_shorter_than(&time);
        if forward {
            let delta = time.sub(self.last_seen_time);
            let delta = delta.min(max_step);
            let scaled = scale(delta);
            self.current_time = self.current_time.saturating_add(scaled);
        } else {
            let delta = self.last_seen_time.sub(time);
            let delta = delta.min(max_step);
            let scaled = scale(delta);
            self.current_time = self.current_time.saturating_sub(scaled);
        }
        self.last_seen_time = time;
        self.current_time
    }
}

/// Two reads of an adjustable clock with nothing in between give the same
/// virtual time and leave the clock as the first read left it, whatever
/// the rate.
pub proof fn law_now_repeats<F: Fn(Duration) -> Duration, G: Fn(Duration) -> Duration>(
    c0: ClockView,
    c1: ClockView,
    c2: ClockView,
    r1: Duration,
    r2: Duration,
    first_scale: F,
    second_scale: G,
)
    requires
        now_spec(c0, c1, r1, first_scale),
        now_spec(c1, c2, r2, second_scale),
    ensures
        r2 == r1,
        c2 == c1,
{
}

/// One read moves the virtual time by at most what the scaling makes of a
/// span of one frame: where every span of at most `MAX_STEP_NANOS` scales
/// to at most `bound` nanoseconds, the virtual time moves by at most
/// `bound`.
pub proof fn law_now_step_bounded<F: Fn(Duration) -> Duration>(
    c0: ClockView,
    c1: ClockView,
    r: Duration,
    scale: F,
    bound: nat,
)
    requires
        now_spec(c0, c1, r, scale),
        forall|d: Duration, s: Duration|
            #![trigger scale.ensures((d,), s)]
            scale.ensures((d,), s) && d@ <= MAX_STEP_NANOS ==> s@ <= bound,
    ensures
        c0.current@ - bound <= r@ <= c0.current@ + bound,
{
    Duration::lemma_view_bounded(c0.current);
    if c1.last_seen@ != c0.last_seen@ {
        let (d, s) = choose|d: Duration, s: Duration|
            #![trigger scale.ensures((d,), s)]
            d@ == step_span(c0.last_seen@, c1.last_seen@) && scale.ensures((d,), s) && c1.current@
                == stepped(c0.current@, s@, c0.last_seen@ < c1.last_seen@);
        assert(s@ <= bound);
    }
}

/// The virtual time moves in the direction of the underlying time: it does
/// not fall when the underlying time rises, nor rise when it falls.
pub proof fn law_now_follows_direction<F: Fn(Duration) -> Duration>(
    c0: ClockView,
    c1: ClockView,
    r: Duration,
    scale: F,
)
    requires
        now_spec(c0, c1, r, scale),
    ensures
        c0.last_seen@ <= c1.last_seen@ ==> c0.current@ <= r@,
        c1.last_seen@ <= c0.last_seen@ ==> r@ <= c0.current@,
{
    Duration::lemma_view_bounded(c0.current);
    if c1.last_seen@ != c0.last_seen@ {
        let (d, s) = choose|d: Duration, s: Duration|
            #![trigger scale.ensures((d,), s)]
            d@ == step_span(c0.last_seen@, c1.last_seen@) && scale.ensures((d,), s) && c1.current@
                == stepped(c0.current@, s@, c0.last_seen@ < c1.last_seen@);
    }
}

/// At rate one (a scaling that hands every span back unchanged) a read
/// moves the virtual time by the distance the underlying time moved, capped
/// at one frame.
pub proof fn law_now_unit_rate<F: Fn(Duration) -> Duration>(
    c0: ClockView,
    c1: ClockView,
    r: Duration,
    scale: F,
)
    requires
        now_spec(c0, c1, r, scale),
        forall|d: Duration, s: Duration| #[trigger] scale.ensures((d,), s) ==> s@ == d@,
    ensures
        c1.last_seen@ != c0.last_seen@ ==> r@ == stepped(
            c0.current@,
            step_span(c0.last_seen@, c1.last_seen@),
            c0.last_seen@ < c1.last_seen@,
        ),
        c1.last_seen@ == c0.last_seen@ ==> r == c0.current,
{
    if c1.last_seen@ != c0.last_seen@ {
        let (d, s) = choose|d: Duration, s: Duration|
            #![trigger scale.ensures((d,), s)]
            d@ == step_span(c0.last_seen@, c1.last_seen@) && scale.ensures((d,), s) && c1.current@
                == stepped(c0.current@, s@, c0.last_seen@ < c1.last_seen@);
        assert(s@ == d@);
    }
}

/// At rate one, a virtual time that agrees with the underlying time keeps
/// agreeing with it across every step of at most one frame: small steps
/// advance the virtual time one to one.
pub proof fn law_now_unit_rate_tracks<F: Fn(Duration) -> Duration>(
    c0: ClockView,
    c1: ClockView,
    r: Duration,
    scale: F,
)
    requires
        now_spec(c0, c1, r, scale),
        forall|d: Duration, s: Duration| #[trigger] scale.ensures((d,), s) ==> s@ == d@,
        c0.current@ == c0.last_seen@,
        c1.last_seen@ <= c0.last_seen@ + MAX_STEP_NANOS,
        c0.last_seen@ <= c1.last_seen@ + MAX_STEP_NANOS,
    ensures
        r@ == c1.last_seen@,
{
    Duration::lemma_view_bounded(c1.last_seen);
    law_now_unit_rate(c0, c1, r, scale);
}

/// After the underlying time was set to `t`, a read of the adjustable clock
/// observes `t` and keeps it.
pub proof fn law_now_after_set_unadjusted<F: Fn(Duration) -> Duration>(
    c0: ClockView,
    c1: ClockView,
    r: Duration,
    scale: F,
    t: Duration,
)
    requires
        c0.unadjusted == Some(t),
        now_spec(c0, c1, r, scale),
    ensures
        c1.last_seen == t,
        c1.unadjusted == Some(t),
{
}

/// Whenever the underlying time moved, the span handed to the scaling is
/// the distance it moved, capped at one frame: the distance itself when it
/// is at most 16_666_667 ns, and exactly 16_666_667 ns for every longer
/// distance, however long.
pub proof fn law_now_hands_capped_distance<F: Fn(Duration) -> Duration>(
    c0: ClockView,
    c1: ClockView,
    r: Duration,
    scale: F,
)
    requires
        now_spec(c0, c1, r, scale),
        c1.last_seen@ != c0.last_seen@,
    ensures
        exists|d: Duration, s: Duration|
            #![trigger scale.ensures((d,), s)]
            scale.ensures((d,), s) && (c0.last_seen@ < c1.last_seen@ && c1.last_seen@ - c0.last_seen@
                <= 16_666_667 ==> d@ == c1.last_seen@ - c0.last_seen@) && (c0.last_seen@
                < c1.last_seen@ && c1.last_seen@ - c0.last_seen@ > 16_666_667 ==> d@ == 16_666_667)
                && (c1.last_seen@ < c0.last_seen@ && c0.last_seen@ - c1.last_seen@ <= 16_666_667
                ==> d@ == c0.last_seen@ - c1.last_seen@) && (c1.last_seen@ < c0.last_seen@
                && c0.last_seen@ - c1.last_seen@ > 16_666_667 ==> d@ == 16_666_667),
{
    let (d, s) = choose|d: Duration, s: Duration|
        #![trigger scale.ensures((d,), s)]
        d@ == step_span(c0.last_seen@, c1.last_seen@) && scale.ensures((d,), s) && c1.current@
            == stepped(c0.current@, s@, c0.last_seen@ < c1.last_seen@);
    assert(scale.ensures((d,), s));
}

/// At rate one (a scaling that hands every span back unchanged), a read
/// after the underlying time moved forward by `g` nanoseconds gives the
/// previous virtual time plus `min(g, 16_666_667)`, saturating at the
/// largest duration; after it moved back by `g`, the previous virtual time
/// minus `min(g, 16_666_667)`, saturating at zero.
pub proof fn law_now_unit_rate_moves_by_capped_distance<F: Fn(Duration) -> Duration>(
    c0: ClockView,
    c1: ClockView,
    r: Duration,
    scale: F,
)
    requires
        now_spec(c0, c1, r, scale),
        forall|d: Duration, s: Duration| #[trigger] scale.ensures((d,), s) ==> s@ == d@,
    ensures
        c1.last_seen@ == c0.last_seen@ ==> r@ == c0.current@,
        c0.last_seen@ < c1.last_seen@ ==> {
            let g = c1.last_seen@ - c0.last_seen@;
            let m = if g <= 16_666_667 { g } else { 16_666_667 };
            r@ == if c0.current@ + m <= MAX_TOTAL_NANOS { c0.current@ + m } else { MAX_TOTAL_NANOS as int }
        },
        c1.last_seen@ < c0.last_seen@ ==> {
            let g = c0.last_seen@ - c1.last_seen@;
            let m = if g <= 16_666_667 { g } else { 16_666_667 };
            r@ == if m <= c0.current@ { c0.current@ - m } else { 0 }
        },
{
    if c1.last_seen@ != c0.last_seen@ {
        let (d, s) = choose|d: Duration, s: Duration|
            #![trigger scale.ensures((d,), s)]
            d@ == step_span(c0.last_seen@, c1.last_seen@) && scale.ensures((d,), s) && c1.current@
                == stepped(c0.current@, s@, c0.last_seen@ < c1.last_seen@);
        assert(s@ == d@);
    }
}

} // verus!
