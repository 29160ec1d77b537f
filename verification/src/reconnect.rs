//! The back-off between connection attempts.
//!
//! Each failure doubles the delay up to a maximum; a connection that lasted long
//! enough to count as stable brings it back to the base delay. A little jitter
//! read off the wall clock is added to each wait.
use crate::time::duration_nanos;
use crate::time::max_duration_nanos;
use crate::time::nanos_between;
use crate::time::nanos_per_sec;
use crate::time::subsec_shown;
use crate::time::wall_clock_subsec;
use std::time::Duration;
use std::time::Instant;
use std::time::SystemTime;
use vstd::arithmetic::power2::lemma2_to64;
use vstd::arithmetic::power2::lemma_pow2_pos;
use vstd::arithmetic::power2::lemma_pow2_unfold;
use vstd::arithmetic::power2::pow2;
use vstd::prelude::*;

verus! {

/// The delay after the first failure, in nanoseconds.
pub const BASE_RECONNECT_DELAY: u64 = 1_000_000_000;

/// The longest delay, in nanoseconds.
pub const MAX_RECONNECT_DELAY: u64 = 60_000_000_000;

/// How long a connection lasts before it counts as stable, in nanoseconds.
pub const STABLE_CONNECTION_WINDOW: u64 = 120_000_000_000;

/// The most that is added to a delay, in nanoseconds.
pub const MAX_RECONNECT_JITTER: u64 = 750_000_000;

/// Decides how long to wait before the next connection attempt.
#[derive(Debug)]
pub struct ReconnectPolicy {
    current_delay: Duration,
    base_delay: Duration,
    max_delay: Duration,
    stable_connection_window: Duration,
    max_jitter: Duration,
    connected_at: Option<Instant>,
}

/// What a [`ReconnectPolicy`] holds, all durations in nanoseconds.
pub struct PolicyView {
    /// The delay before the next attempt; zero when none is due.
    pub delay: nat,
    /// The delay after a first failure or a stable connection.
    pub base: nat,
    /// The bound on doubled delays.
    pub max: nat,
    /// The uptime from which a connection counts as stable.
    pub window: nat,
    /// The bound on the jitter.
    pub jitter: nat,
    /// When the current connection was made, if there is one.
    pub connected_at: Option<Instant>,
}

impl PolicyView {
    /// The delay that follows a failure: the base delay if there was none
    /// before, else twice the last one, but not above the maximum.
    pub open spec fn next_delay(self) -> nat {
        if self.delay == 0 {
            self.base
        } else if 2 * self.delay <= self.max {
            2 * self.delay
        } else {
            self.max
        }
    }

    /// Whether the delay can be doubled without leaving the range of `Duration`.
    pub open spec fn can_grow(self) -> bool {
        2 * self.delay <= max_duration_nanos()
    }

    /// The policy after a failure.
    pub open spec fn grown(self) -> PolicyView {
        PolicyView { delay: self.next_delay(), ..self }
    }

    /// The policy after a failed connection attempt.
    pub open spec fn after_connect_error(self) -> PolicyView {
        PolicyView { connected_at: None, ..self.grown() }
    }

    /// The policy after a connection made at `now`.
    pub open spec fn after_connected(self, now: Instant) -> PolicyView {
        PolicyView { connected_at: Some(now), ..self }
    }

    /// The policy after a connection of that uptime is judged: stable ones bring
    /// the delay back to the base, others make it grow.
    pub open spec fn after_uptime(self, uptime: nat) -> PolicyView {
        if uptime >= self.window {
            PolicyView { delay: self.base, ..self }
        } else {
            self.grown()
        }
    }

    /// The policy after a connection of that uptime has ended.
    pub open spec fn after_disconnect(self, uptime: nat) -> PolicyView {
        PolicyView { connected_at: None, ..self.after_uptime(uptime) }
    }

    /// The policy after a reset.
    pub open spec fn after_reset(self) -> PolicyView {
        PolicyView { delay: 0, connected_at: None, ..self }
    }

    /// The policy after `n` failed attempts in a row.
    pub open spec fn after_connect_errors(self, n: nat) -> PolicyView
        decreases n,
    {
        if n == 0 {
            self
        } else {
            self.after_connect_errors((n - 1) as nat).after_connect_error()
        }
    }

    /// Whether delays stay within bounds: the base delay is positive and not above
    /// the maximum, and a delay that is due lies between the two.
    pub open spec fn bounded(self) -> bool {
        &&& 0 < self.base <= self.max
        &&& self.delay == 0 || self.base <= self.delay <= self.max
    }

    /// Whether `other` has the same settings; delay and connection may differ.
    pub open spec fn same_settings(self, other: PolicyView) -> bool {
        &&& self.base == other.base
        &&& self.max == other.max
        &&& self.window == other.window
        &&& self.jitter == other.jitter
    }
}

/// The jitter, in nanoseconds, that a wall clock reading of `subsec` nanoseconds
/// past the second yields under a bound of `max` nanoseconds: the remainder of
/// the reading over the inclusive range up to the bound. The bound and the size
/// of the range are both capped at `u64::MAX`.
pub open spec fn jitter_nanos(max: nat, subsec: nat) -> nat {
    if max == 0 {
        0
    } else if max < u64::MAX {
        subsec % (max + 1)
    } else {
        subsec % (u64::MAX as nat)
    }
}

/// The largest jitter under a bound of `max` nanoseconds, over all clock readings.
pub open spec fn largest_jitter(max: nat) -> nat {
    if max < nanos_per_sec() {
        max
    } else {
        (nanos_per_sec() - 1) as nat
    }
}

/// Whether a connection made at that instant can have lasted for that many
/// nanoseconds by some reading of the clock; without one no time has passed.
pub open spec fn uptime_possible(connected_at: Option<Instant>, uptime: nat) -> bool {
    match connected_at {
        Some(made) => exists|now: Instant| uptime == #[trigger] nanos_between(made, now),
        None => uptime == 0,
    }
}

/// Whether `after` is the delay that follows `before` on a failure: the base delay
/// if there was none, else the lesser of twice the last one and the maximum.
pub open spec fn doubled_within(before: nat, after: nat, base: nat, max: nat) -> bool {
    &&& before == 0 ==> after == base
    &&& before > 0 ==> {
        &&& after <= max && after <= 2 * before
        &&& after == max || after == 2 * before
    }
}

/// The jitter under a bound that a given wall clock reading yields.
pub fn jitter_at(max_jitter: Duration, subsec_nanos: u32) -> (r: Duration)
    ensures
        duration_nanos(r) == jitter_nanos(duration_nanos(max_jitter), subsec_nanos as nat),
{
    let max: u128 = max_jitter.as_nanos();
    if max == 0 {
        return Duration::from_nanos(0);
    }
    let max_nanos: u64 = if max < u64::MAX as u128 {
        max as u64
    } else {
        u64::MAX
    };
    let range: u64 = max_nanos.saturating_add(1);
    Duration::from_nanos(subsec_nanos as u64 % range)
}

impl View for ReconnectPolicy {
    type V = PolicyView;

    closed spec fn view(&self) -> PolicyView {
        PolicyView {
            delay: duration_nanos(self.current_delay),
            base: duration_nanos(self.base_delay),
            max: duration_nanos(self.max_delay),
            window: duration_nanos(self.stable_connection_window),
            jitter: duration_nanos(self.max_jitter),
            connected_at: self.connected_at,
        }
    }
}

/// The policy that [`ReconnectPolicy::default`] starts with.
pub open spec fn default_policy() -> PolicyView {
    PolicyView {
        delay: 0,
        base: BASE_RECONNECT_DELAY as nat,
        max: MAX_RECONNECT_DELAY as nat,
        window: STABLE_CONNECTION_WINDOW as nat,
        jitter: MAX_RECONNECT_JITTER as nat,
        connected_at: None,
    }
}

impl Default for ReconnectPolicy {
    /// No delay due, not connected, and the standard settings.
    fn default() -> (r: Self)
        ensures
            r@ == default_policy(),
    {
        ReconnectPolicy::with_settings(
            Duration::from_nanos(BASE_RECONNECT_DELAY),
            Duration::from_nanos(MAX_RECONNECT_DELAY),
            Duration::from_nanos(STABLE_CONNECTION_WINDOW),
            Duration::from_nanos(MAX_RECONNECT_JITTER),
        )
    }
}

impl ReconnectPolicy {
    /// A policy with no delay due and not connected.
    pub fn with_settings(
        base_delay: Duration,
        max_delay: Duration,
        stable_connection_window: Duration,
        max_jitter: Duration,
    ) -> (r: Self)
        ensures
            r@ == (PolicyView {
                delay: 0,
                base: duration_nanos(base_delay),
                max: duration_nanos(max_delay),
                window: duration_nanos(stable_connection_window),
                jitter: duration_nanos(max_jitter),
                connected_at: None,
            }),
    {
        ReconnectPolicy {
            current_delay: Duration::from_nanos(0),
            base_delay,
            max_delay,
            stable_connection_window,
            max_jitter,
            connected_at: None,
        }
    }

    /// How long to wait before the next attempt, jitter included; `None` when no
    /// wait is due.
    pub fn reconnect_wait(&self) -> (r: Option<Duration>)
        requires
            self@.delay == 0 || self@.delay + largest_jitter(self@.jitter)
                <= max_duration_nanos(),
        ensures
            r is None <==> self@.delay == 0,
            r matches Some(wait) ==> exists|t: SystemTime|
                duration_nanos(wait) == self@.delay + jitter_nanos(
                    self@.jitter,
                    #[trigger] subsec_shown(t),
                ),
            r matches Some(wait) ==> self@.delay <= duration_nanos(wait) <= self@.delay
                + largest_jitter(self@.jitter),
    {
        self.wait_with_jitter(self.jitter())
    }

    /// How long to wait before the next attempt if the jitter is `jitter`.
    pub fn wait_with_jitter(&self, jitter: Duration) -> (r: Option<Duration>)
        requires
            self@.delay == 0 || self@.delay + duration_nanos(jitter) <= max_duration_nanos(),
        ensures
            r is None <==> self@.delay == 0,
            r matches Some(wait) ==> duration_nanos(wait) == self@.delay + duration_nanos(jitter),
    {
        if self.current_delay.is_zero() {
            None
        } else {
            self.current_delay.checked_add(jitter)
        }
    }

    /// Notes that an attempt failed, and gives the delay before the next one.
    pub fn note_connect_error(&mut self) -> (r: Duration)
        requires
            old(self)@.can_grow(),
        ensures
            final(self)@ == old(self)@.after_connect_error(),
            duration_nanos(r) == final(self)@.delay,
    {
        self.connected_at = None;
        self.increase_delay();
        self.current_delay
    }

    /// Notes that a connection was made just now.
    pub fn note_connected(&mut self)
        ensures
            final(self)@.connected_at matches Some(now) && final(self)@
                == old(self)@.after_connected(now),
    {
        self.note_connected_at(Instant::now());
    }

    /// Notes that a connection was made at `now`.
    pub fn note_connected_at(&mut self, now: Instant)
        ensures
            final(self)@ == old(self)@.after_connected(now),
    {
        self.connected_at = Some(now);
    }

    /// How long the current connection has lasted; zero when there is none.
    pub fn uptime(&self) -> (r: Duration)
        ensures
            uptime_possible(self@.connected_at, duration_nanos(r)),
            self@.connected_at is None ==> duration_nanos(r) == 0,
            self@.connected_at matches Some(made) ==> exists|now: Instant|
                duration_nanos(r) == #[trigger] nanos_between(made, now),
    {
        match &self.connected_at {
            Some(started_at) => started_at.elapsed(),
            None => Duration::from_nanos(0),
        }
    }

    /// Notes that the connection ended, and gives how long it had lasted.
    pub fn note_spirc_disconnect(&mut self) -> (r: Duration)
        requires
            old(self)@.window == 0 || old(self)@.can_grow(),
        ensures
            final(self)@ == old(self)@.after_disconnect(duration_nanos(r)),
            uptime_possible(old(self)@.connected_at, duration_nanos(r)),
            old(self)@.connected_at is None ==> duration_nanos(r) == 0,
            old(self)@.connected_at matches Some(made) ==> exists|now: Instant|
                duration_nanos(r) == #[trigger] nanos_between(made, now),
            final(self)@.connected_at is None,
            duration_nanos(r) >= old(self)@.window ==> final(self)@.delay == old(self)@.base,
            duration_nanos(r) < old(self)@.window ==> doubled_within(
                old(self)@.delay,
                final(self)@.delay,
                old(self)@.base,
                old(self)@.max,
            ),
    {
        let uptime = self.uptime();
        self.note_disconnect_after(uptime);
        uptime
    }

    /// Notes that the connection ended after it had lasted for `uptime`.
    pub fn note_disconnect_after(&mut self, uptime: Duration)
        requires
            duration_nanos(uptime) >= old(self)@.window || old(self)@.can_grow(),
        ensures
            final(self)@ == old(self)@.after_disconnect(duration_nanos(uptime)),
    {
        self.connected_at = None;
        self.apply_disconnect(uptime);
    }

    /// Clears the delay and forgets the connection.
    pub fn reset(&mut self)
        ensures
            final(self)@ == old(self)@.after_reset(),
    {
        self.current_delay = Duration::from_nanos(0);
        self.connected_at = None;
    }

    /// Adjusts the delay to a connection that lasted for `uptime`.
    pub fn apply_disconnect(&mut self, uptime: Duration)
        requires
            duration_nanos(uptime) >= old(self)@.window || old(self)@.can_grow(),
        ensures
            final(self)@ == old(self)@.after_uptime(duration_nanos(uptime)),
    {
        if uptime.as_nanos() >= self.stable_connection_window.as_nanos() {
            self.current_delay = self.base_delay;
        } else {
            self.increase_delay();
        }
    }

    /// Makes the delay grow after a failure. Nothing else changes, and a bounded
    /// policy then has a delay between the base and the maximum.
    pub fn increase_delay(&mut self)
        requires
            old(self)@.can_grow(),
        ensures
            final(self)@ == old(self)@.grown(),
            old(self)@.bounded() ==> old(self)@.base <= final(self)@.delay <= old(self)@.max,
    {
        if self.current_delay.is_zero() {
            self.current_delay = self.base_delay;
        } else {
            let doubled = self.current_delay.checked_mul(2).unwrap();
            self.current_delay = if doubled.as_nanos() <= self.max_delay.as_nanos() {
                doubled
            } else {
                self.max_delay
            };
        }
    }

    /// A jitter read off the wall clock.
    pub fn jitter(&self) -> (r: Duration)
        ensures
            exists|t: SystemTime|
                duration_nanos(r) == jitter_nanos(self@.jitter, #[trigger] subsec_shown(t)),
            duration_nanos(r) <= largest_jitter(self@.jitter),
    {
        let subsec = wall_clock_subsec();
        proof {
            law_jitter_is_bounded(self@.jitter, subsec as nat);
        }
        jitter_at(self.max_jitter, subsec)
    }
}

/// No clock reading yields more jitter than the bound, nor a whole second of it.
pub proof fn law_jitter_is_bounded(max: nat, subsec: nat)
    requires
        subsec < nanos_per_sec(),
    ensures
        jitter_nanos(max, subsec) <= largest_jitter(max),
{
    if max == 0 {
    } else if max < u64::MAX {
        vstd::arithmetic::div_mod::lemma_mod_bound(subsec as int, (max + 1) as int);
        vstd::arithmetic::div_mod::lemma_mod_decreases(subsec, max + 1);
    } else {
        vstd::arithmetic::div_mod::lemma_mod_decreases(subsec, u64::MAX as nat);
    }
}

/// From a fresh policy, the delay after `n` failed attempts in a row is the base
/// delay doubled `n - 1` times, or the maximum once that is reached. The first
/// delay is the base delay even where that is above the maximum. A maximum of
/// zero would make the delay fall back to zero and start over.
pub proof fn law_delay_doubles_until_maximum(policy: PolicyView, n: nat)
    requires
        policy.delay == 0,
        policy.max > 0 || policy.base == 0,
        n >= 1,
    ensures
        n == 1 ==> policy.after_connect_errors(n).delay == policy.base,
        n > 1 && policy.base * pow2((n - 1) as nat) <= policy.max ==> policy.after_connect_errors(
            n,
        ).delay == policy.base * pow2((n - 1) as nat),
        n > 1 && policy.base * pow2((n - 1) as nat) > policy.max ==> policy.after_connect_errors(
            n,
        ).delay == policy.max,
        policy.after_connect_errors(n).same_settings(policy),
    decreases n,
{
    reveal_with_fuel(PolicyView::after_connect_errors, 2);
    lemma2_to64();
    if n > 1 {
        let m = (n - 1) as nat;
        law_delay_doubles_until_maximum(policy, m);
        lemma_pow2_unfold(m);
        let before = policy.base * pow2((m - 1) as nat);
        assert(policy.base * pow2(m) == 2 * before) by (nonlinear_arith)
            requires
                before == policy.base * pow2((m - 1) as nat),
                pow2(m) == 2 * pow2((m - 1) as nat),
        ;
        lemma_pow2_pos((m - 1) as nat);
        assert(before >= policy.base && (pow2((m - 1) as nat) == 1 ==> before == policy.base))
            by (nonlinear_arith)
            requires
                before == policy.base * pow2((m - 1) as nat),
                pow2((m - 1) as nat) > 0,
        ;
    }
}

/// Every operation keeps a bounded policy bounded and leaves its settings alone,
/// so no delay is ever longer than the maximum, nor one that is due shorter than
/// the base delay.
pub proof fn law_delay_stays_in_bounds(policy: PolicyView, now: Instant, uptime: nat)
    requires
        policy.bounded(),
    ensures
        policy.after_connect_error().bounded(),
        policy.after_connected(now).bounded(),
        policy.after_disconnect(uptime).bounded(),
        policy.after_uptime(uptime).bounded(),
        policy.after_reset().bounded(),
        policy.after_connect_error().same_settings(policy),
        policy.after_connected(now).same_settings(policy),
        policy.after_disconnect(uptime).same_settings(policy),
        policy.after_uptime(uptime).same_settings(policy),
        policy.after_reset().same_settings(policy),
{
}

/// However it was before, growth leaves the delay of a bounded policy between the
/// base delay and the maximum, and changes nothing but the delay.
pub proof fn law_growth_stays_in_bounds(policy: PolicyView)
    requires
        policy.bounded(),
    ensures
        policy.base <= policy.grown().delay <= policy.max,
        policy.grown() == (PolicyView { delay: policy.grown().delay, ..policy }),
        policy.grown().bounded(),
{
}

/// A failure never shortens the delay of a bounded policy, and lengthens it
/// until the maximum is reached.
pub proof fn law_failures_lengthen_delay(policy: PolicyView)
    requires
        policy.bounded(),
    ensures
        policy.after_connect_error().delay >= policy.delay,
        policy.delay < policy.max ==> policy.after_connect_error().delay > policy.delay,
        policy.delay == policy.max ==> policy.after_connect_error().delay == policy.max,
{
}

/// After a failed attempt or a lost connection a bounded policy always has a
/// wait due.
pub proof fn law_failures_force_a_wait(policy: PolicyView, uptime: nat)
    requires
        policy.bounded(),
    ensures
        policy.after_connect_error().delay > 0,
        policy.after_disconnect(uptime).delay > 0,
{
}

/// A stable connection brings the delay back to the base delay, however many
/// failures came before it.
pub proof fn law_stable_connection_restores_base_delay(
    policy: PolicyView,
    n: nat,
    now: Instant,
    uptime: nat,
)
    requires
        uptime >= policy.window,
    ensures
        policy.after_connect_errors(n).after_connected(now).after_disconnect(uptime).delay
            == policy.base,
{
    lemma_errors_keep_settings(policy, n);
}

/// The end of a short connection counts as one more failure.
pub proof fn law_short_connection_counts_as_failure(policy: PolicyView, now: Instant, uptime: nat)
    requires
        uptime < policy.window,
    ensures
        policy.after_connected(now).after_disconnect(uptime) == policy.after_connect_error(),
{
}

/// A reset undoes any number of failures: no wait is due, and the next failure
/// starts again from the base delay.
pub proof fn law_reset_starts_over(policy: PolicyView, n: nat)
    ensures
        policy.after_connect_errors(n).after_reset() == policy.after_reset(),
        policy.after_reset().delay == 0,
        policy.after_reset().after_connect_error().delay == policy.base,
{
    lemma_errors_keep_settings(policy, n);
}

/// Failed attempts leave the settings alone.
proof fn lemma_errors_keep_settings(policy: PolicyView, n: nat)
    ensures
        policy.after_connect_errors(n).same_settings(policy),
    decreases n,
{
    if n > 0 {
        lemma_errors_keep_settings(policy, (n - 1) as nat);
    }
}

/// The meaning of [`doubled_within`]: what follows no delay is the base delay, and
/// what follows a delay is no more than twice that, no more than the maximum, and
/// equal to one of the two.
pub proof fn law_doubling_is_capped(before: nat, after: nat, base: nat, max: nat)
    ensures
        before == 0 ==> (doubled_within(before, after, base, max) <==> after == base),
        before > 0 && 2 * before <= max ==> (doubled_within(before, after, base, max) <==> after
            == 2 * before),
        before > 0 && 2 * before > max ==> (doubled_within(before, after, base, max) <==> after
            == max),
{
}

/// Every failure, of an attempt or of a connection that was short, doubles the delay
/// within the maximum; a stable connection brings it to the base delay; a
/// connection by itself leaves it as it is; and a reset clears it.
pub proof fn law_delay_after_each_operation(policy: PolicyView, now: Instant, uptime: nat)
    ensures
        policy.delay == 0 ==> policy.after_connect_error().delay == policy.base,
        policy.delay > 0 && 2 * policy.delay <= policy.max ==> policy.after_connect_error().delay
            == 2 * policy.delay,
        policy.delay > 0 && 2 * policy.delay > policy.max ==> policy.after_connect_error().delay
            == policy.max,
        policy.grown().delay == policy.after_connect_error().delay,
        policy.after_connected(now).delay == policy.delay,
        uptime >= policy.window ==> policy.after_uptime(uptime).delay == policy.base,
        uptime < policy.window ==> policy.after_uptime(uptime).delay
            == policy.after_connect_error().delay,
        policy.after_disconnect(uptime).delay == policy.after_uptime(uptime).delay,
        policy.after_reset().delay == 0,
{
}

/// A connection is remembered from when it was made until it ends, an attempt fails
/// or the policy is reset; growth and the judgement of an uptime do not touch it.
pub proof fn law_connection_is_remembered_while_it_lasts(
    policy: PolicyView,
    now: Instant,
    uptime: nat,
)
    ensures
        policy.after_connected(now).connected_at == Some(now),
        policy.after_connect_error().connected_at is None,
        policy.after_disconnect(uptime).connected_at is None,
        policy.after_reset().connected_at is None,
        policy.grown().connected_at == policy.connected_at,
        policy.after_uptime(uptime).connected_at == policy.connected_at,
{
}

/// No operation changes a setting, whatever the settings are.
pub proof fn law_settings_never_change(policy: PolicyView, now: Instant, uptime: nat, n: nat)
    ensures
        forall|after: PolicyView|
            after == policy.grown() || after == policy.after_connect_error() || after
                == policy.after_connected(now) || after == policy.after_uptime(uptime) || after
                == policy.after_disconnect(uptime) || after == policy.after_reset() || after
                == policy.after_connect_errors(n) ==> {
                &&& #[trigger] after.base == policy.base
                &&& after.max == policy.max
                &&& after.window == policy.window
                &&& after.jitter == policy.jitter
            },
{
    lemma_errors_keep_settings(policy, n);
}

/// A jitter is what is left of the clock reading over the inclusive range up to the
/// bound: within the bound, whole ranges away from the reading, and the reading
/// itself where that is within the bound.
pub proof fn law_jitter_is_what_is_left_of_the_reading(max: nat, subsec: nat)
    requires
        subsec <= u32::MAX,
    ensures
        jitter_nanos(max, subsec) <= max,
        (subsec - jitter_nanos(max, subsec)) % (max + 1) as int == 0,
        subsec <= max ==> jitter_nanos(max, subsec) == subsec,
{
    let left = jitter_nanos(max, subsec);
    let range = (max + 1) as int;
    if max == 0 {
        assert(subsec as int % 1 == 0);
    } else if max < u64::MAX {
        let times = subsec as int / range;
        vstd::arithmetic::div_mod::lemma_mod_bound(subsec as int, range);
        vstd::arithmetic::div_mod::lemma_fundamental_div_mod(subsec as int, range);
        vstd::arithmetic::div_mod::lemma_mod_multiples_basic(times, range);
        assert(subsec - left == times * range) by (nonlinear_arith)
            requires
                subsec == range * times + left,
        ;
        if subsec <= max {
            vstd::arithmetic::div_mod::lemma_small_mod(subsec, max + 1);
        }
    } else {
        vstd::arithmetic::div_mod::lemma_small_mod(subsec, u64::MAX as nat);
        vstd::arithmetic::div_mod::lemma_small_mod(0, max + 1);
    }
}

/// The largest jitter under a bound is yielded by some clock reading.
pub proof fn law_largest_jitter_is_reached(max: nat)
    ensures
        exists|subsec: nat|
            subsec < nanos_per_sec() && #[trigger] jitter_nanos(max, subsec) == largest_jitter(max),
{
    let subsec = largest_jitter(max);
    law_jitter_is_what_is_left_of_the_reading(max, subsec);
    assert(jitter_nanos(max, subsec) == largest_jitter(max));
}

/// An uptime is possible exactly if it is the time from when the connection was made
/// to some reading of the clock, or zero where there is no connection.
pub proof fn law_uptime_is_measured_from_the_connection(made: Instant, uptime: nat)
    ensures
        uptime_possible(Some(made), uptime) <==> (exists|now: Instant|
            uptime == #[trigger] nanos_between(made, now)),
        uptime_possible(None, uptime) <==> uptime == 0,
{
    let connected_at = Some(made);
    assert(connected_at->Some_0 == made);
    if exists|now: Instant| uptime == #[trigger] nanos_between(made, now) {
        let now = choose|now: Instant| uptime == #[trigger] nanos_between(made, now);
        assert(uptime == nanos_between(connected_at->Some_0, now));
    }
}

/// A policy is bounded exactly if its base delay is positive and at most the
/// maximum, and its delay, if due, lies between the two.
pub proof fn law_bounds_are_base_and_maximum(policy: PolicyView)
    ensures
        policy.bounded() <==> 0 < policy.base && policy.base <= policy.max && (policy.delay == 0
            || (policy.base <= policy.delay && policy.delay <= policy.max)),
{
}

/// The standard policy starts with no delay and no connection, and waits from one
/// second to a minute, with up to three quarters of a second of jitter; two minutes
/// of uptime are stable.
pub proof fn law_standard_policy()
    ensures
        default_policy().delay == 0,
        default_policy().connected_at is None,
        default_policy().base == 1_000_000_000,
        default_policy().max == 60 * default_policy().base,
        default_policy().window == 120 * default_policy().base,
        4 * default_policy().jitter == 3 * default_policy().base,
{
}

} // verus!
