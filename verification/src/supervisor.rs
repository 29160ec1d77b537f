//! The life of the daemon: it gets hold of credentials, waits out the back-off,
//! connects, and serves the session until it ends, over and over.
use crate::reconnect::default_policy;
use crate::reconnect::doubled_within;
use crate::reconnect::jitter_nanos;
use crate::reconnect::law_jitter_is_bounded;
use crate::reconnect::largest_jitter;
use crate::reconnect::uptime_possible;
use crate::reconnect::PolicyView;
use crate::reconnect::ReconnectPolicy;
use crate::reconnect::BASE_RECONNECT_DELAY;
use crate::reconnect::MAX_RECONNECT_DELAY;
use crate::reconnect::MAX_RECONNECT_JITTER;
use crate::time::duration_nanos;
use crate::time::max_duration_nanos;
use crate::time::nanos_between;
use crate::time::subsec_shown;
use std::time::Duration;
use std::time::Instant;
use std::time::SystemTime;
use vstd::arithmetic::power2::lemma2_to64;
use vstd::arithmetic::power2::lemma_pow2_pos;
use vstd::arithmetic::power2::lemma_pow2_unfold;
use vstd::arithmetic::power2::pow2;
use vstd::prelude::*;

verus! {

/// What the daemon is busy with.
#[derive(Clone, Copy, Debug, PartialEq, Eq, Structural)]
pub enum Phase {
    /// It waits for credentials to be discovered.
    Discovering,
    /// It waits out the back-off.
    BackingOff,
    /// It tries to connect.
    Connecting,
    /// It serves a session.
    Serving,
    /// It has ended.
    Ended,
}

/// Something that happened to the daemon.
#[derive(Debug)]
pub enum DaemonEvent<C> {
    /// Credentials were discovered.
    Discovered(C),
    /// No credentials will be discovered any more.
    DiscoveryEnded,
    /// The back-off is over.
    WaitOver,
    /// The attempt to connect failed.
    ConnectFailed,
    /// The attempt to connect succeeded.
    Connected,
    /// The remote control of playback ended by itself.
    SpircEnded,
    /// The user asked the daemon to end.
    Interrupted,
}

/// What the daemon does next.
#[derive(Debug)]
pub enum Next {
    /// It waits for credentials to be discovered.
    Discover,
    /// It waits for this long.
    Sleep(Duration),
    /// It tries to connect with the credentials at hand.
    Connect,
    /// It serves the session.
    Serve,
    /// It ends.
    End,
}

/// What the daemon has to do about an event.
#[derive(Debug)]
pub struct Action {
    /// Whether the running remote control of playback is to be shut down first.
    pub shut_down_spirc: bool,
    /// How long the session had lasted, if the event ended it by itself.
    pub uptime: Option<Duration>,
    /// What comes next.
    pub next: Next,
}

/// What the daemon does next, durations in nanoseconds.
pub enum NextView {
    /// It waits for credentials to be discovered.
    Discover,
    /// It waits for this long.
    Sleep(nat),
    /// It tries to connect with the credentials at hand.
    Connect,
    /// It serves the session.
    Serve,
    /// It ends.
    End,
}

/// What the daemon has to do about an event, durations in nanoseconds.
pub struct ActionView {
    /// Whether the running remote control of playback is to be shut down first.
    pub shut_down_spirc: bool,
    /// How long the session had lasted, if the event ended it by itself.
    pub uptime: Option<nat>,
    /// What comes next.
    pub next: NextView,
}

impl View for Next {
    type V = NextView;

    open spec fn view(&self) -> NextView {
        match *self {
            Next::Discover => NextView::Discover,
            Next::Sleep(wait) => NextView::Sleep(duration_nanos(wait)),
            Next::Connect => NextView::Connect,
            Next::Serve => NextView::Serve,
            Next::End => NextView::End,
        }
    }
}

impl View for Action {
    type V = ActionView;

    open spec fn view(&self) -> ActionView {
        ActionView {
            shut_down_spirc: self.shut_down_spirc,
            uptime: match self.uptime {
                Some(uptime) => Some(duration_nanos(uptime)),
                None => None,
            },
            next: self.next@,
        }
    }
}

/// The daemon's state. Credentials are only passed on, so they can be of any type.
#[derive(Debug)]
pub struct Supervisor<C> {
    last_credentials: Option<C>,
    discovered: Option<C>,
    policy: ReconnectPolicy,
    phase: Phase,
}

/// The daemon's state.
pub struct DaemonView<C> {
    /// The credentials that worked last, or that were given for the next attempt.
    pub last: Option<C>,
    /// Credentials that were discovered for the next attempt and have not worked
    /// yet.
    pub discovered: Option<C>,
    /// The back-off.
    pub policy: PolicyView,
    /// What the daemon is busy with.
    pub phase: Phase,
}

/// What the clocks show when an event comes, in nanoseconds but for the instant.
pub struct Readings {
    /// The current instant.
    pub now: Instant,
    /// The time since the connection was made.
    pub uptime: nat,
    /// The jitter for a wait.
    pub jitter: nat,
}

impl Readings {
    /// Whether the clocks can show this under a policy: some reading of the wall
    /// clock yields the jitter, and some reading of the other one the uptime.
    pub open spec fn possible(self, policy: PolicyView) -> bool {
        &&& exists|t: SystemTime|
            self.jitter == jitter_nanos(policy.jitter, #[trigger] subsec_shown(t))
        &&& uptime_possible(policy.connected_at, self.uptime)
    }
}

/// An action that is only about what comes next.
pub open spec fn go_on(next: NextView) -> ActionView {
    ActionView { shut_down_spirc: false, uptime: None, next }
}

impl<C> DaemonView<C> {
    /// The credentials for the next attempt.
    pub open spec fn credentials(self) -> Option<C> {
        if self.discovered is Some {
            self.discovered
        } else {
            self.last
        }
    }

    /// The state and what comes next once there are credentials: a wait if the
    /// back-off asks for one, else the attempt itself.
    pub open spec fn backed_off(self, jitter: nat) -> (DaemonView<C>, NextView) {
        if self.policy.delay == 0 {
            (DaemonView { phase: Phase::Connecting, ..self }, NextView::Connect)
        } else {
            (
                DaemonView { phase: Phase::BackingOff, ..self },
                NextView::Sleep(self.policy.delay + jitter),
            )
        }
    }

    /// The state and what comes next at the start of each round: without
    /// credentials they have to be discovered.
    pub open spec fn restarted(self, jitter: nat) -> (DaemonView<C>, NextView) {
        if self.last is None {
            (DaemonView { phase: Phase::Discovering, ..self }, NextView::Discover)
        } else {
            self.backed_off(jitter)
        }
    }

    /// Whether the event can come in this state.
    pub open spec fn accepts(self, event: DaemonEvent<C>) -> bool {
        match event {
            DaemonEvent::Discovered(_) => self.phase == Phase::Discovering || self.phase
                == Phase::Serving,
            DaemonEvent::DiscoveryEnded => self.phase == Phase::Discovering,
            DaemonEvent::WaitOver => self.phase == Phase::BackingOff,
            DaemonEvent::ConnectFailed => self.phase == Phase::Connecting,
            DaemonEvent::Connected => self.phase == Phase::Connecting,
            DaemonEvent::SpircEnded => self.phase == Phase::Serving,
            DaemonEvent::Interrupted => self.phase == Phase::Serving,
        }
    }

    /// The state after an event, and what has to be done about it.
    pub open spec fn step(self, event: DaemonEvent<C>, clocks: Readings) -> (
        DaemonView<C>,
        ActionView,
    ) {
        match event {
            DaemonEvent::Discovered(credentials) => if self.phase == Phase::Serving {
                let (state, next) = (DaemonView {
                    last: Some(credentials),
                    policy: self.policy.after_reset(),
                    ..self
                }).restarted(clocks.jitter);
                (state, ActionView { shut_down_spirc: true, uptime: None, next })
            } else {
                let (state, next) = (DaemonView {
                    discovered: Some(credentials),
                    ..self
                }).backed_off(clocks.jitter);
                (state, go_on(next))
            },
            DaemonEvent::DiscoveryEnded => (
                DaemonView { phase: Phase::Ended, ..self },
                go_on(NextView::End),
            ),
            DaemonEvent::WaitOver => (
                DaemonView { phase: Phase::Connecting, ..self },
                go_on(NextView::Connect),
            ),
            DaemonEvent::ConnectFailed => {
                let (state, next) = (DaemonView {
                    discovered: None,
                    policy: self.policy.after_connect_error(),
                    ..self
                }).restarted(clocks.jitter);
                (state, go_on(next))
            },
            DaemonEvent::Connected => (
                DaemonView {
                    last: self.credentials(),
                    discovered: None,
                    policy: self.policy.after_connected(clocks.now),
                    phase: Phase::Serving,
                },
                go_on(NextView::Serve),
            ),
            DaemonEvent::SpircEnded => {
                let (state, next) = (DaemonView {
                    policy: self.policy.after_disconnect(clocks.uptime),
                    ..self
                }).restarted(clocks.jitter);
                (state, ActionView { shut_down_spirc: false, uptime: Some(clocks.uptime), next })
            },
            DaemonEvent::Interrupted => (
                DaemonView { phase: Phase::Ended, ..self },
                ActionView { shut_down_spirc: true, uptime: None, next: NextView::End },
            ),
        }
    }

    /// What holds of the daemon at all times: the back-off has the standard
    /// settings and stays in its bounds, it knows of a connection exactly while a
    /// session is served, and credentials are at hand exactly when they are
    /// needed, from one source at a time.
    pub open spec fn wf(self) -> bool {
        &&& self.policy.same_settings(default_policy())
        &&& self.policy.bounded()
        &&& match self.phase {
            Phase::Discovering => {
                &&& self.last is None && self.discovered is None
                &&& self.policy.connected_at is None
            },
            Phase::BackingOff => {
                &&& self.last is Some != self.discovered is Some
                &&& self.policy.connected_at is None
                &&& self.policy.delay > 0
            },
            Phase::Connecting => {
                &&& self.last is Some != self.discovered is Some
                &&& self.policy.connected_at is None
            },
            Phase::Serving => {
                &&& self.last is Some && self.discovered is None
                &&& self.policy.connected_at is Some
            },
            Phase::Ended => true,
        }
    }
}

impl<C> View for Supervisor<C> {
    type V = DaemonView<C>;

    closed spec fn view(&self) -> DaemonView<C> {
        DaemonView {
            last: self.last_credentials,
            discovered: self.discovered,
            policy: self.policy@,
            phase: self.phase,
        }
    }
}

impl<C> Supervisor<C> {
    /// Starts the daemon with the credentials it was given, if any.
    pub fn start(credentials: Option<C>) -> (r: (Supervisor<C>, Next))
        ensures
            credentials is Some ==> r.1 is Connect && r.0@.phase == Phase::Connecting,
            credentials is None ==> r.1 is Discover && r.0@.phase == Phase::Discovering,
            r.0@.last == credentials,
            r.0@.discovered is None,
            r.0@.policy == default_policy(),
            (r.0@, r.1@) == (DaemonView {
                last: credentials,
                discovered: None,
                policy: default_policy(),
                phase: Phase::Discovering,
            }).restarted(0),
            r.0@.wf(),
    {
        let mut daemon = Supervisor {
            last_credentials: credentials,
            discovered: None,
            policy: ReconnectPolicy::default(),
            phase: Phase::Discovering,
        };
        let next = daemon.restart(Duration::from_nanos(0));
        (daemon, next)
    }

    /// What the daemon is busy with.
    pub fn phase(&self) -> (r: Phase)
        ensures
            r == self@.phase,
    {
        self.phase
    }

    /// The credentials for the next attempt.
    pub fn credentials(&self) -> (r: Option<&C>)
        ensures
            match r {
                Some(credentials) => self@.credentials() == Some(*credentials),
                None => self@.credentials() is None,
            },
            self@.discovered matches Some(credentials) ==> r == Some(&credentials),
            self@.discovered is None ==> match self@.last {
                Some(credentials) => r == Some(&credentials),
                None => r is None,
            },
    {
        match &self.discovered {
            Some(credentials) => Some(credentials),
            None => self.last_credentials.as_ref(),
        }
    }

    /// Takes an event, by the clocks' readings where they are needed, and gives
    /// what is to be done about it.
    pub fn step(&mut self, event: DaemonEvent<C>) -> (r: Action)
        requires
            old(self)@.wf(),
            old(self)@.accepts(event),
        ensures
            exists|clocks: Readings|
                {
                    &&& (final(self)@, r@) == #[trigger] old(self)@.step(event, clocks)
                    &&& clocks.possible(old(self)@.policy)
                },
            final(self)@.wf(),
    {
        let now = Instant::now();
        let uptime = self.policy.uptime();
        let jitter = self.policy.jitter();
        proof {
            let clocks = Readings {
                now,
                uptime: duration_nanos(uptime),
                jitter: duration_nanos(jitter),
            };
            assert(clocks.possible(old(self)@.policy));
        }
        self.step_at(event, now, uptime, jitter)
    }

    /// Takes an event, given what the clocks show, and gives what is to be done
    /// about it.
    pub fn step_at(
        &mut self,
        event: DaemonEvent<C>,
        now: Instant,
        uptime: Duration,
        jitter: Duration,
    ) -> (r: Action)
        requires
            old(self)@.wf(),
            old(self)@.accepts(event),
            duration_nanos(jitter) <= largest_jitter(old(self)@.policy.jitter),
        ensures
            (final(self)@, r@) == old(self)@.step(
                event,
                (Readings {
                    now,
                    uptime: duration_nanos(uptime),
                    jitter: duration_nanos(jitter),
                }),
            ),
            final(self)@.wf(),
    {
        match event {
            DaemonEvent::Discovered(credentials) => if self.phase == Phase::Serving {
                self.last_credentials = Some(credentials);
                self.policy.reset();
                let next = self.restart(jitter);
                Action { shut_down_spirc: true, uptime: None, next }
            } else {
                self.discovered = Some(credentials);
                let next = self.back_off(jitter);
                Action { shut_down_spirc: false, uptime: None, next }
            },
            DaemonEvent::DiscoveryEnded => {
                self.phase = Phase::Ended;
                Action { shut_down_spirc: false, uptime: None, next: Next::End }
            },
            DaemonEvent::WaitOver => {
                self.phase = Phase::Connecting;
                Action { shut_down_spirc: false, uptime: None, next: Next::Connect }
            },
            DaemonEvent::ConnectFailed => {
                self.discovered = None;
                let _ = self.policy.note_connect_error();
                let next = self.restart(jitter);
                Action { shut_down_spirc: false, uptime: None, next }
            },
            DaemonEvent::Connected => {
                if self.discovered.is_some() {
                    self.last_credentials = self.discovered.take();
                }
                self.policy.note_connected_at(now);
                self.phase = Phase::Serving;
                Action { shut_down_spirc: false, uptime: None, next: Next::Serve }
            },
            DaemonEvent::SpircEnded => {
                self.policy.note_disconnect_after(uptime);
                let next = self.restart(jitter);
                Action { shut_down_spirc: false, uptime: Some(uptime), next }
            },
            DaemonEvent::Interrupted => {
                self.phase = Phase::Ended;
                Action { shut_down_spirc: true, uptime: None, next: Next::End }
            },
        }
    }

    /// Begins a round.
    fn restart(&mut self, jitter: Duration) -> (r: Next)
        requires
            old(self)@.policy.delay == 0 || old(self)@.policy.delay + duration_nanos(jitter)
                <= max_duration_nanos(),
        ensures
            (final(self)@, r@) == old(self)@.restarted(duration_nanos(jitter)),
    {
        if self.last_credentials.is_none() {
            self.phase = Phase::Discovering;
            Next::Discover
        } else {
            self.back_off(jitter)
        }
    }

    /// Goes on once there are credentials.
    fn back_off(&mut self, jitter: Duration) -> (r: Next)
        requires
            old(self)@.policy.delay == 0 || old(self)@.policy.delay + duration_nanos(jitter)
                <= max_duration_nanos(),
        ensures
            (final(self)@, r@) == old(self)@.backed_off(duration_nanos(jitter)),
    {
        match self.policy.wait_with_jitter(jitter) {
            Some(wait) => {
                self.phase = Phase::BackingOff;
                Next::Sleep(wait)
            },
            None => {
                self.phase = Phase::Connecting;
                Next::Connect
            },
        }
    }
}

/// The daemon connects only when it has credentials to connect with.
pub proof fn law_connects_with_credentials<C>(
    state: DaemonView<C>,
    event: DaemonEvent<C>,
    clocks: Readings,
)
    requires
        state.wf(),
        state.accepts(event),
    ensures
        state.step(event, clocks).1.next is Connect ==> state.step(
            event,
            clocks,
        ).0.credentials() is Some,
{
}

/// Every wait lasts at least the base delay, and at most the longest delay with
/// the largest jitter on top.
pub proof fn law_waits_are_bounded<C>(
    state: DaemonView<C>,
    event: DaemonEvent<C>,
    clocks: Readings,
)
    requires
        state.wf(),
        state.accepts(event),
        clocks.possible(state.policy),
    ensures
        state.step(event, clocks).1.next matches NextView::Sleep(wait) ==> BASE_RECONNECT_DELAY
            <= wait <= MAX_RECONNECT_DELAY + MAX_RECONNECT_JITTER,
{
    let t = choose|t: SystemTime|
        clocks.jitter == jitter_nanos(state.policy.jitter, #[trigger] subsec_shown(t));
    law_jitter_is_bounded(state.policy.jitter, subsec_shown(t));
}

/// Credentials that were discovered but did not work are dropped, and the daemon
/// goes back to discovery; credentials that worked before, or that it was given,
/// are tried again after a wait.
pub proof fn law_failed_attempt<C>(state: DaemonView<C>, clocks: Readings)
    requires
        state.wf(),
        state.phase == Phase::Connecting,
    ensures
        state.discovered is Some ==> {
            let (after, action) = state.step(DaemonEvent::ConnectFailed, clocks);
            action.next is Discover && after.credentials() is None
        },
        state.discovered is None ==> {
            let (after, action) = state.step(DaemonEvent::ConnectFailed, clocks);
            action.next is Sleep && after.credentials() == state.credentials()
        },
{
}

/// Credentials that worked are used again, after a wait, when the session ends
/// by itself.
pub proof fn law_lost_session_is_resumed<C>(
    state: DaemonView<C>,
    connected: Readings,
    ended: Readings,
)
    requires
        state.wf(),
        state.phase == Phase::Connecting,
    ensures
        ({
            let (serving, serve) = state.step(DaemonEvent::Connected, connected);
            let (after, action) = serving.step(DaemonEvent::SpircEnded, ended);
            &&& serve.next is Serve
            &&& action.next is Sleep
            &&& after.credentials() == state.credentials()
        }),
{
}

/// Credentials that are discovered while a session is served replace it: the
/// session is shut down, and the daemon connects with them without a wait.
pub proof fn law_new_credentials_take_over<C>(
    state: DaemonView<C>,
    credentials: C,
    clocks: Readings,
)
    requires
        state.wf(),
        state.phase == Phase::Serving,
    ensures
        ({
            let (after, action) = state.step(DaemonEvent::Discovered(credentials), clocks);
            &&& action.shut_down_spirc
            &&& action.next is Connect
            &&& after.credentials() == Some(credentials)
            &&& after.policy.delay == 0
        }),
{
}

/// The remote control of playback is shut down exactly when a running session is
/// cut short.
pub proof fn law_shuts_down_running_sessions_only<C>(
    state: DaemonView<C>,
    event: DaemonEvent<C>,
    clocks: Readings,
)
    requires
        state.wf(),
        state.accepts(event),
    ensures
        state.step(event, clocks).1.shut_down_spirc <==> state.phase == Phase::Serving
            && !(event is SpircEnded),
{
}

/// An interrupted daemon ends, and once ended it takes no more events.
pub proof fn law_end_is_final<C>(
    state: DaemonView<C>,
    event: DaemonEvent<C>,
    clocks: Readings,
)
    requires
        state.wf(),
    ensures
        state.phase == Phase::Serving ==> state.step(
            DaemonEvent::Interrupted,
            clocks,
        ).0.phase == Phase::Ended,
        state.phase == Phase::Ended ==> !state.accepts(event),
{
}

/// The state after rounds in which the attempt failed and the wait that followed
/// was sat out, one for each item of `clocks`: what they show when it failed.
pub open spec fn after_failed_rounds<C>(
    state: DaemonView<C>,
    clocks: Seq<Readings>,
) -> DaemonView<C>
    decreases clocks.len(),
{
    if clocks.len() == 0 {
        state
    } else {
        after_failed_rounds(state, clocks.drop_last()).step(
            DaemonEvent::ConnectFailed,
            clocks.last(),
        ).0.step(DaemonEvent::WaitOver, clocks.last()).0
    }
}

/// While attempts with credentials that are kept go on failing, each is followed
/// by the wait that the back-off gives for that number of failures.
pub proof fn law_repeated_failures_back_off<C>(
    state: DaemonView<C>,
    clocks: Seq<Readings>,
    last: Readings,
)
    requires
        state.wf(),
        state.phase == Phase::Connecting,
        state.discovered is None,
    ensures
        after_failed_rounds(state, clocks) == (DaemonView {
            policy: state.policy.after_connect_errors(clocks.len()),
            ..state
        }),
        after_failed_rounds(state, clocks).wf(),
        after_failed_rounds(state, clocks).step(DaemonEvent::ConnectFailed, last).1.next
            == NextView::Sleep(
            state.policy.after_connect_errors(clocks.len() + 1).delay + last.jitter,
        ),
    decreases clocks.len(),
{
    if clocks.len() > 0 {
        law_repeated_failures_back_off(state, clocks.drop_last(), clocks.last());
    }
    assert(state.policy.after_connect_errors(clocks.len() + 1)
        == state.policy.after_connect_errors(clocks.len()).after_connect_error());
}

/// What is seen of an action is the action itself, its durations in nanoseconds.
pub proof fn law_action_is_seen_as_it_is(action: Action)
    ensures
        action@.shut_down_spirc == action.shut_down_spirc,
        match action.uptime {
            Some(uptime) => action@.uptime == Some(duration_nanos(uptime)),
            None => action@.uptime is None,
        },
        match action.next {
            Next::Discover => action@.next is Discover,
            Next::Sleep(wait) => action@.next == NextView::Sleep(duration_nanos(wait)),
            Next::Connect => action@.next is Connect,
            Next::Serve => action@.next is Serve,
            Next::End => action@.next is End,
        },
{
}

/// Clock readings are possible under a policy exactly if some reading of the wall
/// clock leaves that jitter, and the uptime is the time from when the connection
/// was made to some reading of the other clock, or zero without one.
pub proof fn law_possible_readings(clocks: Readings, policy: PolicyView)
    ensures
        clocks.possible(policy) ==> exists|t: SystemTime|
            clocks.jitter == jitter_nanos(policy.jitter, #[trigger] subsec_shown(t)),
        clocks.possible(policy) ==> match policy.connected_at {
            Some(made) => exists|now: Instant|
                clocks.uptime == #[trigger] nanos_between(made, now),
            None => clocks.uptime == 0,
        },
{
}

/// The next attempt is made with credentials that were just discovered, if there are
/// any, else with those that are kept.
pub proof fn law_discovered_credentials_go_first<C>(state: DaemonView<C>)
    ensures
        state.discovered is Some ==> state.credentials() == state.discovered,
        state.discovered is None ==> state.credentials() == state.last,
{
}

/// To connect leaves the back-off as it is. If the session then ends by itself before
/// it counts as stable, the daemon goes on where one more failed attempt would have
/// left it: the delay is doubled within the maximum, and waited with the jitter on
/// top.
pub proof fn law_short_session_goes_on_backing_off<C>(
    state: DaemonView<C>,
    connected: Readings,
    ended: Readings,
)
    requires
        state.wf(),
        state.phase == Phase::Connecting,
        ended.uptime < 120_000_000_000,
    ensures
        ({
            let serving = state.step(DaemonEvent::Connected, connected).0;
            let (after, action) = serving.step(DaemonEvent::SpircEnded, ended);
            let failed = state.step(DaemonEvent::ConnectFailed, ended).0;
            let delay = state.policy.delay;
            &&& serving.policy.delay == delay
            &&& after.policy == failed.policy
            &&& delay == 0 ==> action.next == NextView::Sleep(1_000_000_000 + ended.jitter)
            &&& delay > 0 && 2 * delay <= 60_000_000_000 ==> action.next == NextView::Sleep(
                2 * delay + ended.jitter,
            )
            &&& delay > 0 && 2 * delay > 60_000_000_000 ==> action.next == NextView::Sleep(
                60_000_000_000 + ended.jitter,
            )
        }),
{
}

/// If the session ends by itself once it counts as stable, the daemon waits for the
/// base delay and the jitter, however long it had backed off before.
pub proof fn law_stable_session_starts_the_back_off_anew<C>(
    state: DaemonView<C>,
    connected: Readings,
    ended: Readings,
)
    requires
        state.wf(),
        state.phase == Phase::Connecting,
        ended.uptime >= 120_000_000_000,
    ensures
        ({
            let serving = state.step(DaemonEvent::Connected, connected).0;
            serving.step(DaemonEvent::SpircEnded, ended).1.next == NextView::Sleep(
                1_000_000_000 + ended.jitter,
            )
        }),
{
}

/// What an event does to the back-off: failed attempts and short sessions double the
/// delay within the maximum, stable sessions bring it to the base, new credentials
/// for a running session clear it, and nothing else touches it. The connection is
/// known from when it is made until the session is over. No setting changes.
pub proof fn law_back_off_after_each_event<C>(
    state: DaemonView<C>,
    event: DaemonEvent<C>,
    clocks: Readings,
)
    requires
        state.wf(),
        state.accepts(event),
    ensures
        ({
            let before = state.policy;
            let after = state.step(event, clocks).0.policy;
            &&& after.base == before.base && after.max == before.max
            &&& after.window == before.window && after.jitter == before.jitter
            &&& match event {
                DaemonEvent::ConnectFailed => {
                    &&& after.connected_at is None
                    &&& doubled_within(before.delay, after.delay, before.base, before.max)
                },
                DaemonEvent::SpircEnded => {
                    &&& after.connected_at is None
                    &&& clocks.uptime >= before.window ==> after.delay == before.base
                    &&& clocks.uptime < before.window ==> doubled_within(
                        before.delay,
                        after.delay,
                        before.base,
                        before.max,
                    )
                },
                DaemonEvent::Connected => {
                    &&& after.connected_at == Some(clocks.now)
                    &&& after.delay == before.delay
                },
                DaemonEvent::Discovered(_) => {
                    &&& after.connected_at is None
                    &&& after.delay == (if state.phase == Phase::Serving {
                        0
                    } else {
                        before.delay
                    })
                },
                _ => after == before,
            }
        }),
{
}

/// What an event does to the credentials: discovered ones are tried, and kept at once
/// where they replace a running session; ones that were tried are kept once they
/// work and dropped once they fail; nothing else touches them.
pub proof fn law_credentials_after_each_event<C>(
    state: DaemonView<C>,
    event: DaemonEvent<C>,
    clocks: Readings,
)
    requires
        state.wf(),
        state.accepts(event),
    ensures
        ({
            let after = state.step(event, clocks).0;
            match event {
                DaemonEvent::Discovered(credentials) => if state.phase == Phase::Serving {
                    after.last == Some(credentials) && after.discovered is None
                } else {
                    after.last is None && after.discovered == Some(credentials)
                },
                DaemonEvent::Connected => {
                    &&& state.discovered is Some ==> after.last == state.discovered
                    &&& state.discovered is None ==> after.last == state.last
                    &&& after.discovered is None
                },
                DaemonEvent::ConnectFailed => after.last == state.last && after.discovered is None,
                _ => after.last == state.last && after.discovered == state.discovered,
            }
        }),
{
}

/// What comes after an event. A lost or failed round starts over: without
/// credentials they are discovered, with a delay due it is waited, else the attempt
/// is made at once. The phase is that of what comes next, and the uptime is told
/// exactly when a session ended by itself.
pub proof fn law_what_comes_next<C>(
    state: DaemonView<C>,
    event: DaemonEvent<C>,
    clocks: Readings,
)
    requires
        state.wf(),
        state.accepts(event),
    ensures
        ({
            let (after, action) = state.step(event, clocks);
            &&& match event {
                DaemonEvent::DiscoveryEnded | DaemonEvent::Interrupted => action.next is End,
                DaemonEvent::WaitOver => action.next is Connect,
                DaemonEvent::Connected => action.next is Serve,
                _ => if after.last is None && after.discovered is None {
                    action.next is Discover
                } else if after.policy.delay == 0 {
                    action.next is Connect
                } else {
                    action.next == NextView::Sleep(after.policy.delay + clocks.jitter)
                },
            }
            &&& match action.next {
                NextView::Discover => after.phase == Phase::Discovering,
                NextView::Sleep(_) => after.phase == Phase::BackingOff,
                NextView::Connect => after.phase == Phase::Connecting,
                NextView::Serve => after.phase == Phase::Serving,
                NextView::End => after.phase == Phase::Ended,
            }
            &&& action.uptime == (if event is SpircEnded {
                Some(clocks.uptime)
            } else {
                None
            })
            &&& action.shut_down_spirc <==> event is Interrupted || (event is Discovered
                && state.phase == Phase::Serving)
        }),
{
}

/// Something that happened to the daemon, and what the clocks showed then.
pub struct Turn<C> {
    /// What happened.
    pub event: DaemonEvent<C>,
    /// What the clocks showed.
    pub clocks: Readings,
}

/// The state after a series of turns.
pub open spec fn after_turns<C>(state: DaemonView<C>, turns: Seq<Turn<C>>) -> DaemonView<C>
    decreases turns.len(),
{
    if turns.len() == 0 {
        state
    } else {
        after_turns(state, turns.drop_last()).step(turns.last().event, turns.last().clocks).0
    }
}

/// Whether each event of a series can come where it does.
pub open spec fn can_happen<C>(state: DaemonView<C>, turns: Seq<Turn<C>>) -> bool
    decreases turns.len(),
{
    turns.len() == 0 || (can_happen(state, turns.drop_last()) && after_turns(
        state,
        turns.drop_last(),
    ).accepts(turns.last().event))
}

/// The failures in a row that a series of turns ends with: failed attempts and
/// sessions that ended by themselves. A session of two minutes or more leaves only
/// its own end to count, and credentials that replace a running session leave none.
pub open spec fn failures_in_a_row<C>(turns: Seq<Turn<C>>) -> nat
    decreases turns.len(),
{
    if turns.len() == 0 {
        0
    } else {
        let before = failures_in_a_row(turns.drop_last());
        match turns.last().event {
            DaemonEvent::ConnectFailed => before + 1,
            DaemonEvent::SpircEnded => if turns.last().clocks.uptime >= 120_000_000_000 {
                1
            } else {
                before + 1
            },
            DaemonEvent::Discovered(_) => if turns.len() >= 2 && turns[turns.len()
                - 2].event is Connected {
                0
            } else {
                before
            },
            _ => before,
        }
    }
}

/// The delay after that many failures in a row: one second, doubled with each failure
/// after the first, up to a minute.
pub open spec fn delay_after_failures(n: nat) -> nat {
    if n == 0 {
        0
    } else if pow2((n - 1) as nat) <= 60 {
        1_000_000_000 * pow2((n - 1) as nat)
    } else {
        60_000_000_000
    }
}

/// Whatever happens to the daemon from its start on, its back-off is that of the
/// failures in a row that have come so far, and it serves a session exactly right
/// after it connected.
pub proof fn law_back_off_counts_failures_in_a_row<C>(start: DaemonView<C>, turns: Seq<Turn<C>>)
    requires
        start.wf(),
        start.policy.delay == 0,
        start.phase == Phase::Discovering || start.phase == Phase::Connecting,
        can_happen(start, turns),
    ensures
        after_turns(start, turns).wf(),
        after_turns(start, turns).policy.delay == delay_after_failures(failures_in_a_row(turns)),
        after_turns(start, turns).phase == Phase::Serving <==> turns.len() > 0
            && turns.last().event is Connected,
    decreases turns.len(),
{
    if turns.len() > 0 {
        let fewer = turns.drop_last();
        law_back_off_counts_failures_in_a_row(start, fewer);
        let n = failures_in_a_row(fewer);
        lemma_delay_doubles(n);
        lemma_delay_doubles(0);
        if fewer.len() > 0 {
            assert(fewer.last() == turns[turns.len() - 2]);
        }
    }
}

/// One more failure doubles the delay within its bounds.
proof fn lemma_delay_doubles(n: nat)
    ensures
        doubled_within(
            delay_after_failures(n),
            delay_after_failures(n + 1),
            1_000_000_000,
            60_000_000_000,
        ),
        delay_after_failures(1) == 1_000_000_000,
{
    lemma2_to64();
    if n > 0 {
        lemma_pow2_unfold(n);
        lemma_pow2_pos((n - 1) as nat);
    }
}

/// What can happen to the daemon in each phase.
pub proof fn law_what_can_happen<C>(state: DaemonView<C>, event: DaemonEvent<C>)
    ensures
        state.accepts(event) <==> match state.phase {
            Phase::Discovering => event is Discovered || event is DiscoveryEnded,
            Phase::BackingOff => event is WaitOver,
            Phase::Connecting => event is Connected || event is ConnectFailed,
            Phase::Serving => event is Discovered || event is SpircEnded || event is Interrupted,
            Phase::Ended => false,
        },
{
}

} // verus!
