//! The course of the conversation with the media player: a loop that checks the
//! session, gets an access token when one is wanted or has run out, and then serves
//! one event or request at a time.
use crate::ident::MediaId;
use crate::json::json_text;
use crate::messages::MetaMsgs;
use crate::messages::PipeMsgs;
use crate::meta_pipe::active_after;
use crate::meta_pipe::announcement;
use crate::meta_pipe::commands;
use crate::meta_pipe::event_commands;
use crate::meta_pipe::farewell;
use crate::meta_pipe::farewell_commands;
use crate::meta_pipe::handle_event;
use crate::meta_pipe::handle_token_reply;
use crate::meta_pipe::handle_volumio_msg;
use crate::meta_pipe::request_commands;
use crate::meta_pipe::send_plain;
use crate::meta_pipe::token_after;
use crate::meta_pipe::token_commands;
use crate::meta_pipe::token_in_use;
use crate::meta_pipe::token_json;
use crate::meta_pipe::Command;
use crate::meta_pipe::CommandView;
use crate::meta_pipe::MetaPipeConfig;
use crate::meta_pipe::PlayerEvent;
use crate::meta_pipe::Token;
use crate::time::duration_nanos;
use crate::time::nanos_between;
use std::time::Duration;
use std::time::Instant;
use vstd::prelude::*;

verus! {

/// What the conversation waits for.
#[derive(Clone, Copy, Debug, PartialEq, Eq, Structural)]
pub enum PipePhase {
    /// To be told whether the session is still valid.
    CheckSession,
    /// For a new access token.
    RequestToken,
    /// For an event of the player or a request of the media player.
    Listen,
    /// For nothing: it is over.
    Closed,
}

/// Something that happened to the conversation.
#[derive(Debug)]
pub enum PipeEvent {
    /// The session was checked.
    SessionChecked {
        /// Whether it is no longer valid.
        invalid: bool,
    },
    /// A token was granted, or none could be had.
    TokenReply(Option<Token>),
    /// The player reported an event, or will report no more.
    Player(Option<PlayerEvent>),
    /// A request came in, or receiving one failed.
    Datagram(Option<[u8; 2]>),
}

/// The state of the conversation.
#[derive(Debug)]
pub struct PipeLoop {
    token_info: Option<(Instant, Duration)>,
    token_wanted: bool,
    device_active: bool,
    phase: PipePhase,
}

/// The state of the conversation.
pub struct PipeView {
    /// When the current token was granted, and for how many nanoseconds it is used.
    pub token: Option<(Instant, nat)>,
    /// Whether the media player asked for a token and awaits it.
    pub token_wanted: bool,
    /// Whether the daemon was announced as the active device.
    pub device_active: bool,
    /// What is waited for.
    pub phase: PipePhase,
}

impl PipeView {
    /// Whether the event is one that is waited for.
    pub open spec fn accepts(self, event: PipeEvent) -> bool {
        match event {
            PipeEvent::SessionChecked { .. } => self.phase == PipePhase::CheckSession,
            PipeEvent::TokenReply(_) => self.phase == PipePhase::RequestToken,
            PipeEvent::Player(_) => self.phase == PipePhase::Listen,
            PipeEvent::Datagram(_) => self.phase == PipePhase::Listen,
        }
    }

    /// Whether there is a token that has run out, given the time since it was
    /// granted in nanoseconds.
    pub open spec fn token_expired(self, age: nat) -> bool {
        self.token matches Some((_, lifetime)) && age > lifetime
    }

    /// Whether the token, if there is one, can be that many nanoseconds old by some
    /// reading of the clock.
    pub open spec fn age_possible(self, age: nat) -> bool {
        self.token matches Some((granted, _)) ==> exists|reading: Instant|
            age == #[trigger] nanos_between(granted, reading)
    }

    /// The state after an event that comes at `now`, when the token, if there is
    /// one, is `age` nanoseconds old.
    pub open spec fn next(self, event: PipeEvent, now: Instant, age: nat) -> PipeView {
        match event {
            PipeEvent::SessionChecked { invalid } => PipeView {
                phase: if invalid {
                    PipePhase::Closed
                } else if self.token_wanted || self.token_expired(age) {
                    PipePhase::RequestToken
                } else {
                    PipePhase::Listen
                },
                ..self
            },
            PipeEvent::TokenReply(reply) => PipeView {
                token: token_after(reply, now),
                token_wanted: false,
                phase: PipePhase::Listen,
                ..self
            },
            PipeEvent::Player(Some(player_event)) => PipeView {
                device_active: active_after(player_event, self.device_active),
                phase: PipePhase::CheckSession,
                ..self
            },
            PipeEvent::Player(None) => PipeView { phase: PipePhase::Closed, ..self },
            PipeEvent::Datagram(Some(buf)) => PipeView {
                token_wanted: self.token_wanted || wants_token(buf@[0]),
                phase: PipePhase::CheckSession,
                ..self
            },
            PipeEvent::Datagram(None) => PipeView { phase: PipePhase::CheckSession, ..self },
        }
    }

    /// What an event calls for.
    pub open spec fn reaction(self, event: PipeEvent) -> Seq<CommandView> {
        match event {
            PipeEvent::SessionChecked { invalid } => if invalid {
                farewell_commands(self.device_active)
            } else {
                seq![]
            },
            PipeEvent::TokenReply(reply) => token_commands(reply),
            PipeEvent::Player(Some(player_event)) => event_commands(
                player_event,
                self.device_active,
            ),
            PipeEvent::Player(None) => farewell_commands(self.device_active),
            PipeEvent::Datagram(Some(buf)) => request_commands(buf@[0]),
            PipeEvent::Datagram(None) => seq![],
        }
    }
}

/// Whether a request, by its first byte, asks for a token.
pub open spec fn wants_token(byte: u8) -> bool {
    PipeMsgs::decoded(byte) == Some(PipeMsgs::ReqToken)
}

/// The state at the start: no token and none wanted, not announced, and the session
/// unchecked.
pub open spec fn opened() -> PipeView {
    PipeView {
        token: None,
        token_wanted: false,
        device_active: false,
        phase: PipePhase::CheckSession,
    }
}

impl View for PipeLoop {
    type V = PipeView;

    closed spec fn view(&self) -> PipeView {
        PipeView {
            token: token_in_use(self.token_info),
            token_wanted: self.token_wanted,
            device_active: self.device_active,
            phase: self.phase,
        }
    }
}

impl PipeLoop {
    /// Opens the conversation by sending the version.
    pub fn open(config: &MetaPipeConfig) -> (r: (PipeLoop, Vec<Command>))
        ensures
            r.0@ == opened(),
            !r.0@.device_active && !r.0@.token_wanted && r.0@.token is None,
            r.0@.phase == PipePhase::CheckSession,
            commands(r.1@) == seq![CommandView::Send(config.version@)],
    {
        let state = PipeLoop {
            token_info: None,
            token_wanted: false,
            device_active: false,
            phase: PipePhase::CheckSession,
        };
        let mut list: Vec<Command> = Vec::new();
        list.push(Command::Send(config.version.clone()));
        assert(commands(list@) =~= seq![CommandView::Send(config.version@)]);
        (state, list)
    }

    /// What the conversation waits for.
    pub fn phase(&self) -> (r: PipePhase)
        ensures
            r == self@.phase,
    {
        self.phase
    }

    /// Takes an event, by the clock's reading where one is needed, and gives what
    /// is to be done, in order.
    pub fn step(&mut self, event: PipeEvent) -> (r: Vec<Command>)
        requires
            old(self)@.accepts(event),
        ensures
            exists|now: Instant, age: nat|
                {
                    &&& final(self)@ == #[trigger] old(self)@.next(event, now, age)
                    &&& old(self)@.age_possible(age)
                },
            commands(r@) == old(self)@.reaction(event),
    {
        let token_age = match &self.token_info {
            Some((granted, _)) => {
                let age = granted.elapsed();
                assert(self@.token->Some_0.0 == *granted);
                assert(self@.age_possible(duration_nanos(age)));
                age
            },
            None => Duration::from_nanos(0),
        };
        self.step_at(event, Instant::now(), token_age)
    }

    /// Takes an event that comes at `now`, when the token, if there is one, was
    /// granted `token_age` ago, and gives what is to be done, in order.
    pub fn step_at(&mut self, event: PipeEvent, now: Instant, token_age: Duration) -> (r: Vec<
        Command,
    >)
        requires
            old(self)@.accepts(event),
        ensures
            final(self)@ == old(self)@.next(event, now, duration_nanos(token_age)),
            commands(r@) == old(self)@.reaction(event),
    {
        let mut list: Vec<Command> = Vec::new();
        match event {
            PipeEvent::SessionChecked { invalid } => {
                if invalid {
                    self.phase = PipePhase::Closed;
                    list = farewell(self.device_active);
                } else if self.token_wanted || self.token_expired(token_age) {
                    self.phase = PipePhase::RequestToken;
                } else {
                    self.phase = PipePhase::Listen;
                }
            },
            PipeEvent::TokenReply(reply) => {
                let (info, notice) = handle_token_reply(reply, now);
                self.token_info = info;
                self.token_wanted = false;
                self.phase = PipePhase::Listen;
                list = notice;
            },
            PipeEvent::Player(Some(player_event)) => {
                list = handle_event(player_event, &mut self.device_active);
                self.phase = PipePhase::CheckSession;
            },
            PipeEvent::Player(None) => {
                self.phase = PipePhase::Closed;
                list = farewell(self.device_active);
            },
            PipeEvent::Datagram(Some(buf)) => {
                list = handle_volumio_msg(buf);
                if let Some(PipeMsgs::ReqToken) = PipeMsgs::from_code(buf[0]) {
                    self.token_wanted = true;
                }
                self.phase = PipePhase::CheckSession;
            },
            PipeEvent::Datagram(None) => {
                self.phase = PipePhase::CheckSession;
            },
        }
        assert(commands(list@) =~= old(self)@.reaction(event));
        list
    }

    /// Whether there is a token that has run out by the time since it was granted.
    fn token_expired(&self, token_age: Duration) -> (r: bool)
        ensures
            r == self@.token_expired(duration_nanos(token_age)),
    {
        match &self.token_info {
            Some((_, lifetime)) => token_age.as_nanos() > lifetime.as_nanos(),
            None => false,
        }
    }
}

/// Once announced, the daemon stays the active device, and is announced by no
/// further event; what else an event calls for does not depend on it.
pub proof fn law_announced_once(event: PlayerEvent, device_active: bool)
    ensures
        device_active ==> active_after(event, device_active),
        event_commands(event, device_active) == (if active_after(event, device_active)
            && !device_active {
            announcement()
        } else {
            seq![]
        }) + event_commands(event, true),
{
    assert(event_commands(event, device_active) =~= (if active_after(event, device_active)
        && !device_active {
        announcement()
    } else {
        seq![]
    }) + event_commands(event, true));
}

/// What a series of player events calls for.
pub open spec fn series_commands(events: Seq<PlayerEvent>, device_active: bool) -> Seq<CommandView>
    decreases events.len(),
{
    if events.len() == 0 {
        seq![]
    } else {
        series_commands(events.drop_last(), device_active) + event_commands(
            events.last(),
            active_after_series(events.drop_last(), device_active),
        )
    }
}

/// Whether the daemon counts as the active device after a series of events.
pub open spec fn active_after_series(events: Seq<PlayerEvent>, device_active: bool) -> bool
    decreases events.len(),
{
    if events.len() == 0 {
        device_active
    } else {
        active_after(events.last(), active_after_series(events.drop_last(), device_active))
    }
}

/// Over a whole series of player events the daemon is announced once, right
/// before what the first playback calls for, and not at all if nothing plays.
pub proof fn law_announced_with_first_playback(
    before: Seq<PlayerEvent>,
    rest: Seq<PlayerEvent>,
)
    requires
        forall|i: int| 0 <= i < before.len() ==> !((#[trigger] before[i]) is Playing),
        rest.len() == 0 || rest[0] is Playing,
    ensures
        active_after_series(before + rest, false) == (rest.len() > 0),
        series_commands(before + rest, false) == series_commands(before, true) + (if rest.len()
            > 0 {
            announcement()
        } else {
            seq![]
        }) + series_commands(rest, true),
    decreases before.len() + rest.len(),
{
    let events = before + rest;
    if rest.len() > 0 {
        let fewer = rest.drop_last();
        law_announced_with_first_playback(before, fewer);
        assert(events.drop_last() =~= before + fewer);
        assert(events.last() == rest.last());
        law_announced_once(rest.last(), active_after_series(before + fewer, false));
        lemma_stays_active(fewer);
        if fewer.len() == 0 {
            assert(series_commands(fewer, true) =~= seq![]);
        }
        assert(series_commands(rest, true) =~= series_commands(fewer, true) + event_commands(
            rest.last(),
            true,
        ));
        assert(series_commands(events, false) =~= series_commands(before, true) + announcement()
            + series_commands(rest, true));
    } else if before.len() > 0 {
        let fewer = before.drop_last();
        law_announced_with_first_playback(fewer, rest);
        assert(events.drop_last() =~= fewer + rest);
        assert(events =~= before);
        assert(fewer + rest =~= fewer);
        law_announced_once(before.last(), false);
        lemma_stays_active(fewer);
        assert(before.last() == before[before.len() - 1]);
        assert(series_commands(rest, true) =~= seq![]);
        assert(series_commands(events, false) =~= series_commands(before, true) + seq![]
            + series_commands(rest, true));
    } else {
        assert(events =~= seq![]);
        assert(series_commands(events, false) =~= series_commands(before, true) + seq![]
            + series_commands(rest, true));
    }
}

/// No event ends the announced state.
proof fn lemma_stays_active(events: Seq<PlayerEvent>)
    ensures
        active_after_series(events, true),
    decreases events.len(),
{
    if events.len() > 0 {
        lemma_stays_active(events.drop_last());
    }
}

/// The conversation is closed by the same words whether the session ran out or
/// the player fell silent, and takes the announcement back exactly if it was
/// made.
pub proof fn law_farewell_answers_announcement(state: PipeView)
    ensures
        state.reaction(PipeEvent::SessionChecked { invalid: true }) == state.reaction(
            PipeEvent::Player(None),
        ),
        state.device_active ==> state.reaction(PipeEvent::Player(None)) == seq![
            send_plain(MetaMsgs::kSpPlaybackInactive),
            send_plain(MetaMsgs::kSpSinkInactive),
            send_plain(MetaMsgs::kSpDeviceInactive),
        ],
        !state.device_active ==> state.reaction(PipeEvent::Player(None)) == seq![
            send_plain(MetaMsgs::kSpPlaybackInactive),
        ],
{
}

/// A request for a token is served on the next turn of the loop: once the session
/// is found valid a token is asked for, whatever the clock shows, and the reply is
/// sent on and settles the request.
pub proof fn law_requested_token_is_asked_for(
    state: PipeView,
    buf: [u8; 2],
    reply: Option<Token>,
    times: Seq<Instant>,
    ages: Seq<nat>,
)
    requires
        state.phase == PipePhase::Listen,
        wants_token(buf@[0]),
        times.len() == 3,
        ages.len() == 3,
    ensures
        ({
            let request = PipeEvent::Datagram(Some(buf));
            let valid = PipeEvent::SessionChecked { invalid: false };
            let answer = PipeEvent::TokenReply(reply);
            let requested = state.next(request, times[0], ages[0]);
            let asking = requested.next(valid, times[1], ages[1]);
            let settled = asking.next(answer, times[2], ages[2]);
            &&& state.accepts(request) && requested.accepts(valid) && asking.accepts(answer)
            &&& asking.phase == PipePhase::RequestToken
            &&& asking.reaction(answer) == token_commands(reply)
            &&& settled.token == token_after(reply, times[2])
            &&& !settled.token_wanted
        }),
{
}

/// A token is asked for exactly when the session is found valid and either the
/// media player wants a token or the one at hand has run out. So none is asked
/// for from the start on unless it is requested, nor, unless it is requested
/// again, once it was refused.
pub proof fn law_tokens_are_asked_for_only_with_cause(
    state: PipeView,
    event: PipeEvent,
    now: Instant,
    age: nat,
)
    requires
        state.accepts(event),
    ensures
        state.next(event, now, age).phase == PipePhase::RequestToken <==> event
            == (PipeEvent::SessionChecked { invalid: false }) && (state.token_wanted
            || state.token_expired(age)),
        state.next(event, now, age).token_wanted ==> state.token_wanted || (event matches
            PipeEvent::Datagram(Some(buf)) && wants_token(buf@[0])),
        !opened().token_wanted && opened().token is None,
        event == PipeEvent::TokenReply(None) ==> !state.next(event, now, age).token_wanted
            && state.next(event, now, age).token is None,
{
}

/// A closed conversation takes no more events.
pub proof fn law_closed_is_final(state: PipeView, event: PipeEvent)
    requires
        state.phase == PipePhase::Closed,
    ensures
        !state.accepts(event),
{
}

/// After every event or request the session is checked before the next one is
/// served.
pub proof fn law_session_checked_between_events(
    state: PipeView,
    event: PipeEvent,
    now: Instant,
    age: nat,
)
    requires
        state.accepts(event),
        state.phase == PipePhase::Listen,
        event != PipeEvent::Player(None),
    ensures
        state.next(event, now, age).phase == PipePhase::CheckSession,
{
}

/// What an event does to the active device: only playback touches it, and makes the
/// device active; requests, checks and tokens leave it alone.
pub proof fn law_only_the_player_touches_the_device(
    state: PipeView,
    event: PipeEvent,
    now: Instant,
    age: nat,
)
    ensures
        ({
            let after = state.next(event, now, age).device_active;
            match event {
                PipeEvent::Player(Some(PlayerEvent::Playing { .. })) => after,
                _ => after == state.device_active,
            }
        }),
{
}

/// What an event does to the token: only a reply replaces the one in use, by the one
/// granted if any, and settles a request; only a request, the byte three, makes one
/// wanted.
pub proof fn law_only_replies_touch_the_token(
    state: PipeView,
    event: PipeEvent,
    now: Instant,
    age: nat,
)
    ensures
        ({
            let after = state.next(event, now, age);
            match event {
                PipeEvent::TokenReply(Some(token)) => !after.token_wanted && (
                after.token matches Some((granted, lifetime)) && granted == now && lifetime == (
                if token.expires_in >= 120 {
                    (token.expires_in - 120) * 1_000_000_000
                } else {
                    0
                })),
                PipeEvent::TokenReply(None) => !after.token_wanted && after.token is None,
                PipeEvent::Datagram(Some(buf)) => after.token == state.token && (after.token_wanted
                    <==> state.token_wanted || buf@[0] == 0x3),
                _ => after.token == state.token && after.token_wanted == state.token_wanted,
            }
        }),
{
}

/// What an event leads to: an invalid session and a silent player close the
/// conversation; a valid session leads to a token where one is wanted or has outlived
/// its use, else to listening; a reply leads to listening, and whatever was heard
/// to the next check.
pub proof fn law_turns_of_the_conversation(
    state: PipeView,
    event: PipeEvent,
    now: Instant,
    age: nat,
)
    ensures
        ({
            let after = state.next(event, now, age).phase;
            match event {
                PipeEvent::SessionChecked { invalid } => if invalid {
                    after == PipePhase::Closed
                } else if state.token_wanted {
                    after == PipePhase::RequestToken
                } else {
                    match state.token {
                        Some((_, lifetime)) => after == (if age > lifetime {
                            PipePhase::RequestToken
                        } else {
                            PipePhase::Listen
                        }),
                        None => after == PipePhase::Listen,
                    }
                },
                PipeEvent::TokenReply(_) => after == PipePhase::Listen,
                PipeEvent::Player(None) => after == PipePhase::Closed,
                PipeEvent::Player(Some(_)) => after == PipePhase::CheckSession,
                PipeEvent::Datagram(_) => after == PipePhase::CheckSession,
            }
        }),
{
}

/// What is done about an event: what the player reports and the media player requests
/// is answered, a granted token is told, the end of the session or of the player is
/// met with the farewell, and nothing is done about anything else.
pub proof fn law_what_is_done_about_an_event(state: PipeView, event: PipeEvent)
    ensures
        match event {
            PipeEvent::SessionChecked { invalid } => if invalid {
                state.reaction(event) == farewell_commands(state.device_active)
            } else {
                state.reaction(event).len() == 0
            },
            PipeEvent::TokenReply(Some(token)) => {
                &&& state.reaction(event).len() == 1
                &&& state.reaction(event)[0] == CommandView::Send(json_text(token_json(token)))
            },
            PipeEvent::TokenReply(None) => state.reaction(event).len() == 0,
            PipeEvent::Player(Some(report)) => state.reaction(event) == event_commands(
                report,
                state.device_active,
            ),
            PipeEvent::Player(None) => state.reaction(event) == farewell_commands(
                state.device_active,
            ),
            PipeEvent::Datagram(Some(buf)) => state.reaction(event) == request_commands(buf@[0]),
            PipeEvent::Datagram(None) => state.reaction(event).len() == 0,
        },
{
}

/// A token's age is possible exactly if it is the time from its grant to some reading
/// of the clock.
pub proof fn law_age_is_measured_from_the_grant(
    state: PipeView,
    granted: Instant,
    lifetime: nat,
    age: nat,
)
    requires
        state.token == Some((granted, lifetime)),
        state.age_possible(age),
    ensures
        exists|reading: Instant| age == #[trigger] nanos_between(granted, reading),
{
}

/// Something that happened to the conversation, when, and how old the token was then.
pub struct PipeTurn {
    /// What happened.
    pub event: PipeEvent,
    /// When it happened.
    pub now: Instant,
    /// The age of the token, if there was one, in nanoseconds.
    pub age: nat,
}

/// The state after a series of turns.
pub open spec fn after_pipe_turns(state: PipeView, turns: Seq<PipeTurn>) -> PipeView
    decreases turns.len(),
{
    if turns.len() == 0 {
        state
    } else {
        let turn = turns.last();
        after_pipe_turns(state, turns.drop_last()).next(turn.event, turn.now, turn.age)
    }
}

/// Whether each event of a series is one that is waited for.
pub open spec fn pipe_turns_can_happen(state: PipeView, turns: Seq<PipeTurn>) -> bool
    decreases turns.len(),
{
    turns.len() == 0 || (pipe_turns_can_happen(state, turns.drop_last()) && after_pipe_turns(
        state,
        turns.drop_last(),
    ).accepts(turns.last().event))
}

/// Whether an event reports playback.
pub open spec fn reports_playback(event: PipeEvent) -> bool {
    event matches PipeEvent::Player(Some(PlayerEvent::Playing { .. }))
}

/// Whether playback was reported in a series of turns.
pub open spec fn played(turns: Seq<PipeTurn>) -> bool {
    exists|i: int| 0 <= i < turns.len() && reports_playback(#[trigger] turns[i].event)
}

/// Whatever happens from the opening on, requests, checks and tokens in between, the
/// device counts as active exactly if playback was reported. So the device and the
/// sink are announced with the first playback and with no later one, and the farewell
/// takes both back exactly if there was any.
pub proof fn law_device_is_active_once_played(turns: Seq<PipeTurn>)
    requires
        pipe_turns_can_happen(opened(), turns),
    ensures
        after_pipe_turns(opened(), turns).device_active <==> played(turns),
        forall|track_id: MediaId, position_ms: u32|
            ({
                let told = #[trigger] after_pipe_turns(opened(), turns).reaction(
                    PipeEvent::Player(Some(PlayerEvent::Playing { track_id, position_ms })),
                );
                &&& played(turns) ==> told.len() == 3
                &&& !played(turns) ==> told.len() == 5 && told[0] == CommandView::Send(
                    "kSpDeviceActive"@,
                ) && told[1] == CommandView::Send("kSpSinkActive"@)
            }),
        forall|closing: PipeEvent|
            closing == (PipeEvent::SessionChecked { invalid: true }) || closing
                == PipeEvent::Player(None) ==> ({
                let told = #[trigger] after_pipe_turns(opened(), turns).reaction(closing);
                &&& told[0] == CommandView::Send("kSpPlaybackInactive"@)
                &&& played(turns) ==> told.len() == 3 && told[1] == CommandView::Send(
                    "kSpSinkInactive"@,
                ) && told[2] == CommandView::Send("kSpDeviceInactive"@)
                &&& !played(turns) ==> told.len() == 1
            }),
    decreases turns.len(),
{
    if turns.len() > 0 {
        let fewer = turns.drop_last();
        law_device_is_active_once_played(fewer);
        if reports_playback(turns.last().event) {
            assert(turns[turns.len() - 1] == turns.last());
        }
        if played(fewer) {
            let i = choose|i: int|
                0 <= i < fewer.len() && reports_playback(#[trigger] fewer[i].event);
            assert(turns[i] == fewer[i]);
        }
        if played(turns) && !reports_playback(turns.last().event) {
            let i = choose|i: int|
                0 <= i < turns.len() && reports_playback(#[trigger] turns[i].event);
            assert(fewer[i] == turns[i]);
        }
    }
    assert(after_pipe_turns(opened(), turns).device_active <==> played(turns));
}

/// What the conversation waits for in each phase.
pub proof fn law_what_is_waited_for(state: PipeView, event: PipeEvent)
    ensures
        state.accepts(event) <==> match state.phase {
            PipePhase::CheckSession => event is SessionChecked,
            PipePhase::RequestToken => event is TokenReply,
            PipePhase::Listen => event is Player || event is Datagram,
            PipePhase::Closed => false,
        },
{
}

} // verus!
