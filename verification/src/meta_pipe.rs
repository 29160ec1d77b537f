//! The conversation with the media player: what is sent to it as playback goes
//! on, and what its requests do.
use crate::ident::MediaId;
use crate::json::field_value;
use crate::json::integer_value;
use crate::json::json_field;
use crate::json::json_text;
use crate::json::json_texts;
use crate::json::new_fields;
use crate::json::object_value;
use crate::json::push_field;
use crate::json::text_value;
use crate::json::texts_value;
use crate::json::value_text;
use crate::json::Json;
use crate::messages::MetaMsgs;
use crate::messages::PipeMsgs;
use crate::text::texts;
use crate::time::duration_nanos;
use crate::time::nanos_per_sec;
use std::time::Duration;
use std::time::Instant;
use vstd::prelude::*;

verus! {

/// What an access token is asked for.
pub const SCOPES: &'static str = "streaming,user-read-playback-state,user-modify-playback-state,user-read-currently-playing,user-read-private,user-library-modify,user-top-read,user-read-recently-played,user-library-read,playlist-read-private,playlist-read-collaborative";

/// How long before its expiry a token is no longer used, in seconds.
pub const TOKEN_MARGIN_SECS: u64 = 120;

/// Settings of the conversation.
#[derive(Clone, Debug)]
pub struct MetaPipeConfig {
    /// The port that the media player listens on. The daemon uses the next one.
    pub port: u16,
    /// The version text that opens the conversation.
    pub version: String,
}

impl MetaPipeConfig {
    /// The port that the daemon binds to.
    pub fn bind_port(&self) -> (r: u16)
        requires
            self.port < u16::MAX,
        ensures
            r == self.port + 1,
    {
        self.port + 1
    }
}

/// An event of the player.
#[derive(Clone, Copy, Debug, PartialEq, Eq, Structural)]
pub enum PlayerEvent {
    /// A track is being loaded.
    Loading {
        /// The track.
        track_id: MediaId,
        /// The position in it, in milliseconds.
        position_ms: u32,
    },
    /// A track is playing.
    Playing {
        /// The track.
        track_id: MediaId,
        /// The position in it, in milliseconds.
        position_ms: u32,
    },
    /// Playback was paused.
    Paused {
        /// The track.
        track_id: MediaId,
        /// The position in it, in milliseconds.
        position_ms: u32,
    },
    /// The player was stopped.
    Stopped,
    /// The end of a track was reached.
    EndOfTrack,
    /// Another track took the place of the last one.
    Changed {
        /// The new track.
        new_track_id: MediaId,
    },
    /// The mixer was set to a level.
    VolumeSet {
        /// The level, out of `u16::MAX`.
        volume: u16,
    },
    /// Anything else.
    Other,
}

/// A command to the remote control of playback.
#[derive(Clone, Copy, Debug, PartialEq, Eq, Structural)]
pub enum SpircCommand {
    /// Pauses playback.
    Pause,
    /// Starts playback.
    Play,
    /// Starts or pauses playback.
    PlayPause,
    /// Skips to the next track.
    Next,
    /// Skips back to the previous track.
    Prev,
}

/// Something to be done for the conversation.
#[derive(Debug)]
pub enum Command {
    /// Send this text.
    Send(String),
    /// Send the mixer's level, out of `u16::MAX`, as a percentage.
    SendVolume(u16),
    /// Look up an item and send what is told about it.
    Metadata {
        /// The item.
        id: MediaId,
        /// The position in it, if known.
        position_ms: Option<u32>,
    },
    /// Control playback.
    Spirc(SpircCommand),
}

/// Something to be done for the conversation.
pub enum CommandView {
    /// Send this text.
    Send(Seq<char>),
    /// Send the mixer's level as a percentage.
    SendVolume(u16),
    /// Look up an item and send what is told about it.
    Metadata {
        /// The item.
        id: MediaId,
        /// The position in it, if known.
        position_ms: Option<u32>,
    },
    /// Control playback.
    Spirc(SpircCommand),
}

impl View for Command {
    type V = CommandView;

    open spec fn view(&self) -> CommandView {
        match *self {
            Command::Send(text) => CommandView::Send(text@),
            Command::SendVolume(level) => CommandView::SendVolume(level),
            Command::Metadata { id, position_ms } => CommandView::Metadata { id, position_ms },
            Command::Spirc(command) => CommandView::Spirc(command),
        }
    }
}

/// What a list of commands asks for.
pub open spec fn commands(list: Seq<Command>) -> Seq<CommandView> {
    Seq::new(list.len(), |i: int| list[i]@)
}

/// Sends a notice in its plain form.
pub open spec fn send_plain(msg: MetaMsgs) -> CommandView {
    CommandView::Send(msg.plain_text()->Some_0)
}

/// Sends a notice in its JSON form.
pub open spec fn send_json(msg: MetaMsgs) -> CommandView {
    CommandView::Send(json_text(msg.json()->Some_0))
}

/// Announces that the daemon became the active device.
pub open spec fn announcement() -> Seq<CommandView> {
    seq![send_plain(MetaMsgs::kSpDeviceActive), send_plain(MetaMsgs::kSpSinkActive)]
}

/// Whether the daemon counts as the active device after an event.
pub open spec fn active_after(event: PlayerEvent, device_active: bool) -> bool {
    device_active || event is Playing
}

/// What an event calls for.
pub open spec fn event_commands(event: PlayerEvent, device_active: bool) -> Seq<CommandView> {
    match event {
        PlayerEvent::Loading { track_id, position_ms } => seq![
            send_plain(MetaMsgs::kSpPlaybackLoading),
            CommandView::Metadata { id: track_id, position_ms: Some(position_ms) },
        ],
        PlayerEvent::Playing { track_id, position_ms } => (if device_active {
            seq![]
        } else {
            announcement()
        }) + seq![
            send_json(MetaMsgs::state { status: "play" }),
            send_plain(MetaMsgs::kSpPlaybackActive),
            CommandView::Metadata { id: track_id, position_ms: Some(position_ms) },
        ],
        PlayerEvent::Paused { track_id, position_ms } => seq![
            send_json(MetaMsgs::state { status: "pause" }),
            CommandView::Metadata { id: track_id, position_ms: Some(position_ms) },
        ],
        PlayerEvent::Stopped | PlayerEvent::EndOfTrack => seq![
            send_plain(MetaMsgs::kSpPlaybackInactive),
        ],
        PlayerEvent::Changed { new_track_id } => seq![
            CommandView::Metadata { id: new_track_id, position_ms: None },
        ],
        PlayerEvent::VolumeSet { volume } => seq![CommandView::SendVolume(volume)],
        PlayerEvent::Other => seq![],
    }
}

/// What a request calls for at once, by its first byte: a pause is confirmed, and
/// other changes of playback are made silently. A request for a token is served
/// on the next turn of the conversation, and the rest is only noted.
pub open spec fn request_commands(byte: u8) -> Seq<CommandView> {
    match PipeMsgs::decoded(byte) {
        Some(PipeMsgs::Pause) => seq![
            CommandView::Spirc(SpircCommand::Pause),
            send_json(MetaMsgs::pong(PipeMsgs::Pause)),
        ],
        Some(PipeMsgs::Play) => seq![CommandView::Spirc(SpircCommand::Play)],
        Some(PipeMsgs::PlayPause) => seq![CommandView::Spirc(SpircCommand::PlayPause)],
        Some(PipeMsgs::Next) => seq![CommandView::Spirc(SpircCommand::Next)],
        Some(PipeMsgs::Prev) => seq![CommandView::Spirc(SpircCommand::Prev)],
        _ => seq![],
    }
}

/// How the conversation is closed: playback is over, and so is the use of the
/// device if it had been announced.
pub open spec fn farewell_commands(device_active: bool) -> Seq<CommandView> {
    seq![send_plain(MetaMsgs::kSpPlaybackInactive)] + (if device_active {
        seq![send_plain(MetaMsgs::kSpSinkInactive), send_plain(MetaMsgs::kSpDeviceInactive)]
    } else {
        seq![]
    })
}

/// The command that sends a notice in its plain form.
fn plain(msg: MetaMsgs) -> (r: Command)
    requires
        msg.plain_text() is Some,
    ensures
        r@ == send_plain(msg),
{
    Command::Send(msg.display().unwrap())
}

/// The command that sends a notice in its JSON form.
fn json(msg: MetaMsgs) -> (r: Command)
    requires
        msg.json() is Some,
    ensures
        r@ == send_json(msg),
{
    Command::Send(msg.to_json().unwrap())
}

/// Decides what an event of the player calls for, and notes whether the daemon
/// thereby became the active device.
pub fn handle_event(event: PlayerEvent, device_active: &mut bool) -> (r: Vec<Command>)
    ensures
        commands(r@) == event_commands(event, *old(device_active)),
        *final(device_active) == active_after(event, *old(device_active)),
        *final(device_active) == (*old(device_active) || event is Playing),
        event matches PlayerEvent::VolumeSet { volume } ==> r@ == seq![Command::SendVolume(volume)],
        event matches PlayerEvent::Changed { new_track_id } ==> r@ == seq![
            (Command::Metadata { id: new_track_id, position_ms: None }),
        ],
        event matches PlayerEvent::Loading { track_id, position_ms } ==> r@.len() == 2 && r@.last()
            == (Command::Metadata { id: track_id, position_ms: Some(position_ms) }),
        event matches PlayerEvent::Playing { track_id, position_ms } ==> r@.len() == (
        if *old(device_active) {
            3int
        } else {
            5
        }) && r@.last() == (Command::Metadata { id: track_id, position_ms: Some(position_ms) }),
        event matches PlayerEvent::Paused { track_id, position_ms } ==> r@.len() == 2 && r@.last()
            == (Command::Metadata { id: track_id, position_ms: Some(position_ms) }),
        event is Stopped || event is EndOfTrack ==> r@.len() == 1 && r@[0] is Send,
        event is Other ==> r@.len() == 0,
{
    let mut list: Vec<Command> = Vec::new();
    match event {
        PlayerEvent::Loading { track_id, position_ms } => {
            list.push(plain(MetaMsgs::kSpPlaybackLoading));
            list.push(Command::Metadata { id: track_id, position_ms: Some(position_ms) });
        },
        PlayerEvent::Playing { track_id, position_ms } => {
            if !*device_active {
                *device_active = true;
                list.push(plain(MetaMsgs::kSpDeviceActive));
                list.push(plain(MetaMsgs::kSpSinkActive));
            }
            list.push(json(MetaMsgs::state { status: "play" }));
            list.push(plain(MetaMsgs::kSpPlaybackActive));
            list.push(Command::Metadata { id: track_id, position_ms: Some(position_ms) });
        },
        PlayerEvent::Paused { track_id, position_ms } => {
            list.push(json(MetaMsgs::state { status: "pause" }));
            list.push(Command::Metadata { id: track_id, position_ms: Some(position_ms) });
        },
        PlayerEvent::Stopped | PlayerEvent::EndOfTrack => {
            list.push(plain(MetaMsgs::kSpPlaybackInactive));
        },
        PlayerEvent::Changed { new_track_id } => {
            list.push(Command::Metadata { id: new_track_id, position_ms: None });
        },
        PlayerEvent::VolumeSet { volume } => {
            list.push(Command::SendVolume(volume));
        },
        PlayerEvent::Other => {},
    }
    assert(commands(list@) =~= event_commands(event, *old(device_active)));
    list
}

/// Decides what a request of the media player calls for at once. Absolute volumes, the
/// one request that uses the second byte, are not supported.
pub fn handle_volumio_msg(buf: [u8; 2]) -> (r: Vec<Command>)
    ensures
        commands(r@) == request_commands(buf@[0]),
        buf@[0] == 0x4 ==> r@.len() == 2 && r@[0] == Command::Spirc(SpircCommand::Pause)
            && r@[1] is Send,
        buf@[0] == 0x5 ==> r@ == seq![Command::Spirc(SpircCommand::Play)],
        buf@[0] == 0x6 ==> r@ == seq![Command::Spirc(SpircCommand::PlayPause)],
        buf@[0] == 0x7 ==> r@ == seq![Command::Spirc(SpircCommand::Next)],
        buf@[0] == 0x8 ==> r@ == seq![Command::Spirc(SpircCommand::Prev)],
        buf@[0] < 0x4 || buf@[0] > 0x8 ==> r@.len() == 0,
{
    let mut list: Vec<Command> = Vec::new();
    match PipeMsgs::from_code(buf[0]) {
        Some(PipeMsgs::Pause) => {
            list.push(Command::Spirc(SpircCommand::Pause));
            list.push(json(MetaMsgs::pong(PipeMsgs::Pause)));
        },
        Some(PipeMsgs::Play) => {
            list.push(Command::Spirc(SpircCommand::Play));
        },
        Some(PipeMsgs::PlayPause) => {
            list.push(Command::Spirc(SpircCommand::PlayPause));
        },
        Some(PipeMsgs::Next) => {
            list.push(Command::Spirc(SpircCommand::Next));
        },
        Some(PipeMsgs::Prev) => {
            list.push(Command::Spirc(SpircCommand::Prev));
        },
        _ => {},
    }
    assert(commands(list@) =~= request_commands(buf@[0]));
    list
}

/// Decides how to close the conversation.
pub fn farewell(device_active: bool) -> (r: Vec<Command>)
    ensures
        commands(r@) == farewell_commands(device_active),
{
    let mut list: Vec<Command> = Vec::new();
    list.push(plain(MetaMsgs::kSpPlaybackInactive));
    if device_active {
        list.push(plain(MetaMsgs::kSpSinkInactive));
        list.push(plain(MetaMsgs::kSpDeviceInactive));
    }
    assert(commands(list@) =~= farewell_commands(device_active));
    list
}

/// An access token that was granted.
#[derive(Debug)]
pub struct Token {
    /// The token itself.
    pub access_token: String,
    /// For how many seconds it is valid.
    pub expires_in: u32,
    /// Its type.
    pub token_type: String,
    /// What it may be used for.
    pub scope: Vec<String>,
}

/// What is told about a token.
pub open spec fn token_json(token: Token) -> Json {
    json_field(
        "token"@,
        Json::Object(
            map![
                "access_token"@ => Json::Text(token.access_token@),
                "expires_in"@ => Json::Integer(token.expires_in as int),
                "token_type"@ => Json::Text(token.token_type@),
                "scope"@ => json_texts(texts(token.scope@)),
            ],
        ),
    )
}

/// For how many nanoseconds a token valid for that many seconds is used: the
/// margin less, and not at all if it is no longer than that.
pub open spec fn lifetime_nanos(expires_in: int) -> nat {
    if expires_in > TOKEN_MARGIN_SECS {
        ((expires_in - TOKEN_MARGIN_SECS) * nanos_per_sec()) as nat
    } else {
        0
    }
}

/// For how long a token is used.
pub fn token_lifetime(expires_in: u32) -> (r: Duration)
    ensures
        duration_nanos(r) == lifetime_nanos(expires_in as int),
        expires_in >= 120 ==> duration_nanos(r) == (expires_in - 120) * 1_000_000_000,
        expires_in < 120 ==> duration_nanos(r) == 0,
{
    Duration::from_secs((expires_in as u64).saturating_sub(TOKEN_MARGIN_SECS))
}

/// The text about a token.
pub fn token_text(token: Token) -> (r: String)
    ensures
        r@ == json_text(token_json(token)),
{
    let mut fields = new_fields();
    push_field(&mut fields, "access_token", text_value(token.access_token));
    push_field(&mut fields, "expires_in", integer_value(token.expires_in as i64));
    push_field(&mut fields, "token_type", text_value(token.token_type));
    push_field(&mut fields, "scope", texts_value(token.scope));
    value_text(&field_value("token", object_value(fields)))
}

/// What is sent about the reply to a request for a token: the token, if one was
/// granted.
pub open spec fn token_commands(reply: Option<Token>) -> Seq<CommandView> {
    match reply {
        Some(token) => seq![CommandView::Send(json_text(token_json(token)))],
        None => seq![],
    }
}

/// The token in use after a reply that came at `now`: when it was granted, and for
/// how many nanoseconds it is used.
pub open spec fn token_after(reply: Option<Token>, now: Instant) -> Option<(Instant, nat)> {
    match reply {
        Some(token) => Some((now, lifetime_nanos(token.expires_in as int))),
        None => None,
    }
}

/// The token in use, its lifetime in nanoseconds.
pub open spec fn token_in_use(info: Option<(Instant, Duration)>) -> Option<(Instant, nat)> {
    match info {
        Some((granted, lifetime)) => Some((granted, duration_nanos(lifetime))),
        None => None,
    }
}

/// Decides what to send about the reply to a request for a token, and from when
/// and for how long the token is used.
pub fn handle_token_reply(reply: Option<Token>, now: Instant) -> (r: (
    Option<(Instant, Duration)>,
    Vec<Command>,
))
    ensures
        token_in_use(r.0) == token_after(reply, now),
        commands(r.1@) == token_commands(reply),
        match reply {
            Some(token) => {
                &&& r.0 matches Some((granted, lifetime)) && granted == now && duration_nanos(
                    lifetime,
                ) == lifetime_nanos(token.expires_in as int)
                &&& r.1@.len() == 1
                &&& r.1@[0] matches Command::Send(text) && text@ == json_text(token_json(token))
            },
            None => r.0 is None && r.1@.len() == 0,
        },
{
    let mut list: Vec<Command> = Vec::new();
    let info = match reply {
        Some(token) => {
            let lifetime = token_lifetime(token.expires_in);
            list.push(Command::Send(token_text(token)));
            Some((now, lifetime))
        },
        None => None,
    };
    assert(commands(list@) =~= token_commands(reply));
    (info, list)
}

/// A request for an access token.
#[derive(Debug)]
pub struct TokenRequest {
    /// Who asks.
    pub client_id: String,
    /// What the token is to be used for.
    pub scopes: String,
}

/// The request for a token; without a client identifier there is none.
pub fn token_request(client_id: Option<String>) -> (r: Option<TokenRequest>)
    ensures
        match (client_id, r) {
            (Some(id), Some(request)) => {
                &&& request.client_id == id
                &&& request.scopes@ == SCOPES@
                &&& request.scopes@
                    == "streaming,user-read-playback-state,user-modify-playback-state,user-read-currently-playing,user-read-private,user-library-modify,user-top-read,user-read-recently-played,user-library-read,playlist-read-private,playlist-read-collaborative"@
            },
            (None, None) => true,
            _ => false,
        },
{
    match client_id {
        Some(client_id) => Some(TokenRequest { client_id, scopes: SCOPES.to_owned() }),
        None => None,
    }
}

/// What is seen of a command is the command itself.
pub proof fn law_command_is_seen_as_it_is(command: Command)
    ensures
        match command {
            Command::Send(text) => command@ == CommandView::Send(text@),
            Command::SendVolume(level) => command@ == CommandView::SendVolume(level),
            Command::Metadata { id, position_ms } => command@ == (CommandView::Metadata {
                id,
                position_ms,
            }),
            Command::Spirc(control) => command@ == CommandView::Spirc(control),
        },
{
}

/// What is seen of a list of commands are its commands, one for each and in order.
pub proof fn law_commands_are_those_of_the_list(list: Seq<Command>)
    ensures
        commands(list).len() == list.len(),
        forall|i: int| 0 <= i < list.len() ==> #[trigger] commands(list)[i] == list[i]@,
{
}

/// Notices are sent by name, and the state of playback as JSON.
pub proof fn law_notices_are_sent_as_text(status: &str, msg: PipeMsgs)
    ensures
        send_plain(MetaMsgs::kSpPlaybackLoading) == CommandView::Send("kSpPlaybackLoading"@),
        send_plain(MetaMsgs::kSpPlaybackActive) == CommandView::Send("kSpPlaybackActive"@),
        send_plain(MetaMsgs::kSpPlaybackInactive) == CommandView::Send("kSpPlaybackInactive"@),
        send_plain(MetaMsgs::kSpDeviceActive) == CommandView::Send("kSpDeviceActive"@),
        send_plain(MetaMsgs::kSpDeviceInactive) == CommandView::Send("kSpDeviceInactive"@),
        send_plain(MetaMsgs::kSpSinkActive) == CommandView::Send("kSpSinkActive"@),
        send_plain(MetaMsgs::kSpSinkInactive) == CommandView::Send("kSpSinkInactive"@),
        send_json(MetaMsgs::state { status }) == CommandView::Send(
            json_text(
                Json::Object(
                    map!["state"@ => Json::Object(map!["status"@ => Json::Text(status@)])],
                ),
            ),
        ),
        send_json(MetaMsgs::pong(msg)) == CommandView::Send(
            json_text(Json::Object(map!["pong"@ => Json::Text(msg.spec_name())])),
        ),
{
}

/// A change of volume is told once, as the level that was set.
pub proof fn law_volume_is_told_as_set(volume: u16, device_active: bool)
    ensures
        event_commands(PlayerEvent::VolumeSet { volume }, device_active).len() == 1,
        event_commands(PlayerEvent::VolumeSet { volume }, device_active)[0]
            == CommandView::SendVolume(volume),
        forall|other: u16| #[trigger]
            event_commands(PlayerEvent::VolumeSet { volume: other }, device_active)
                == event_commands(PlayerEvent::VolumeSet { volume }, device_active) ==> other
                == volume,
{
    assert forall|other: u16| #[trigger]
        event_commands(PlayerEvent::VolumeSet { volume: other }, device_active) == event_commands(
            PlayerEvent::VolumeSet { volume },
            device_active,
        ) implies other == volume by {
        assert(event_commands(PlayerEvent::VolumeSet { volume: other }, device_active)[0]
            == CommandView::SendVolume(other));
    }
}

/// A playing track is told with the state, the notice and the item at its position;
/// a device that was not active yet is announced before that.
pub proof fn law_playback_is_told(track_id: MediaId, position_ms: u32)
    ensures
        ({
            let again = event_commands(PlayerEvent::Playing { track_id, position_ms }, true);
            let first = event_commands(PlayerEvent::Playing { track_id, position_ms }, false);
            &&& again.len() == 3
            &&& again[0] == CommandView::Send(
                json_text(
                    Json::Object(
                        map!["state"@ => Json::Object(map!["status"@ => Json::Text("play"@)])],
                    ),
                ),
            )
            &&& again[1] == CommandView::Send("kSpPlaybackActive"@)
            &&& again[2] == (CommandView::Metadata { id: track_id, position_ms: Some(position_ms) })
            &&& first.len() == 5
            &&& first[0] == CommandView::Send("kSpDeviceActive"@)
            &&& first[1] == CommandView::Send("kSpSinkActive"@)
            &&& first.skip(2) == again
        }),
{
    let again = event_commands(PlayerEvent::Playing { track_id, position_ms }, true);
    let first = event_commands(PlayerEvent::Playing { track_id, position_ms }, false);
    assert(first.skip(2) =~= again);
}

/// Loading and pausing are told with the item at its position, a change of track with
/// the new item and no position, and the end of playback with its notice; whether
/// the device is active makes no difference.
pub proof fn law_other_events_are_told(
    track_id: MediaId,
    position_ms: u32,
    device_active: bool,
)
    ensures
        ({
            let loading = event_commands(
                PlayerEvent::Loading { track_id, position_ms },
                device_active,
            );
            &&& loading.len() == 2
            &&& loading[0] == CommandView::Send("kSpPlaybackLoading"@)
            &&& loading[1] == (CommandView::Metadata {
                id: track_id,
                position_ms: Some(position_ms),
            })
        }),
        ({
            let paused = event_commands(
                PlayerEvent::Paused { track_id, position_ms },
                device_active,
            );
            &&& paused.len() == 2
            &&& paused[0] == CommandView::Send(
                json_text(
                    Json::Object(
                        map!["state"@ => Json::Object(map!["status"@ => Json::Text("pause"@)])],
                    ),
                ),
            )
            &&& paused[1] == (CommandView::Metadata {
                id: track_id,
                position_ms: Some(position_ms),
            })
        }),
        ({
            let changed = event_commands(
                PlayerEvent::Changed { new_track_id: track_id },
                device_active,
            );
            &&& changed.len() == 1
            &&& changed[0] == (CommandView::Metadata { id: track_id, position_ms: None })
        }),
        ({
            let stopped = event_commands(PlayerEvent::Stopped, device_active);
            &&& stopped.len() == 1
            &&& stopped[0] == CommandView::Send("kSpPlaybackInactive"@)
            &&& event_commands(PlayerEvent::EndOfTrack, device_active) == stopped
        }),
        event_commands(PlayerEvent::Other, device_active).len() == 0,
{
}

/// Only playback makes the daemon the active device, and no event ends that.
pub proof fn law_only_playback_activates(event: PlayerEvent, device_active: bool)
    ensures
        active_after(event, device_active) <==> device_active || event is Playing,
{
}

/// What each byte asks for: to pause, which is confirmed; to play, to do either, to
/// skip forth or back, in silence; and any other byte for nothing at once.
pub proof fn law_requests_control_playback(byte: u8)
    ensures
        byte == 0x4 ==> request_commands(byte).len() == 2 && request_commands(byte)[0]
            == CommandView::Spirc(SpircCommand::Pause) && request_commands(byte)[1]
            == CommandView::Send(json_text(Json::Object(map!["pong"@ => Json::Text("Pause"@)]))),
        byte == 0x5 ==> request_commands(byte) == seq![CommandView::Spirc(SpircCommand::Play)],
        byte == 0x6 ==> request_commands(byte) == seq![CommandView::Spirc(SpircCommand::PlayPause)],
        byte == 0x7 ==> request_commands(byte) == seq![CommandView::Spirc(SpircCommand::Next)],
        byte == 0x8 ==> request_commands(byte) == seq![CommandView::Spirc(SpircCommand::Prev)],
        byte < 0x4 || byte > 0x8 ==> request_commands(byte).len() == 0,
{
}

/// The conversation closes with the end of playback; a device that was announced then
/// gives up the sink and itself, in the opposite order of its announcement.
pub proof fn law_farewell_undoes_the_announcement()
    ensures
        farewell_commands(false) == seq![CommandView::Send("kSpPlaybackInactive"@)],
        farewell_commands(true) == seq![
            CommandView::Send("kSpPlaybackInactive"@),
            CommandView::Send("kSpSinkInactive"@),
            CommandView::Send("kSpDeviceInactive"@),
        ],
        announcement() == seq![
            CommandView::Send("kSpDeviceActive"@),
            CommandView::Send("kSpSinkActive"@),
        ],
{
    assert(farewell_commands(false) =~= seq![CommandView::Send("kSpPlaybackInactive"@)]);
    assert(farewell_commands(true) =~= seq![
        CommandView::Send("kSpPlaybackInactive"@),
        CommandView::Send("kSpSinkInactive"@),
        CommandView::Send("kSpDeviceInactive"@),
    ]);
}

/// A token is told in full, under the key `token` and in four fields of it: the token
/// itself, how long it is valid, its type, and what it may be used for, in order.
pub proof fn law_token_is_told_in_full(token: Token)
    ensures
        token_json(token) matches Json::Object(outer) && (forall|k: Seq<char>| #[trigger]
            outer.contains_key(k) <==> k == "token"@) && (
        outer["token"@] matches Json::Object(fields) && fields["access_token"@] == Json::Text(
            token.access_token@,
        ) && fields["expires_in"@] == Json::Integer(token.expires_in as int)
            && fields["token_type"@] == Json::Text(token.token_type@) && (
        fields["scope"@] matches Json::List(scope) && scope.len() == token.scope@.len() && (forall|
            i: int,
        |
            0 <= i < scope.len() ==> #[trigger] scope[i] == Json::Text(token.scope@[i]@))) && (
        forall|k: Seq<char>| #[trigger]
            fields.contains_key(k) <==> k == "access_token"@ || k == "expires_in"@ || k
                == "token_type"@ || k == "scope"@)),
{
    reveal_strlit("access_token");
    reveal_strlit("expires_in");
    reveal_strlit("token_type");
    reveal_strlit("scope");
    assert("expires_in"@[0] != "token_type"@[0]);
    assert("access_token"@.len() == 12 && "expires_in"@.len() == 10 && "token_type"@.len() == 10
        && "scope"@.len() == 5);
    assert("access_token"@ != "expires_in"@ && "access_token"@ != "token_type"@);
    assert("access_token"@ != "scope"@ && "expires_in"@ != "token_type"@);
    assert("expires_in"@ != "scope"@ && "token_type"@ != "scope"@);
}

/// A token is used for two minutes less than it is valid, and not at all where it is
/// valid for no longer than that.
pub proof fn law_token_is_used_two_minutes_less(expires_in: int)
    ensures
        expires_in >= 120 ==> lifetime_nanos(expires_in) + 120 * 1_000_000_000 == expires_in
            * 1_000_000_000,
        expires_in <= 120 ==> lifetime_nanos(expires_in) == 0,
{
}

/// A granted token is told once and used from then on; without one nothing is told
/// and no token is in use.
pub proof fn law_reply_decides_the_token(reply: Option<Token>, now: Instant)
    ensures
        match reply {
            Some(token) => {
                &&& token_commands(reply).len() == 1
                &&& token_commands(reply)[0] == CommandView::Send(json_text(token_json(token)))
                &&& token_after(reply, now) == Some(
                    (now, lifetime_nanos(token.expires_in as int)),
                )
            },
            None => token_commands(reply).len() == 0 && token_after(reply, now) is None,
        },
{
}

/// The token in use is seen as it is, its lifetime in nanoseconds.
pub proof fn law_token_in_use_is_seen_as_it_is(granted: Instant, lifetime: Duration)
    ensures
        token_in_use(Some((granted, lifetime))) == Some((granted, duration_nanos(lifetime))),
        token_in_use(None) is None,
{
}

} // verus!
