//! The messages that pass between the daemon and the media player.
use crate::json::field_value;
use crate::json::integer_value;
use crate::json::json_field;
use crate::json::json_text;
use crate::json::text_value;
use crate::json::value_text;
use crate::json::Json;
use crate::text::debug_str;
use crate::text::debug_text;
use crate::text::decimal;
use crate::text::decimal_value;
use crate::text::law_decimal_reads_back;
use crate::text::push_decimal;
use vstd::prelude::*;
use vstd::string::*;

verus! {

/// Requests of the media player, each one byte on the wire.
#[derive(Clone, Copy, Debug, PartialEq, Eq, Structural)]
pub enum PipeMsgs {
    /// A greeting.
    Hello,
    /// A sign of life.
    HeartBeat,
    /// Asks for an access token.
    ReqToken,
    /// Pauses playback.
    Pause,
    /// Starts playback.
    Play,
    /// Starts or pauses playback.
    PlayPause,
    /// Skips to the next track.
    Next,
    /// Skips back to the previous track.
    Prev,
    /// Sets the volume to the level in the byte that follows.
    Volume,
}

impl PipeMsgs {
    /// The byte that stands for the request.
    pub open spec fn spec_code(self) -> u8 {
        match self {
            PipeMsgs::Hello => 0x1,
            PipeMsgs::HeartBeat => 0x2,
            PipeMsgs::ReqToken => 0x3,
            PipeMsgs::Pause => 0x4,
            PipeMsgs::Play => 0x5,
            PipeMsgs::PlayPause => 0x6,
            PipeMsgs::Next => 0x7,
            PipeMsgs::Prev => 0x8,
            PipeMsgs::Volume => 0x9,
        }
    }

    /// The byte that stands for the request.
    pub fn code(&self) -> (r: u8)
        ensures
            r == self.spec_code(),
    {
        match self {
            PipeMsgs::Hello => 0x1,
            PipeMsgs::HeartBeat => 0x2,
            PipeMsgs::ReqToken => 0x3,
            PipeMsgs::Pause => 0x4,
            PipeMsgs::Play => 0x5,
            PipeMsgs::PlayPause => 0x6,
            PipeMsgs::Next => 0x7,
            PipeMsgs::Prev => 0x8,
            PipeMsgs::Volume => 0x9,
        }
    }

    /// The request that a byte stands for; `None` for a byte that stands for none.
    pub open spec fn decoded(byte: u8) -> Option<PipeMsgs> {
        match byte {
            0x1 => Some(PipeMsgs::Hello),
            0x2 => Some(PipeMsgs::HeartBeat),
            0x3 => Some(PipeMsgs::ReqToken),
            0x4 => Some(PipeMsgs::Pause),
            0x5 => Some(PipeMsgs::Play),
            0x6 => Some(PipeMsgs::PlayPause),
            0x7 => Some(PipeMsgs::Next),
            0x8 => Some(PipeMsgs::Prev),
            0x9 => Some(PipeMsgs::Volume),
            _ => None,
        }
    }

    /// The request that a byte stands for; `None` for a byte that stands for none.
    pub fn from_code(byte: u8) -> (r: Option<PipeMsgs>)
        ensures
            r == PipeMsgs::decoded(byte),
    {
        match byte {
            0x1 => Some(PipeMsgs::Hello),
            0x2 => Some(PipeMsgs::HeartBeat),
            0x3 => Some(PipeMsgs::ReqToken),
            0x4 => Some(PipeMsgs::Pause),
            0x5 => Some(PipeMsgs::Play),
            0x6 => Some(PipeMsgs::PlayPause),
            0x7 => Some(PipeMsgs::Next),
            0x8 => Some(PipeMsgs::Prev),
            0x9 => Some(PipeMsgs::Volume),
            _ => None,
        }
    }

    /// The name of the request.
    pub open spec fn spec_name(self) -> Seq<char> {
        match self {
            PipeMsgs::Hello => "Hello"@,
            PipeMsgs::HeartBeat => "HeartBeat"@,
            PipeMsgs::ReqToken => "ReqToken"@,
            PipeMsgs::Pause => "Pause"@,
            PipeMsgs::Play => "Play"@,
            PipeMsgs::PlayPause => "PlayPause"@,
            PipeMsgs::Next => "Next"@,
            PipeMsgs::Prev => "Prev"@,
            PipeMsgs::Volume => "Volume"@,
        }
    }

    /// The name of the request.
    pub fn name(&self) -> (r: &'static str)
        ensures
            r@ == self.spec_name(),
    {
        match self {
            PipeMsgs::Hello => "Hello",
            PipeMsgs::HeartBeat => "HeartBeat",
            PipeMsgs::ReqToken => "ReqToken",
            PipeMsgs::Pause => "Pause",
            PipeMsgs::Play => "Play",
            PipeMsgs::PlayPause => "PlayPause",
            PipeMsgs::Next => "Next",
            PipeMsgs::Prev => "Prev",
            PipeMsgs::Volume => "Volume",
        }
    }
}

/// Notices to the media player.
#[allow(non_camel_case_types)]
#[derive(Debug)]
pub enum MetaMsgs<'a> {
    /// A track is being loaded.
    kSpPlaybackLoading,
    /// Playback runs.
    kSpPlaybackActive,
    /// Playback stopped.
    kSpPlaybackInactive,
    /// The daemon became the active device.
    kSpDeviceActive,
    /// The daemon is no longer the active device.
    kSpDeviceInactive,
    /// The audio output is in use.
    kSpSinkActive,
    /// The audio output is no longer in use.
    kSpSinkInactive,
    /// The position in the track, in milliseconds.
    position_ms(u32),
    /// The mixer's level, out of `u16::MAX`.
    volume(u16),
    /// Whether playback runs or pauses.
    state {
        /// What the player does: `play` or `pause`.
        status: &'a str,
    },
    /// Confirms a request.
    pong(PipeMsgs),
}

impl<'a> MetaMsgs<'a> {
    /// The name of a notice that carries nothing else; `None` for the others.
    pub open spec fn spec_name(self) -> Option<Seq<char>> {
        match self {
            MetaMsgs::kSpPlaybackLoading => Some("kSpPlaybackLoading"@),
            MetaMsgs::kSpPlaybackActive => Some("kSpPlaybackActive"@),
            MetaMsgs::kSpPlaybackInactive => Some("kSpPlaybackInactive"@),
            MetaMsgs::kSpDeviceActive => Some("kSpDeviceActive"@),
            MetaMsgs::kSpDeviceInactive => Some("kSpDeviceInactive"@),
            MetaMsgs::kSpSinkActive => Some("kSpSinkActive"@),
            MetaMsgs::kSpSinkInactive => Some("kSpSinkInactive"@),
            _ => None,
        }
    }

    /// The plain form of a notice: its name, with what it carries in brackets.
    /// A volume has none here: its percentage is a fraction, which is left to
    /// whoever sends it.
    pub open spec fn plain_text(self) -> Option<Seq<char>> {
        match self {
            MetaMsgs::position_ms(ms) => Some("position_ms("@ + decimal(ms as nat) + ")"@),
            MetaMsgs::volume(_) => None,
            MetaMsgs::state { status } => Some(
                "state { status: "@ + debug_text(status@) + " }"@,
            ),
            MetaMsgs::pong(msg) => Some("pong("@ + msg.spec_name() + ")"@),
            _ => self.spec_name(),
        }
    }

    /// The JSON form of a notice: a string for a bare name, else an object with
    /// the name as its only key. A volume has none here, as with the plain form.
    pub open spec fn json(self) -> Option<Json> {
        match self {
            MetaMsgs::position_ms(ms) => Some(
                json_field("position_ms"@, Json::Integer(ms as int)),
            ),
            MetaMsgs::volume(_) => None,
            MetaMsgs::state { status } => Some(
                json_field("state"@, json_field("status"@, Json::Text(status@))),
            ),
            MetaMsgs::pong(msg) => Some(json_field("pong"@, Json::Text(msg.spec_name()))),
            _ => Some(Json::Text(self.spec_name()->Some_0)),
        }
    }

    /// The name of a notice that carries nothing else; `None` for the others.
    pub fn name(&self) -> (r: Option<&'static str>)
        ensures
            match r {
                Some(name) => self.spec_name() == Some(name@),
                None => self.spec_name() is None,
            },
    {
        match self {
            MetaMsgs::kSpPlaybackLoading => Some("kSpPlaybackLoading"),
            MetaMsgs::kSpPlaybackActive => Some("kSpPlaybackActive"),
            MetaMsgs::kSpPlaybackInactive => Some("kSpPlaybackInactive"),
            MetaMsgs::kSpDeviceActive => Some("kSpDeviceActive"),
            MetaMsgs::kSpDeviceInactive => Some("kSpDeviceInactive"),
            MetaMsgs::kSpSinkActive => Some("kSpSinkActive"),
            MetaMsgs::kSpSinkInactive => Some("kSpSinkInactive"),
            _ => None,
        }
    }

    /// The plain form of the notice; `None` for a volume.
    pub fn display(&self) -> (r: Option<String>)
        ensures
            match r {
                Some(text) => self.plain_text() == Some(text@),
                None => self.plain_text() is None,
            },
    {
        match self {
            MetaMsgs::position_ms(ms) => {
                let mut text = "position_ms(".to_owned();
                push_decimal(&mut text, *ms);
                text.append(")");
                Some(text)
            },
            MetaMsgs::volume(_) => None,
            MetaMsgs::state { status } => {
                let mut text = "state { status: ".to_owned();
                text.append(debug_str(status).as_str());
                text.append(" }");
                Some(text)
            },
            MetaMsgs::pong(msg) => {
                let mut text = "pong(".to_owned();
                text.append(msg.name());
                text.append(")");
                Some(text)
            },
            _ => match self.name() {
                Some(name) => Some(name.to_owned()),
                None => None,
            },
        }
    }

    /// The JSON form of the notice; `None` for a volume.
    pub fn to_json(&self) -> (r: Option<String>)
        ensures
            match r {
                Some(text) => self.json() is Some && text@ == json_text(self.json()->Some_0),
                None => self.json() is None,
            },
    {
        match self {
            MetaMsgs::position_ms(ms) => Some(
                value_text(&field_value("position_ms", integer_value(*ms as i64))),
            ),
            MetaMsgs::volume(_) => None,
            MetaMsgs::state { status } => Some(
                value_text(
                    &field_value("state", field_value("status", text_value((*status).to_owned()))),
                ),
            ),
            MetaMsgs::pong(msg) => Some(
                value_text(&field_value("pong", text_value(msg.name().to_owned()))),
            ),
            _ => match self.name() {
                Some(name) => Some(value_text(&text_value(name.to_owned()))),
                None => None,
            },
        }
    }
}

/// Reading undoes writing, and the other way round: a byte is read as a request
/// exactly if it is the one that stands for that request.
pub proof fn law_codes_round_trip(byte: u8, msg: PipeMsgs)
    ensures
        PipeMsgs::decoded(byte) == Some(msg) <==> msg.spec_code() == byte,
{
}

/// Every request goes by its own name and byte.
pub proof fn law_requests_are_named(msg: PipeMsgs)
    ensures
        match msg {
            PipeMsgs::Hello => msg.spec_code() == 0x1 && msg.spec_name() == "Hello"@,
            PipeMsgs::HeartBeat => msg.spec_code() == 0x2 && msg.spec_name() == "HeartBeat"@,
            PipeMsgs::ReqToken => msg.spec_code() == 0x3 && msg.spec_name() == "ReqToken"@,
            PipeMsgs::Pause => msg.spec_code() == 0x4 && msg.spec_name() == "Pause"@,
            PipeMsgs::Play => msg.spec_code() == 0x5 && msg.spec_name() == "Play"@,
            PipeMsgs::PlayPause => msg.spec_code() == 0x6 && msg.spec_name() == "PlayPause"@,
            PipeMsgs::Next => msg.spec_code() == 0x7 && msg.spec_name() == "Next"@,
            PipeMsgs::Prev => msg.spec_code() == 0x8 && msg.spec_name() == "Prev"@,
            PipeMsgs::Volume => msg.spec_code() == 0x9 && msg.spec_name() == "Volume"@,
        },
{
}

/// A notice that carries nothing else is its name, as plain text and as a JSON
/// string; one that carries something has no bare name.
pub proof fn law_bare_notices_are_names(msg: MetaMsgs)
    ensures
        match msg {
            MetaMsgs::kSpPlaybackLoading => msg.spec_name() == Some("kSpPlaybackLoading"@),
            MetaMsgs::kSpPlaybackActive => msg.spec_name() == Some("kSpPlaybackActive"@),
            MetaMsgs::kSpPlaybackInactive => msg.spec_name() == Some("kSpPlaybackInactive"@),
            MetaMsgs::kSpDeviceActive => msg.spec_name() == Some("kSpDeviceActive"@),
            MetaMsgs::kSpDeviceInactive => msg.spec_name() == Some("kSpDeviceInactive"@),
            MetaMsgs::kSpSinkActive => msg.spec_name() == Some("kSpSinkActive"@),
            MetaMsgs::kSpSinkInactive => msg.spec_name() == Some("kSpSinkInactive"@),
            _ => msg.spec_name() is None,
        },
        msg.spec_name() matches Some(name) ==> msg.plain_text() == Some(name) && msg.json() == Some(
            Json::Text(name),
        ),
{
}

/// A notice that carries something shows it in full: between brackets as plain
/// text, and as the one field of its name as JSON. A volume has neither form.
pub proof fn law_notices_show_what_they_carry(ms: u32, level: u16, status: &str, msg: PipeMsgs)
    ensures
        MetaMsgs::position_ms(ms).plain_text() matches Some(text) && text.len() == 13
            + decimal(ms as nat).len() && text.subrange(0, 12) == "position_ms("@
            && decimal_value(text.subrange(12, text.len() - 1)) == ms && text.last() == ')',
        MetaMsgs::position_ms(ms).json() matches Some(Json::Object(fields))
            && fields["position_ms"@] == Json::Integer(ms as int) && (forall|k: Seq<char>|
            #[trigger] fields.contains_key(k) <==> k == "position_ms"@),
        (MetaMsgs::state { status }).plain_text() == Some(
            "state { status: "@ + debug_text(status@) + " }"@,
        ),
        (MetaMsgs::state { status }).json() matches Some(Json::Object(outer)) && (
        outer["state"@] matches Json::Object(inner) && inner["status"@] == Json::Text(status@) && (
        forall|k: Seq<char>| #[trigger] outer.contains_key(k) <==> k == "state"@) && (forall|
            k: Seq<char>,
        | #[trigger]
            inner.contains_key(k) <==> k == "status"@)),
        MetaMsgs::pong(msg).plain_text() == Some("pong("@ + msg.spec_name() + ")"@),
        MetaMsgs::pong(msg).json() matches Some(Json::Object(fields)) && fields["pong"@]
            == Json::Text(msg.spec_name()) && (forall|k: Seq<char>|
            #[trigger] fields.contains_key(k) <==> k == "pong"@),
        MetaMsgs::volume(level).plain_text() is None && MetaMsgs::volume(level).json() is None,
{
    reveal_strlit("position_ms(");
    reveal_strlit(")");
    let digits = decimal(ms as nat);
    let text = "position_ms("@ + digits + ")"@;
    law_decimal_reads_back(ms as nat);
    assert(text.subrange(0, 12) =~= "position_ms("@);
    assert(text.subrange(12, text.len() - 1) =~= digits);
}

} // verus!
