use std::time::Duration;
use std::time::Instant;
use vollibrespot::ident::AudioType;
use vollibrespot::ident::MediaId;
use vollibrespot::meta_pipe::farewell;
use vollibrespot::meta_pipe::handle_event;
use vollibrespot::meta_pipe::handle_token_reply;
use vollibrespot::meta_pipe::handle_volumio_msg;
use vollibrespot::meta_pipe::token_lifetime;
use vollibrespot::meta_pipe::token_request;
use vollibrespot::meta_pipe::token_text;
use vollibrespot::meta_pipe::Command;
use vollibrespot::meta_pipe::MetaPipeConfig;
use vollibrespot::meta_pipe::PlayerEvent;
use vollibrespot::meta_pipe::SpircCommand;
use vollibrespot::meta_pipe::Token;
use vollibrespot::pipe_loop::PipeEvent;
use vollibrespot::pipe_loop::PipeLoop;
use vollibrespot::pipe_loop::PipePhase;

const ID: MediaId = MediaId { id: 9, audio_type: AudioType::Track };

fn shown(commands: &[Command]) -> Vec<String> {
    commands
        .iter()
        .map(|command| match command {
            Command::Send(text) => text.clone(),
            Command::SendVolume(level) => format!("volume {}", level),
            Command::Metadata { id, position_ms } => format!("metadata {} {:?}", id.id, position_ms),
            Command::Spirc(command) => format!("spirc {:?}", command),
        })
        .collect()
}

fn event(event: PlayerEvent, active: bool) -> (Vec<String>, bool) {
    let mut device_active = active;
    let commands = handle_event(event, &mut device_active);
    (shown(&commands), device_active)
}

fn token(expires_in: u32) -> Token {
    Token {
        access_token: String::from("abc"),
        expires_in,
        token_type: String::from("Bearer"),
        scope: vec![String::from("streaming"), String::from("user-read-private")],
    }
}

fn config() -> MetaPipeConfig {
    MetaPipeConfig { port: 5030, version: String::from("v1") }
}

#[test]
fn the_daemon_binds_to_the_next_port() {
    assert_eq!(config().bind_port(), 5031);
    assert_eq!(MetaPipeConfig { port: 65_534, version: String::new() }.bind_port(), 65_535);
}

#[test]
fn loading_is_told_with_the_track() {
    let (sent, active) = event(PlayerEvent::Loading { track_id: ID, position_ms: 3 }, false);
    assert_eq!(sent, vec!["kSpPlaybackLoading", "metadata 9 Some(3)"]);
    assert!(!active);
}

#[test]
fn the_first_playback_announces_the_device() {
    let playing = PlayerEvent::Playing { track_id: ID, position_ms: 4 };
    let (sent, active) = event(playing, false);
    assert_eq!(
        sent,
        vec![
            "kSpDeviceActive",
            "kSpSinkActive",
            r#"{"state":{"status":"play"}}"#,
            "kSpPlaybackActive",
            "metadata 9 Some(4)",
        ],
    );
    assert!(active);
    let (sent, active) = event(playing, true);
    assert_eq!(
        sent,
        vec![r#"{"state":{"status":"play"}}"#, "kSpPlaybackActive", "metadata 9 Some(4)"],
    );
    assert!(active);
}

#[test]
fn other_events_are_told_and_leave_the_device_alone() {
    for active in [false, true] {
        assert_eq!(
            event(PlayerEvent::Paused { track_id: ID, position_ms: 5 }, active),
            (
                vec![
                    String::from(r#"{"state":{"status":"pause"}}"#),
                    String::from("metadata 9 Some(5)"),
                ],
                active,
            ),
        );
        let stopped = (vec![String::from("kSpPlaybackInactive")], active);
        assert_eq!(event(PlayerEvent::Stopped, active), stopped);
        assert_eq!(event(PlayerEvent::EndOfTrack, active), stopped);
        assert_eq!(
            event(PlayerEvent::Changed { new_track_id: ID }, active),
            (vec![String::from("metadata 9 None")], active),
        );
        assert_eq!(
            event(PlayerEvent::VolumeSet { volume: 65_535 }, active),
            (vec![String::from("volume 65535")], active),
        );
        assert_eq!(event(PlayerEvent::Other, active), (vec![], active));
    }
}

#[test]
fn requests_control_playback() {
    assert_eq!(
        shown(&handle_volumio_msg([4, 0])),
        vec!["spirc Pause", r#"{"pong":"Pause"}"#],
    );
    assert_eq!(shown(&handle_volumio_msg([5, 0])), vec!["spirc Play"]);
    assert_eq!(shown(&handle_volumio_msg([6, 0])), vec!["spirc PlayPause"]);
    assert_eq!(shown(&handle_volumio_msg([7, 0])), vec!["spirc Next"]);
    assert_eq!(shown(&handle_volumio_msg([8, 0])), vec!["spirc Prev"]);
    assert!(matches!(
        handle_volumio_msg([5, 9])[0],
        Command::Spirc(SpircCommand::Play),
    ));
    for byte in [0, 1, 2, 3, 9, 10, 255] {
        assert!(handle_volumio_msg([byte, 77]).is_empty());
    }
}

#[test]
fn the_farewell_takes_the_announcement_back() {
    assert_eq!(shown(&farewell(false)), vec!["kSpPlaybackInactive"]);
    assert_eq!(
        shown(&farewell(true)),
        vec!["kSpPlaybackInactive", "kSpSinkInactive", "kSpDeviceInactive"],
    );
}

#[test]
fn a_token_is_used_for_two_minutes_less() {
    assert_eq!(token_lifetime(3_600), Duration::from_secs(3_480));
    assert_eq!(token_lifetime(121), Duration::from_secs(1));
    assert_eq!(token_lifetime(120), Duration::ZERO);
    assert_eq!(token_lifetime(0), Duration::ZERO);
    assert_eq!(token_lifetime(u32::MAX), Duration::from_secs(4_294_967_175));
}

#[test]
fn a_token_is_told_in_full() {
    assert_eq!(
        token_text(token(3_600)),
        [
            r#"{"token":{"access_token":"abc","expires_in":3600,"#,
            r#""scope":["streaming","user-read-private"],"token_type":"Bearer"}}"#,
        ]
        .concat(),
    );
}

#[test]
fn a_granted_token_is_told_and_kept() {
    let now = Instant::now();
    let (info, commands) = handle_token_reply(Some(token(600)), now);
    assert_eq!(info, Some((now, Duration::from_secs(480))));
    assert_eq!(shown(&commands), vec![token_text(token(600))]);
    let (info, commands) = handle_token_reply(None, now);
    assert_eq!(info, None);
    assert!(commands.is_empty());
}

#[test]
fn a_token_is_asked_for_in_the_name_of_a_client() {
    assert!(token_request(None).is_none());
    let request = token_request(Some(String::from("client"))).unwrap();
    assert_eq!(request.client_id, "client");
    assert!(request.scopes.starts_with("streaming,user-read-playback-state,"));
    assert!(request.scopes.ends_with(",playlist-read-collaborative"));
    assert_eq!(request.scopes.split(',').count(), 11);
}

#[test]
fn the_conversation_opens_with_the_version() {
    let (pipe, commands) = PipeLoop::open(&config());
    assert_eq!(shown(&commands), vec!["v1"]);
    assert_eq!(pipe.phase(), PipePhase::CheckSession);
}

#[test]
fn events_are_served_between_checks_of_the_session() {
    let (mut pipe, _) = PipeLoop::open(&config());
    assert!(pipe.step(PipeEvent::SessionChecked { invalid: false }).is_empty());
    assert_eq!(pipe.phase(), PipePhase::Listen);
    assert_eq!(
        shown(&pipe.step(PipeEvent::Player(Some(PlayerEvent::Stopped)))),
        vec!["kSpPlaybackInactive"],
    );
    assert_eq!(pipe.phase(), PipePhase::CheckSession);
    pipe.step(PipeEvent::SessionChecked { invalid: false });
    assert_eq!(shown(&pipe.step(PipeEvent::Datagram(Some([7, 0])))), vec!["spirc Next"]);
    pipe.step(PipeEvent::SessionChecked { invalid: false });
    assert!(pipe.step(PipeEvent::Datagram(None)).is_empty());
    assert_eq!(pipe.phase(), PipePhase::CheckSession);
}

#[test]
fn an_invalid_session_closes_the_conversation() {
    let (mut pipe, _) = PipeLoop::open(&config());
    assert_eq!(
        shown(&pipe.step(PipeEvent::SessionChecked { invalid: true })),
        vec!["kSpPlaybackInactive"],
    );
    assert_eq!(pipe.phase(), PipePhase::Closed);
}

#[test]
fn a_silent_player_closes_the_conversation_after_playback() {
    let (mut pipe, _) = PipeLoop::open(&config());
    pipe.step(PipeEvent::SessionChecked { invalid: false });
    let playing = PlayerEvent::Playing { track_id: ID, position_ms: 0 };
    assert_eq!(pipe.step(PipeEvent::Player(Some(playing))).len(), 5);
    pipe.step(PipeEvent::SessionChecked { invalid: false });
    assert_eq!(pipe.step(PipeEvent::Player(Some(playing))).len(), 3);
    pipe.step(PipeEvent::SessionChecked { invalid: false });
    assert_eq!(
        shown(&pipe.step(PipeEvent::Player(None))),
        vec!["kSpPlaybackInactive", "kSpSinkInactive", "kSpDeviceInactive"],
    );
    assert_eq!(pipe.phase(), PipePhase::Closed);
}

#[test]
fn no_token_is_asked_for_without_a_cause() {
    let (mut pipe, _) = PipeLoop::open(&config());
    for request in [1, 2, 4, 9, 255] {
        pipe.step_at(
            PipeEvent::SessionChecked { invalid: false },
            Instant::now(),
            Duration::from_secs(1_000_000),
        );
        assert_eq!(pipe.phase(), PipePhase::Listen);
        pipe.step(PipeEvent::Datagram(Some([request, 3])));
    }
}

/// A conversation that was just asked for a token.
fn asked_for_token() -> PipeLoop {
    let (mut pipe, _) = PipeLoop::open(&config());
    pipe.step(PipeEvent::SessionChecked { invalid: false });
    assert!(pipe.step(PipeEvent::Datagram(Some([3, 0]))).is_empty());
    assert_eq!(pipe.phase(), PipePhase::CheckSession);
    pipe
}

#[test]
fn a_requested_token_is_told_on_the_next_turn() {
    let mut pipe = asked_for_token();
    assert!(pipe.step(PipeEvent::SessionChecked { invalid: false }).is_empty());
    assert_eq!(pipe.phase(), PipePhase::RequestToken);
    assert_eq!(
        shown(&pipe.step(PipeEvent::TokenReply(Some(token(600))))),
        vec![token_text(token(600))],
    );
    assert_eq!(pipe.phase(), PipePhase::Listen);
    pipe.step(PipeEvent::Datagram(None));
    pipe.step(PipeEvent::SessionChecked { invalid: false });
    assert_eq!(pipe.phase(), PipePhase::Listen);
}

#[test]
fn a_token_that_has_run_out_is_renewed() {
    let mut pipe = asked_for_token();
    pipe.step(PipeEvent::SessionChecked { invalid: false });
    pipe.step(PipeEvent::TokenReply(Some(token(600))));
    let lifetime = Duration::from_secs(480);
    for (age, phase) in [
        (lifetime, PipePhase::Listen),
        (lifetime + Duration::from_nanos(1), PipePhase::RequestToken),
    ] {
        pipe.step(PipeEvent::Player(Some(PlayerEvent::Other)));
        pipe.step_at(PipeEvent::SessionChecked { invalid: false }, Instant::now(), age);
        assert_eq!(pipe.phase(), phase);
    }
}

#[test]
fn a_token_that_is_already_too_old_is_renewed_by_the_clock() {
    let mut pipe = asked_for_token();
    pipe.step(PipeEvent::SessionChecked { invalid: false });
    let long_ago = Instant::now();
    pipe.step_at(PipeEvent::TokenReply(Some(token(60))), long_ago, Duration::ZERO);
    while long_ago.elapsed().is_zero() {}
    pipe.step(PipeEvent::Datagram(None));
    pipe.step(PipeEvent::SessionChecked { invalid: false });
    assert_eq!(pipe.phase(), PipePhase::RequestToken);
}

#[test]
fn a_refused_token_is_asked_for_again_only_on_request() {
    let mut pipe = asked_for_token();
    pipe.step(PipeEvent::SessionChecked { invalid: false });
    assert!(pipe.step(PipeEvent::TokenReply(None)).is_empty());
    pipe.step(PipeEvent::Datagram(Some([2, 0])));
    pipe.step(PipeEvent::SessionChecked { invalid: false });
    assert_eq!(pipe.phase(), PipePhase::Listen);
    pipe.step(PipeEvent::Datagram(Some([3, 0])));
    pipe.step(PipeEvent::SessionChecked { invalid: false });
    assert_eq!(pipe.phase(), PipePhase::RequestToken);
}

#[test]
fn an_invalid_session_goes_before_a_requested_token() {
    let mut pipe = asked_for_token();
    assert_eq!(
        shown(&pipe.step(PipeEvent::SessionChecked { invalid: true })),
        vec!["kSpPlaybackInactive"],
    );
    assert_eq!(pipe.phase(), PipePhase::Closed);
}
