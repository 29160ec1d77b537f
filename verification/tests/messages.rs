use vollibrespot::messages::MetaMsgs;
use vollibrespot::messages::PipeMsgs;
use vollibrespot::text::push_decimal;

const ALL: [PipeMsgs; 9] = [
    PipeMsgs::Hello,
    PipeMsgs::HeartBeat,
    PipeMsgs::ReqToken,
    PipeMsgs::Pause,
    PipeMsgs::Play,
    PipeMsgs::PlayPause,
    PipeMsgs::Next,
    PipeMsgs::Prev,
    PipeMsgs::Volume,
];

#[test]
fn codes_round_trip() {
    for (i, msg) in ALL.iter().enumerate() {
        assert_eq!(msg.code() as usize, i + 1);
        assert_eq!(PipeMsgs::from_code(msg.code()), Some(*msg));
        assert_eq!(msg.name(), format!("{:?}", msg));
    }
    assert_eq!(PipeMsgs::from_code(0), None);
    for byte in 10..=255u8 {
        assert_eq!(PipeMsgs::from_code(byte), None);
    }
}

#[test]
fn notices_without_content_are_shown_by_name() {
    let notices = [
        MetaMsgs::kSpPlaybackLoading,
        MetaMsgs::kSpPlaybackActive,
        MetaMsgs::kSpPlaybackInactive,
        MetaMsgs::kSpDeviceActive,
        MetaMsgs::kSpDeviceInactive,
        MetaMsgs::kSpSinkActive,
        MetaMsgs::kSpSinkInactive,
    ];
    for notice in notices {
        let name = format!("{:?}", notice);
        assert_eq!(notice.name(), Some(name.as_str()));
        assert_eq!(notice.display(), Some(name.clone()));
        assert_eq!(notice.to_json(), Some(format!("\"{}\"", name)));
    }
}

#[test]
fn notices_with_content_are_shown_with_it() {
    let position = MetaMsgs::position_ms(4_294_967_295);
    assert_eq!(position.display().unwrap(), "position_ms(4294967295)");
    assert_eq!(position.display().unwrap(), format!("{:?}", position));
    assert_eq!(position.to_json().unwrap(), r#"{"position_ms":4294967295}"#);

    let state = MetaMsgs::state { status: "pl\"ay" };
    assert_eq!(state.display().unwrap(), r#"state { status: "pl\"ay" }"#);
    assert_eq!(state.display().unwrap(), format!("{:?}", state));
    assert_eq!(state.to_json().unwrap(), r#"{"state":{"status":"pl\"ay"}}"#);

    let pong = MetaMsgs::pong(PipeMsgs::Pause);
    assert_eq!(pong.display().unwrap(), "pong(Pause)");
    assert_eq!(pong.to_json().unwrap(), r#"{"pong":"Pause"}"#);
}

#[test]
fn a_volume_is_left_to_the_sender() {
    let volume = MetaMsgs::volume(1_000);
    assert_eq!(volume.name(), None);
    assert_eq!(volume.display(), None);
    assert_eq!(volume.to_json(), None);
}

#[test]
fn numbers_are_shown_in_decimal() {
    for n in [0, 7, 9, 10, 99, 100, 1_234_567_890, u32::MAX] {
        let mut text = String::from("n=");
        push_decimal(&mut text, n);
        assert_eq!(text, format!("n={}", n));
    }
}
