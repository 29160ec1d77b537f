use vollibrespot::ident::AudioType;
use vollibrespot::ident::MediaId;
use vollibrespot::metadata::metadata_datagrams;
use vollibrespot::metadata::AlbumInfo;
use vollibrespot::metadata::ArtistInfo;
use vollibrespot::metadata::EpisodeInfo;
use vollibrespot::metadata::Lookup;
use vollibrespot::metadata::MetadataQuery;
use vollibrespot::metadata::Progress;
use vollibrespot::metadata::Reply;
use vollibrespot::metadata::ShowInfo;
use vollibrespot::metadata::TrackInfo;

fn track_id(id: u128) -> MediaId {
    MediaId { id, audio_type: AudioType::Track }
}

fn track(artists: Vec<MediaId>) -> TrackInfo {
    TrackInfo {
        name: String::from("Title \"quoted\""),
        duration: 215_000,
        album: track_id(20),
        artists,
    }
}

fn album() -> AlbumInfo {
    let mut cover = [0u8; 20];
    cover[19] = 0x1f;
    AlbumInfo { id: track_id(62), name: String::from("Album"), covers: vec![cover, [0xee; 20]] }
}

fn artist(id: u128, name: &str) -> ArtistInfo {
    ArtistInfo { id: track_id(id), name: String::from(name) }
}

fn go_on(query: MetadataQuery, reply: Reply) -> MetadataQuery {
    match query.advance(reply) {
        Progress::Continue(query) => query,
        other => panic!("{:?}", other),
    }
}

#[test]
fn a_track_is_told_with_its_album_and_artists_in_order() {
    let query = MetadataQuery::new(track_id(1), Some(1_500));
    assert_eq!(query.lookup(), Lookup::Track(track_id(1)));
    let query = go_on(query, Reply::Track(track(vec![track_id(31), track_id(30)])));
    assert_eq!(query.lookup(), Lookup::Album(track_id(20)));
    let query = go_on(query, Reply::Album(album()));
    assert_eq!(query.lookup(), Lookup::Artist(track_id(31)));
    let query = go_on(query, Reply::Artist(artist(31, "First")));
    assert_eq!(query.lookup(), Lookup::Artist(track_id(30)));
    let text = match query.advance(Reply::Artist(artist(30, "Second"))) {
        Progress::Done(text) => text,
        other => panic!("{:?}", other),
    };
    assert_eq!(
        text,
        concat_lines(&[
            r#"{"metadata":{"album_id":"0000000000000000000010","album_name":"Album","#,
            r#""albumartId":["000000000000000000000000000000000000001f","#,
            r#""eeeeeeeeeeeeeeeeeeeeeeeeeeeeeeeeeeeeeeee"],"#,
            r#""artist_id":["000000000000000000000v","000000000000000000000u"],"#,
            r#""artist_name":["First","Second"],"duration_ms":215000,"position_ms":1500,"#,
            r#""track_id":"0000000000000000000001","track_name":"Title \"quoted\""}}"#,
        ]),
    );
}

fn concat_lines(lines: &[&str]) -> String {
    lines.concat()
}

#[test]
fn a_track_without_artists_needs_two_lookups() {
    let query = go_on(MetadataQuery::new(track_id(1), None), Reply::Track(track(vec![])));
    match query.advance(Reply::Album(album())) {
        Progress::Done(text) => {
            assert!(text.contains(r#""artist_id":[],"artist_name":[]"#));
            assert!(text.contains(r#""position_ms":0"#));
        }
        other => panic!("{:?}", other),
    }
}

#[test]
fn an_episode_is_told_with_its_show() {
    for audio_type in [AudioType::Podcast, AudioType::NonPlayable] {
        let id = MediaId { id: 2, audio_type };
        let query = MetadataQuery::new(id, None);
        assert_eq!(query.lookup(), Lookup::Episode(id));
        let episode = EpisodeInfo {
            name: String::from("Pilot"),
            duration: -1,
            show: track_id(5),
            covers: vec![],
        };
        let query = go_on(query, Reply::Episode(episode));
        assert_eq!(query.lookup(), Lookup::Show(track_id(5)));
        let show = ShowInfo {
            id: track_id(5),
            name: String::from("Show"),
            publisher: String::from("Radio"),
        };
        match query.advance(Reply::Show(show)) {
            Progress::Done(text) => assert_eq!(
                text,
                concat_lines(&[
                    r#"{"metadata":{"album_id":"0000000000000000000005","album_name":"Show","#,
                    r#""albumartId":[],"artist_name":["Radio"],"duration_ms":-1,"#,
                    r#""position_ms":0,"track_id":"0000000000000000000002","#,
                    r#""track_name":"Pilot"}}"#,
                ]),
            ),
            other => panic!("{:?}", other),
        }
    }
}

#[test]
fn a_failed_lookup_abandons_the_query() {
    let first = MetadataQuery::new(track_id(1), None);
    assert!(matches!(first.advance(Reply::Failed), Progress::Abandoned));
    let second = go_on(MetadataQuery::new(track_id(1), None), Reply::Track(track(vec![])));
    assert!(matches!(second.advance(Reply::Failed), Progress::Abandoned));
    let third = go_on(
        MetadataQuery::new(track_id(1), None),
        Reply::Track(track(vec![track_id(3), track_id(4)])),
    );
    let third = go_on(third, Reply::Album(album()));
    let third = go_on(third, Reply::Artist(artist(3, "Known")));
    assert!(matches!(third.advance(Reply::Failed), Progress::Abandoned));
}

#[test]
fn a_reply_to_another_question_abandons_the_query() {
    let query = MetadataQuery::new(track_id(1), None);
    assert!(matches!(query.advance(Reply::Album(album())), Progress::Abandoned));
}

#[test]
fn metadata_is_followed_by_a_line_end() {
    assert_eq!(metadata_datagrams(Some(String::from("{}"))), vec!["{}", "\r\n"]);
    assert!(metadata_datagrams(None).is_empty());
}
