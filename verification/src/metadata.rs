//! What is told about the current track or episode, and the lookups it takes.
use crate::ident::base16;
use crate::ident::base62;
use crate::ident::cover_to_base16;
use crate::ident::AudioType;
use crate::ident::MediaId;
use crate::json::field_value;
use crate::json::integer_value;
use crate::json::json_field;
use crate::json::json_text;
use crate::json::json_texts;
use crate::json::new_fields;
use crate::json::object_value;
use crate::json::push_field;
use crate::json::text_value;
use crate::json::texts_value;
use crate::json::value_text;
use crate::json::Json;
use crate::text::texts;
use vstd::prelude::*;

verus! {

/// What is known of a track.
#[derive(Debug)]
pub struct TrackInfo {
    /// Its title.
    pub name: String,
    /// Its length in milliseconds.
    pub duration: i32,
    /// The album it is on.
    pub album: MediaId,
    /// Its artists, in order.
    pub artists: Vec<MediaId>,
}

/// What is known of an album.
#[derive(Debug)]
pub struct AlbumInfo {
    /// Its identifier.
    pub id: MediaId,
    /// Its title.
    pub name: String,
    /// Its cover images.
    pub covers: Vec<[u8; 20]>,
}

/// What is known of an artist.
#[derive(Debug)]
pub struct ArtistInfo {
    /// The artist's identifier.
    pub id: MediaId,
    /// The artist's name.
    pub name: String,
}

/// What is known of an episode.
#[derive(Debug)]
pub struct EpisodeInfo {
    /// Its title.
    pub name: String,
    /// Its length in milliseconds.
    pub duration: i32,
    /// The show it belongs to.
    pub show: MediaId,
    /// Its cover images.
    pub covers: Vec<[u8; 20]>,
}

/// What is known of a show.
#[derive(Debug)]
pub struct ShowInfo {
    /// Its identifier.
    pub id: MediaId,
    /// Its title.
    pub name: String,
    /// Who publishes it.
    pub publisher: String,
}

/// A question to the catalogue.
#[derive(Clone, Copy, Debug, PartialEq, Eq, Structural)]
pub enum Lookup {
    /// Asks for a track.
    Track(MediaId),
    /// Asks for an album.
    Album(MediaId),
    /// Asks for an artist.
    Artist(MediaId),
    /// Asks for an episode.
    Episode(MediaId),
    /// Asks for a show.
    Show(MediaId),
}

/// The catalogue's answer.
#[derive(Debug)]
pub enum Reply {
    /// The track that was asked for.
    Track(TrackInfo),
    /// The album that was asked for.
    Album(AlbumInfo),
    /// The artist that was asked for.
    Artist(ArtistInfo),
    /// The episode that was asked for.
    Episode(EpisodeInfo),
    /// The show that was asked for.
    Show(ShowInfo),
    /// The lookup failed.
    Failed,
}

/// How far a query has come.
#[derive(Debug)]
enum Stage {
    Track,
    Album { track: TrackInfo },
    Artists { track: TrackInfo, album: AlbumInfo, artists: Vec<ArtistInfo> },
    Episode,
    Show { episode: EpisodeInfo },
}

/// A query for all that is told about one item.
#[derive(Debug)]
pub struct MetadataQuery {
    id: MediaId,
    position_ms: Option<u32>,
    stage: Stage,
}

/// What became of a query.
#[derive(Debug)]
pub enum Progress {
    /// Another lookup is needed.
    Continue(MetadataQuery),
    /// All is known, and this is the text to send.
    Done(String),
    /// A lookup failed, and nothing is told.
    Abandoned,
}

/// How far a query has come.
pub enum StageView {
    /// The track is looked up.
    Track,
    /// The track is known; its album is looked up.
    Album { track: TrackInfo },
    /// Track, album and some artists are known; the next artist is looked up.
    Artists { track: TrackInfo, album: AlbumInfo, artists: Seq<ArtistInfo> },
    /// The episode is looked up.
    Episode,
    /// The episode is known; its show is looked up.
    Show { episode: EpisodeInfo },
}

/// The item that a query is about, the position to tell, and how far it has come.
pub struct QueryView {
    /// The item.
    pub id: MediaId,
    /// The position in it, if known.
    pub position_ms: Option<u32>,
    /// How far the query has come.
    pub stage: StageView,
}

/// What became of a query.
pub enum ProgressView {
    /// Another lookup is needed.
    Continue(QueryView),
    /// All is known, and this is its content.
    Done(Json),
    /// A lookup failed, and nothing is told.
    Abandoned,
}

/// The printed forms of cover images.
pub open spec fn cover_texts(covers: Seq<[u8; 20]>) -> Seq<Seq<char>> {
    Seq::new(covers.len(), |i: int| base16(covers[i]@))
}

/// The printed identifiers of artists.
pub open spec fn artist_ids(artists: Seq<ArtistInfo>) -> Seq<Seq<char>> {
    Seq::new(artists.len(), |i: int| base62(artists[i].id.id as int))
}

/// The names of artists.
pub open spec fn artist_names(artists: Seq<ArtistInfo>) -> Seq<Seq<char>> {
    Seq::new(artists.len(), |i: int| artists[i].name@)
}

/// The position to tell: the start where none is known.
pub open spec fn position_or_start(position_ms: Option<u32>) -> int {
    match position_ms {
        Some(ms) => ms as int,
        None => 0,
    }
}

/// What is told about a track.
pub open spec fn track_json(
    id: MediaId,
    position_ms: Option<u32>,
    track: TrackInfo,
    album: AlbumInfo,
    artists: Seq<ArtistInfo>,
) -> Json {
    json_field(
        "metadata"@,
        Json::Object(
            map![
                "track_id"@ => Json::Text(base62(id.id as int)),
                "track_name"@ => Json::Text(track.name@),
                "artist_id"@ => json_texts(artist_ids(artists)),
                "artist_name"@ => json_texts(artist_names(artists)),
                "album_id"@ => Json::Text(base62(album.id.id as int)),
                "album_name"@ => Json::Text(album.name@),
                "duration_ms"@ => Json::Integer(track.duration as int),
                "albumartId"@ => json_texts(cover_texts(album.covers@)),
                "position_ms"@ => Json::Integer(position_or_start(position_ms)),
            ],
        ),
    )
}

/// What is told about an episode: the show stands in for the album, and its
/// publisher for the artists.
pub open spec fn episode_json(
    id: MediaId,
    position_ms: Option<u32>,
    episode: EpisodeInfo,
    show: ShowInfo,
) -> Json {
    json_field(
        "metadata"@,
        Json::Object(
            map![
                "track_id"@ => Json::Text(base62(id.id as int)),
                "track_name"@ => Json::Text(episode.name@),
                "artist_name"@ => json_texts(seq![show.publisher@]),
                "album_id"@ => Json::Text(base62(show.id.id as int)),
                "album_name"@ => Json::Text(show.name@),
                "duration_ms"@ => Json::Integer(episode.duration as int),
                "albumartId"@ => json_texts(cover_texts(episode.covers@)),
                "position_ms"@ => Json::Integer(position_or_start(position_ms)),
            ],
        ),
    )
}

impl QueryView {
    /// The query for an item, before any lookup: anything but a track is taken
    /// for an episode.
    pub open spec fn start(id: MediaId, position_ms: Option<u32>) -> QueryView {
        QueryView {
            id,
            position_ms,
            stage: if id.audio_type == AudioType::Track {
                StageView::Track
            } else {
                StageView::Episode
            },
        }
    }

    /// Whether the query still lacks what it looks up.
    pub open spec fn wf(self) -> bool {
        self.stage matches StageView::Artists { track, artists, .. } ==> artists.len()
            < track.artists@.len()
    }

    /// The lookup that comes next.
    pub open spec fn lookup(self) -> Lookup {
        match self.stage {
            StageView::Track => Lookup::Track(self.id),
            StageView::Album { track } => Lookup::Album(track.album),
            StageView::Artists { track, artists, .. } => Lookup::Artist(
                track.artists@[artists.len() as int],
            ),
            StageView::Episode => Lookup::Episode(self.id),
            StageView::Show { episode } => Lookup::Show(episode.show),
        }
    }

    /// The query once those artists of the track are known.
    pub open spec fn with_artists(
        self,
        track: TrackInfo,
        album: AlbumInfo,
        artists: Seq<ArtistInfo>,
    ) -> ProgressView {
        if artists.len() < track.artists@.len() {
            ProgressView::Continue(
                QueryView { stage: StageView::Artists { track, album, artists }, ..self },
            )
        } else {
            ProgressView::Done(track_json(self.id, self.position_ms, track, album, artists))
        }
    }

    /// What becomes of the query by a reply.
    pub open spec fn next(self, reply: Reply) -> ProgressView {
        match (self.stage, reply) {
            (StageView::Track, Reply::Track(track)) => ProgressView::Continue(
                QueryView { stage: StageView::Album { track }, ..self },
            ),
            (StageView::Album { track }, Reply::Album(album)) => self.with_artists(
                track,
                album,
                Seq::empty(),
            ),
            (StageView::Artists { track, album, artists }, Reply::Artist(artist)) =>
            self.with_artists(track, album, artists.push(artist)),
            (StageView::Episode, Reply::Episode(episode)) => ProgressView::Continue(
                QueryView { stage: StageView::Show { episode }, ..self },
            ),
            (StageView::Show { episode }, Reply::Show(show)) => ProgressView::Done(
                episode_json(self.id, self.position_ms, episode, show),
            ),
            _ => ProgressView::Abandoned,
        }
    }
}

impl View for MetadataQuery {
    type V = QueryView;

    closed spec fn view(&self) -> QueryView {
        QueryView {
            id: self.id,
            position_ms: self.position_ms,
            stage: match self.stage {
                Stage::Track => StageView::Track,
                Stage::Album { track } => StageView::Album { track },
                Stage::Artists { track, album, artists } => StageView::Artists {
                    track,
                    album,
                    artists: artists@,
                },
                Stage::Episode => StageView::Episode,
                Stage::Show { episode } => StageView::Show { episode },
            },
        }
    }
}

impl Progress {
    /// Whether this is the given progress; a text is that of the content.
    pub open spec fn is(self, view: ProgressView) -> bool {
        match (self, view) {
            (Progress::Continue(query), ProgressView::Continue(expected)) => query@ == expected,
            (Progress::Done(text), ProgressView::Done(content)) => text@ == json_text(content),
            (Progress::Abandoned, ProgressView::Abandoned) => true,
            _ => false,
        }
    }
}

/// The printed forms of cover images.
fn covers_to_base16(covers: &Vec<[u8; 20]>) -> (r: Vec<String>)
    ensures
        texts(r@) == cover_texts(covers@),
{
    let mut list: Vec<String> = Vec::new();
    for i in 0..covers.len()
        invariant
            list.len() == i,
            forall|j: int| 0 <= j < i ==> (#[trigger] list@[j])@ == base16(covers@[j]@),
    {
        list.push(cover_to_base16(covers[i]));
    }
    assert(texts(list@) =~= cover_texts(covers@));
    list
}

/// The text about a track.
fn track_text(
    id: MediaId,
    position_ms: Option<u32>,
    track: TrackInfo,
    album: AlbumInfo,
    artists: &Vec<ArtistInfo>,
) -> (r: String)
    ensures
        r@ == json_text(track_json(id, position_ms, track, album, artists@)),
{
    let mut ids: Vec<String> = Vec::new();
    let mut names: Vec<String> = Vec::new();
    for i in 0..artists.len()
        invariant
            ids.len() == i,
            names.len() == i,
            forall|j: int| 0 <= j < i ==> (#[trigger] ids@[j])@ == base62(artists@[j].id.id as int),
            forall|j: int| 0 <= j < i ==> (#[trigger] names@[j])@ == artists@[j].name@,
    {
        ids.push(artists[i].id.to_base62());
        names.push(artists[i].name.clone());
    }
    assert(texts(ids@) =~= artist_ids(artists@));
    assert(texts(names@) =~= artist_names(artists@));
    let covers = covers_to_base16(&album.covers);
    let position: u32 = match position_ms {
        Some(ms) => ms,
        None => 0,
    };
    let mut fields = new_fields();
    push_field(&mut fields, "track_id", text_value(id.to_base62()));
    push_field(&mut fields, "track_name", text_value(track.name));
    push_field(&mut fields, "artist_id", texts_value(ids));
    push_field(&mut fields, "artist_name", texts_value(names));
    push_field(&mut fields, "album_id", text_value(album.id.to_base62()));
    push_field(&mut fields, "album_name", text_value(album.name));
    push_field(&mut fields, "duration_ms", integer_value(track.duration as i64));
    push_field(&mut fields, "albumartId", texts_value(covers));
    push_field(&mut fields, "position_ms", integer_value(position as i64));
    value_text(&field_value("metadata", object_value(fields)))
}

/// The text about an episode.
fn episode_text(
    id: MediaId,
    position_ms: Option<u32>,
    episode: EpisodeInfo,
    show: ShowInfo,
) -> (r: String)
    ensures
        r@ == json_text(episode_json(id, position_ms, episode, show)),
{
    let covers = covers_to_base16(&episode.covers);
    let mut publishers: Vec<String> = Vec::new();
    publishers.push(show.publisher);
    assert(texts(publishers@) =~= seq![show.publisher@]);
    let position: u32 = match position_ms {
        Some(ms) => ms,
        None => 0,
    };
    let mut fields = new_fields();
    push_field(&mut fields, "track_id", text_value(id.to_base62()));
    push_field(&mut fields, "track_name", text_value(episode.name));
    push_field(&mut fields, "artist_name", texts_value(publishers));
    push_field(&mut fields, "album_id", text_value(show.id.to_base62()));
    push_field(&mut fields, "album_name", text_value(show.name));
    push_field(&mut fields, "duration_ms", integer_value(episode.duration as i64));
    push_field(&mut fields, "albumartId", texts_value(covers));
    push_field(&mut fields, "position_ms", integer_value(position as i64));
    value_text(&field_value("metadata", object_value(fields)))
}

impl MetadataQuery {
    /// A query for all that is told about an item at a position in it.
    pub fn new(id: MediaId, position_ms: Option<u32>) -> (r: Self)
        ensures
            r@ == QueryView::start(id, position_ms),
            r@.wf(),
    {
        let stage = if id.audio_type == AudioType::Track {
            Stage::Track
        } else {
            Stage::Episode
        };
        MetadataQuery { id, position_ms, stage }
    }

    /// The lookup that comes next.
    pub fn lookup(&self) -> (r: Lookup)
        requires
            self@.wf(),
        ensures
            r == self@.lookup(),
    {
        match &self.stage {
            Stage::Track => Lookup::Track(self.id),
            Stage::Album { track } => Lookup::Album(track.album),
            Stage::Artists { track, artists, .. } => Lookup::Artist(track.artists[artists.len()]),
            Stage::Episode => Lookup::Episode(self.id),
            Stage::Show { episode } => Lookup::Show(episode.show),
        }
    }

    /// Takes the answer to the lookup and goes on. A failed lookup, like an
    /// answer to another question, ends the query.
    pub fn advance(self, reply: Reply) -> (r: Progress)
        ensures
            r.is(self@.next(reply)),
            match self@.next(reply) {
                ProgressView::Continue(expected) => r matches Progress::Continue(query) && query@
                    == expected,
                ProgressView::Done(content) => r matches Progress::Done(text) && text@
                    == json_text(content),
                ProgressView::Abandoned => r is Abandoned,
            },
            r matches Progress::Continue(query) ==> query@.wf(),
    {
        let id = self.id;
        let position_ms = self.position_ms;
        match (self.stage, reply) {
            (Stage::Track, Reply::Track(track)) => Progress::Continue(
                MetadataQuery { id, position_ms, stage: Stage::Album { track } },
            ),
            (Stage::Album { track }, Reply::Album(album)) => {
                MetadataQuery::with_artists(id, position_ms, track, album, Vec::new())
            },
            (Stage::Artists { track, album, mut artists }, Reply::Artist(artist)) => {
                artists.push(artist);
                MetadataQuery::with_artists(id, position_ms, track, album, artists)
            },
            (Stage::Episode, Reply::Episode(episode)) => Progress::Continue(
                MetadataQuery { id, position_ms, stage: Stage::Show { episode } },
            ),
            (Stage::Show { episode }, Reply::Show(show)) => Progress::Done(
                episode_text(id, position_ms, episode, show),
            ),
            _ => Progress::Abandoned,
        }
    }

    /// Goes on once those artists of the track are known.
    fn with_artists(
        id: MediaId,
        position_ms: Option<u32>,
        track: TrackInfo,
        album: AlbumInfo,
        artists: Vec<ArtistInfo>,
    ) -> (r: Progress)
        ensures
            r.is(
                (QueryView { id, position_ms, stage: StageView::Track }).with_artists(
                    track,
                    album,
                    artists@,
                ),
            ),
            r matches Progress::Continue(query) ==> query@.wf(),
    {
        if artists.len() < track.artists.len() {
            let stage = Stage::Artists { track, album, artists };
            Progress::Continue(MetadataQuery { id, position_ms, stage })
        } else {
            Progress::Done(track_text(id, position_ms, track, album, &artists))
        }
    }
}

/// The datagrams for the outcome of a query: the text and a line end, or nothing
/// where there is no text.
pub fn metadata_datagrams(text: Option<String>) -> (r: Vec<String>)
    ensures
        texts(r@) == match text {
            Some(t) => seq![t@, "\r\n"@],
            None => seq![],
        },
        match text {
            Some(t) => r@.len() == 2 && r@[0]@ == t@ && r@[1]@ == "\r\n"@,
            None => r@.len() == 0,
        },
{
    let mut list: Vec<String> = Vec::new();
    if let Some(t) = text {
        list.push(t);
        list.push("\r\n".to_owned());
        assert(texts(list@) =~= seq![t@, "\r\n"@]);
    } else {
        assert(texts(list@) =~= seq![]);
    }
    list
}

/// What becomes of a query by a series of replies; replies after its end change
/// nothing.
pub open spec fn after_replies(progress: ProgressView, replies: Seq<Reply>) -> ProgressView
    decreases replies.len(),
{
    if replies.len() == 0 {
        progress
    } else {
        match after_replies(progress, replies.drop_last()) {
            ProgressView::Continue(query) => query.next(replies.last()),
            ended => ended,
        }
    }
}

/// The replies to a query for a track: the track, its album, then its artists.
pub open spec fn track_replies(
    track: TrackInfo,
    album: AlbumInfo,
    artists: Seq<ArtistInfo>,
) -> Seq<Reply> {
    seq![Reply::Track(track), Reply::Album(album)] + Seq::new(
        artists.len(),
        |i: int| Reply::Artist(artists[i]),
    )
}

/// A query for a track asks for the track, then its album, then each of its
/// artists in order, and ends with all of them told once the last one is known.
pub proof fn law_track_query(
    id: MediaId,
    position_ms: Option<u32>,
    track: TrackInfo,
    album: AlbumInfo,
    artists: Seq<ArtistInfo>,
)
    requires
        id.audio_type == AudioType::Track,
        artists.len() <= track.artists@.len(),
    ensures
        QueryView::start(id, position_ms).lookup() == Lookup::Track(id),
        after_replies(
            ProgressView::Continue(QueryView::start(id, position_ms)),
            seq![Reply::Track(track)],
        ) matches ProgressView::Continue(query) && query.lookup() == Lookup::Album(track.album),
        artists.len() < track.artists@.len() ==> (after_replies(
            ProgressView::Continue(QueryView::start(id, position_ms)),
            track_replies(track, album, artists),
        ) matches ProgressView::Continue(query) && query.lookup() == Lookup::Artist(
            track.artists@[artists.len() as int],
        )),
        artists.len() == track.artists@.len() ==> after_replies(
            ProgressView::Continue(QueryView::start(id, position_ms)),
            track_replies(track, album, artists),
        ) == ProgressView::Done(track_json(id, position_ms, track, album, artists)),
{
    let start = QueryView::start(id, position_ms);
    let replies = track_replies(track, album, artists);
    assert(after_replies(ProgressView::Continue(start), seq![Reply::Track(track)])
        == ProgressView::Continue(QueryView { stage: StageView::Album { track }, ..start })) by {
        reveal_with_fuel(after_replies, 2);
        assert(seq![Reply::Track(track)].drop_last() =~= seq![]);
    }
    if artists.len() == 0 {
        assert(replies =~= seq![Reply::Track(track), Reply::Album(album)]);
        assert(replies.drop_last() =~= seq![Reply::Track(track)]);
        assert(artists =~= Seq::empty());
    } else {
        let known = artists.drop_last();
        assert(replies.drop_last() =~= track_replies(track, album, known));
        lemma_artists_stage(id, position_ms, track, album, known);
        assert(known.push(artists.last()) =~= artists);
    }
}

/// After some artists the query holds exactly those.
proof fn lemma_artists_stage(
    id: MediaId,
    position_ms: Option<u32>,
    track: TrackInfo,
    album: AlbumInfo,
    artists: Seq<ArtistInfo>,
)
    requires
        id.audio_type == AudioType::Track,
        artists.len() < track.artists@.len(),
    ensures
        after_replies(
            ProgressView::Continue(QueryView::start(id, position_ms)),
            track_replies(track, album, artists),
        ) == ProgressView::Continue(
            QueryView {
                id,
                position_ms,
                stage: StageView::Artists { track, album, artists },
            },
        ),
    decreases artists.len(),
{
    let replies = track_replies(track, album, artists);
    if artists.len() == 0 {
        reveal_with_fuel(after_replies, 3);
        assert(replies =~= seq![Reply::Track(track), Reply::Album(album)]);
        assert(replies.drop_last() =~= seq![Reply::Track(track)]);
        assert(seq![Reply::Track(track)].drop_last() =~= seq![]);
        assert(artists =~= Seq::empty());
    } else {
        let known = artists.drop_last();
        lemma_artists_stage(id, position_ms, track, album, known);
        assert(replies.drop_last() =~= track_replies(track, album, known));
        assert(known.push(artists.last()) =~= artists);
    }
}

/// A query for anything but a track asks for the episode, then its show, and
/// ends with both told.
pub proof fn law_episode_query(
    id: MediaId,
    position_ms: Option<u32>,
    episode: EpisodeInfo,
    show: ShowInfo,
)
    requires
        id.audio_type != AudioType::Track,
    ensures
        QueryView::start(id, position_ms).lookup() == Lookup::Episode(id),
        after_replies(
            ProgressView::Continue(QueryView::start(id, position_ms)),
            seq![Reply::Episode(episode)],
        ) matches ProgressView::Continue(query) && query.lookup() == Lookup::Show(episode.show),
        after_replies(
            ProgressView::Continue(QueryView::start(id, position_ms)),
            seq![Reply::Episode(episode), Reply::Show(show)],
        ) == ProgressView::Done(episode_json(id, position_ms, episode, show)),
{
    reveal_with_fuel(after_replies, 3);
    assert(seq![Reply::Episode(episode), Reply::Show(show)].drop_last()
        =~= seq![Reply::Episode(episode)]);
    assert(seq![Reply::Episode(episode)].drop_last() =~= seq![]);
}

/// One failed lookup, whenever it comes, ends a query with nothing told, and
/// no later reply changes that.
pub proof fn law_failed_lookup_tells_nothing(
    query: QueryView,
    before: Seq<Reply>,
    after: Seq<Reply>,
)
    requires
        after_replies(ProgressView::Continue(query), before) is Continue,
    ensures
        after_replies(ProgressView::Continue(query), before.push(Reply::Failed) + after)
            == ProgressView::Abandoned,
    decreases after.len(),
{
    let replies = before.push(Reply::Failed) + after;
    if after.len() == 0 {
        assert(replies =~= before.push(Reply::Failed));
        assert(replies.drop_last() =~= before);
    } else {
        law_failed_lookup_tells_nothing(query, before, after.drop_last());
        assert(replies.drop_last() =~= before.push(Reply::Failed) + after.drop_last());
    }
}

/// The keys under which a track or an episode is told are all different.
proof fn lemma_keys_differ()
    ensures
        seq![
            "track_id"@,
            "track_name"@,
            "artist_id"@,
            "artist_name"@,
            "album_id"@,
            "album_name"@,
            "duration_ms"@,
            "albumartId"@,
            "position_ms"@,
        ].no_duplicates(),
{
    reveal_strlit("track_id");
    reveal_strlit("track_name");
    reveal_strlit("artist_id");
    reveal_strlit("artist_name");
    reveal_strlit("album_id");
    reveal_strlit("album_name");
    reveal_strlit("duration_ms");
    reveal_strlit("albumartId");
    reveal_strlit("position_ms");
    let keys = seq![
        "track_id"@,
        "track_name"@,
        "artist_id"@,
        "artist_name"@,
        "album_id"@,
        "album_name"@,
        "duration_ms"@,
        "albumartId"@,
        "position_ms"@,
    ];
    assert(keys[0].len() == 8 && keys[1].len() == 10 && keys[2].len() == 9 && keys[3].len() == 11);
    assert(keys[4].len() == 8 && keys[5].len() == 10 && keys[6].len() == 11 && keys[7].len() == 10);
    assert(keys[8].len() == 11);
    assert(keys[0][0] == 't' && keys[4][0] == 'a');
    assert(keys[1][0] == 't' && keys[5][0] == 'a' && keys[7][0] == 'a');
    assert(keys[5][5] == '_' && keys[7][5] == 'a');
    assert(keys[3][0] == 'a' && keys[6][0] == 'd' && keys[8][0] == 'p');
}

/// Whether a list holds the printed forms of those cover images, one for each and in
/// order.
pub open spec fn lists_covers(list: Json, covers: Seq<[u8; 20]>) -> bool {
    list matches Json::List(items) && items.len() == covers.len() && (forall|i: int|
        0 <= i < covers.len() ==> #[trigger] items[i] == Json::Text(base16(covers[i]@)))
}

/// A query for anything but a track ends, once episode and show are known, with an
/// object of one field, `metadata`, that tells the item, its name, the publisher as
/// the one artist, the show as the album, the length, the covers, and the position it
/// was asked with, or the start if none.
pub proof fn law_episode_is_told_as_asked(
    id: MediaId,
    position_ms: Option<u32>,
    episode: EpisodeInfo,
    show: ShowInfo,
)
    requires
        id.audio_type != AudioType::Track,
    ensures
        after_replies(
            ProgressView::Continue(QueryView::start(id, position_ms)),
            seq![Reply::Episode(episode), Reply::Show(show)],
        ) matches ProgressView::Done(Json::Object(outer)) && (forall|k: Seq<char>| #[trigger]
            outer.contains_key(k) <==> k == "metadata"@) && (
        outer["metadata"@] matches Json::Object(told) && {
            &&& told["track_id"@] == Json::Text(base62(id.id as int))
            &&& told["track_name"@] == Json::Text(episode.name@)
            &&& told["artist_name"@] matches Json::List(names) && names.len() == 1 && names[0]
                == Json::Text(show.publisher@)
            &&& told["album_id"@] == Json::Text(base62(show.id.id as int))
            &&& told["album_name"@] == Json::Text(show.name@)
            &&& told["duration_ms"@] == Json::Integer(episode.duration as int)
            &&& lists_covers(told["albumartId"@], episode.covers@)
            &&& position_ms matches Some(ms) ==> told["position_ms"@] == Json::Integer(ms as int)
            &&& position_ms is None ==> told["position_ms"@] == Json::Integer(0)
            &&& forall|k: Seq<char>| #[trigger]
                told.contains_key(k) <==> k == "track_id"@ || k == "track_name"@ || k
                    == "artist_name"@ || k == "album_id"@ || k == "album_name"@ || k
                    == "duration_ms"@ || k == "albumartId"@ || k == "position_ms"@
        }),
{
    law_episode_query(id, position_ms, episode, show);
    lemma_keys_differ();
    let keys = seq![
        "track_id"@,
        "track_name"@,
        "artist_id"@,
        "artist_name"@,
        "album_id"@,
        "album_name"@,
        "duration_ms"@,
        "albumartId"@,
        "position_ms"@,
    ];
    assert(keys.no_duplicates());
    let told = episode_json(id, position_ms, episode, show)->Object_0["metadata"@]->Object_0;
    assert(told[keys[8]] == Json::Integer(position_or_start(position_ms)));
    assert(lists_covers(told[keys[7]], episode.covers@));
    assert(told[keys[6]] == Json::Integer(episode.duration as int));
    assert(told[keys[5]] == Json::Text(show.name@));
    assert(told[keys[4]] == Json::Text(base62(show.id.id as int)));
    assert(told[keys[3]] == json_texts(seq![show.publisher@]));
    assert(told[keys[1]] == Json::Text(episode.name@));
    assert(told[keys[0]] == Json::Text(base62(id.id as int)));
}

/// A query for a track ends, once track, album and all artists are known, with an
/// object of one field, `metadata`, that tells the item, its name, its artists in
/// order by identifier and by name, its album, its length, the album's covers, and the
/// position it was asked with, or the start if none.
pub proof fn law_track_is_told_as_asked(
    id: MediaId,
    position_ms: Option<u32>,
    track: TrackInfo,
    album: AlbumInfo,
    artists: Seq<ArtistInfo>,
)
    requires
        id.audio_type == AudioType::Track,
        artists.len() == track.artists@.len(),
    ensures
        after_replies(
            ProgressView::Continue(QueryView::start(id, position_ms)),
            track_replies(track, album, artists),
        ) matches ProgressView::Done(Json::Object(outer)) && (forall|k: Seq<char>| #[trigger]
            outer.contains_key(k) <==> k == "metadata"@) && (
        outer["metadata"@] matches Json::Object(told) && {
            &&& told["track_id"@] == Json::Text(base62(id.id as int))
            &&& told["track_name"@] == Json::Text(track.name@)
            &&& told["artist_id"@] matches Json::List(ids) && ids.len() == artists.len() && (forall|
                i: int,
            |
                0 <= i < artists.len() ==> #[trigger] ids[i] == Json::Text(
                    base62(artists[i].id.id as int),
                ))
            &&& told["artist_name"@] matches Json::List(names) && names.len() == artists.len() && (
            forall|i: int|
                0 <= i < artists.len() ==> #[trigger] names[i] == Json::Text(artists[i].name@))
            &&& told["album_id"@] == Json::Text(base62(album.id.id as int))
            &&& told["album_name"@] == Json::Text(album.name@)
            &&& told["duration_ms"@] == Json::Integer(track.duration as int)
            &&& lists_covers(told["albumartId"@], album.covers@)
            &&& position_ms matches Some(ms) ==> told["position_ms"@] == Json::Integer(ms as int)
            &&& position_ms is None ==> told["position_ms"@] == Json::Integer(0)
            &&& forall|k: Seq<char>| #[trigger]
                told.contains_key(k) <==> k == "track_id"@ || k == "track_name"@ || k
                    == "artist_id"@ || k == "artist_name"@ || k == "album_id"@ || k
                    == "album_name"@ || k == "duration_ms"@ || k == "albumartId"@ || k
                    == "position_ms"@
        }),
{
    law_track_query(id, position_ms, track, album, artists);
    lemma_keys_differ();
    let keys = seq![
        "track_id"@,
        "track_name"@,
        "artist_id"@,
        "artist_name"@,
        "album_id"@,
        "album_name"@,
        "duration_ms"@,
        "albumartId"@,
        "position_ms"@,
    ];
    assert(keys.no_duplicates());
    let told = track_json(
        id,
        position_ms,
        track,
        album,
        artists,
    )->Object_0["metadata"@]->Object_0;
    assert(told[keys[8]] == Json::Integer(position_or_start(position_ms)));
    assert(lists_covers(told[keys[7]], album.covers@));
    assert(told[keys[6]] == Json::Integer(track.duration as int));
    assert(told[keys[5]] == Json::Text(album.name@));
    assert(told[keys[4]] == Json::Text(base62(album.id.id as int)));
    assert(told[keys[3]] == json_texts(artist_names(artists)));
    assert(told[keys[2]] == json_texts(artist_ids(artists)));
    assert(told[keys[1]] == Json::Text(track.name@));
    assert(told[keys[0]] == Json::Text(base62(id.id as int)));
}

/// A list of covers holds their printed forms, one for each and in order.
pub proof fn law_covers_are_listed_in_order(list: Json, covers: Seq<[u8; 20]>)
    ensures
        lists_covers(list, covers) ==> (list matches Json::List(items) && items.len()
            == covers.len() && (forall|i: int|
            0 <= i < covers.len() ==> #[trigger] items[i] == Json::Text(base16(covers[i]@)))),
{
}

/// Progress is what it is taken for: the same query goes on, the text is that of the
/// content, or nothing is told.
pub proof fn law_progress_is_what_it_is_taken_for(progress: Progress, view: ProgressView)
    requires
        progress.is(view),
    ensures
        match view {
            ProgressView::Continue(expected) => progress matches Progress::Continue(query)
                && query@ == expected,
            ProgressView::Done(content) => progress matches Progress::Done(text) && text@
                == json_text(content),
            ProgressView::Abandoned => progress is Abandoned,
        },
{
}

/// An answer to another question than the one that was asked ends the query with
/// nothing told.
pub proof fn law_other_answers_tell_nothing(query: QueryView, reply: Reply)
    requires
        match query.lookup() {
            Lookup::Track(_) => !(reply is Track),
            Lookup::Album(_) => !(reply is Album),
            Lookup::Artist(_) => !(reply is Artist),
            Lookup::Episode(_) => !(reply is Episode),
            Lookup::Show(_) => !(reply is Show),
        },
    ensures
        query.next(reply) is Abandoned,
{
}

} // verus!
