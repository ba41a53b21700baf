//! What answering one Web API request takes: the client calls it makes,
//! in order, with the arguments they are made with, and what becomes of
//! their failures.

use vstd::prelude::*;
use vstd::string::StringExecFns;
use crate::backend::{ApiError, ApiRequest, ApiSource, PlayRequest, RemoteAction};

verus! {

/// How many playlist items one page holds.
pub const PLAYLIST_PAGE_SIZE: u32 = 50;

/// The stretch of listening a top-items request covers.
#[derive(Clone, Copy, Debug, PartialEq, Eq, Structural)]
pub enum TimeRange {
    /// About the last four weeks.
    ShortTerm,
    /// About the last six months.
    MediumTerm,
}

impl TimeRange {
    /// The range as the Web API names it.
    pub fn id(self) -> (r: &'static str)
        ensures
            self == TimeRange::ShortTerm ==> r@ == "short_term"@,
            self == TimeRange::MediumTerm ==> r@ == "medium_term"@,
    {
        match self {
            TimeRange::ShortTerm => "short_term",
            TimeRange::MediumTerm => "medium_term",
        }
    }
}

/// What a search looks for.
#[derive(Clone, Copy, Debug, PartialEq, Eq, Structural)]
pub enum SearchScope {
    /// Playlists only: the Discover shelf.
    Playlists,
    /// Tracks, artists, albums, playlists, shows and episodes.
    Everything,
}

/// The item types a search of `scope` names, in the order it names them.
pub open spec fn search_types(scope: SearchScope) -> Seq<Seq<char>> {
    match scope {
        SearchScope::Playlists => seq!["playlist"@],
        SearchScope::Everything => seq!["track"@, "artist"@, "album"@, "playlist"@, "show"@, "episode"@],
    }
}

impl SearchScope {
    /// The item types the search names, in order.
    pub fn types(self) -> (r: Vec<&'static str>)
        ensures
            r@.len() == search_types(self).len(),
            forall|i: int| 0 <= i < r@.len() ==> #[trigger] r@[i]@ == search_types(self)[i],
    {
        match self {
            SearchScope::Playlists => {
                let r = vec!["playlist"];
                assert(r@[0]@ == search_types(self)[0]);
                r
            },
            SearchScope::Everything => {
                let r = vec!["track", "artist", "album", "playlist", "show", "episode"];
                assert(r@[0]@ == search_types(self)[0]);
                assert(r@[1]@ == search_types(self)[1]);
                assert(r@[2]@ == search_types(self)[2]);
                assert(r@[3]@ == search_types(self)[3]);
                assert(r@[4]@ == search_types(self)[4]);
                assert(r@[5]@ == search_types(self)[5]);
                r
            },
        }
    }
}

/// One call of the Web API client, with its arguments.
#[derive(Clone, Debug)]
pub enum ApiCall {
    Me,
    Devices,
    PlaybackState,
    Queue,
    RecentlyPlayed { limit: u32 },
    TopTracks { range: TimeRange, limit: u32, offset: u32 },
    TopArtists { range: TimeRange, limit: u32 },
    Recommendations { seed_tracks: Vec<String>, seed_artists: Vec<String>, limit: u32 },
    Search { query: String, scope: SearchScope },
    MyPlaylists { offset: u32, limit: u32 },
    Playlist { id: String },
    PlaylistItems { id: String, offset: u32, limit: u32 },
    CreatePlaylist { name: String, public: bool, description: String },
    UpdatePlaylist { id: String, name: Option<String>, description: Option<String>, public: Option<bool> },
    AddPlaylistItems { playlist_id: String, uris: Vec<String>, position: Option<u32> },
    RemovePlaylistItems { playlist_id: String, uris: Vec<String>, snapshot_id: Option<String> },
    ReorderPlaylist { playlist_id: String, range_start: u32, insert_before: u32, snapshot_id: Option<String> },
    FollowPlaylist { id: String },
    UnfollowPlaylist { id: String },
    SavedTracks { offset: u32, limit: u32 },
    SavedAlbums { offset: u32, limit: u32 },
    FollowedArtists { after: Option<String>, limit: u32 },
    SavedShows { offset: u32, limit: u32 },
    SavedEpisodes { offset: u32, limit: u32 },
    Save { uris: Vec<String> },
    Unsave { uris: Vec<String> },
    Contains { uris: Vec<String> },
    Artist { id: String },
    ArtistTopTracks { id: String },
    ArtistAlbums { id: String, groups: String, offset: u32, limit: u32 },
    RelatedArtists { id: String },
    Album { id: String },
    AlbumTracks { id: String, offset: u32, limit: u32 },
    Show { id: String },
    ShowEpisodes { id: String, offset: u32, limit: u32 },
    Track { id: String },
    Play { device_id: Option<String>, play: Option<PlayRequest> },
    Pause { device_id: Option<String> },
    Next { device_id: Option<String> },
    Previous { device_id: Option<String> },
    Seek { position_ms: u32, device_id: Option<String> },
    SetVolume { percent: u8, device_id: Option<String> },
    SetShuffle { on: bool, device_id: Option<String> },
    SetRepeat { state: String, device_id: Option<String> },
    Transfer { device_id: String, play: bool },
    AddToQueue { uri: String, device_id: Option<String> },
}

/// The calls a remote-control request makes.
pub open spec fn remote_call(
    action: RemoteAction,
    device_id: Option<String>,
    play: Option<PlayRequest>,
    position_ms: u32,
    percent: u8,
    flag: bool,
    repeat: String,
) -> ApiCall {
    match action {
        RemoteAction::Play => ApiCall::Play { device_id, play },
        RemoteAction::Pause => ApiCall::Pause { device_id },
        RemoteAction::Next => ApiCall::Next { device_id },
        RemoteAction::Previous => ApiCall::Previous { device_id },
        RemoteAction::Seek => ApiCall::Seek { position_ms, device_id },
        RemoteAction::Volume => ApiCall::SetVolume { percent, device_id },
        RemoteAction::Shuffle => ApiCall::SetShuffle { on: flag, device_id },
        RemoteAction::Repeat => ApiCall::SetRepeat { state: repeat, device_id },
    }
}

/// The client calls that answer `request`, in order; each after the one
/// before it succeeded. Home's shelves ask for short-term top tracks, 20
/// at a time (50 for the full list), medium-term top artists and 20
/// recommendations; the recently played list asks for 50; library pages
/// hold 50; a shuffled start turns shuffle on before it plays.
pub open spec fn calls_of(request: ApiRequest) -> Seq<ApiCall> {
    match request {
        ApiRequest::Me => seq![ApiCall::Me],
        ApiRequest::Devices => seq![ApiCall::Devices],
        ApiRequest::PlaybackState { .. } => seq![ApiCall::PlaybackState],
        ApiRequest::Queue => seq![ApiCall::Queue],
        ApiRequest::RecentlyPlayed { .. } => seq![ApiCall::RecentlyPlayed { limit: 50 }],
        ApiRequest::TopTracks { offset, full, .. } => seq![ApiCall::TopTracks {
            range: TimeRange::ShortTerm,
            limit: if full { 50 } else { 20 },
            offset,
        }],
        ApiRequest::TopArtists { .. } => seq![ApiCall::TopArtists { range: TimeRange::MediumTerm, limit: 20 }],
        ApiRequest::Recommendations { seed_tracks, seed_artists, .. } => seq![ApiCall::Recommendations {
            seed_tracks,
            seed_artists,
            limit: 20,
        }],
        ApiRequest::Discover { term, .. } => seq![ApiCall::Search { query: term, scope: SearchScope::Playlists }],
        ApiRequest::MyPlaylists { offset } => seq![ApiCall::MyPlaylists { offset, limit: 50 }],
        ApiRequest::Playlist { id, .. } => seq![ApiCall::Playlist { id }],
        ApiRequest::PlaylistItems { id, offset, .. } => seq![ApiCall::PlaylistItems { id, offset, limit: PLAYLIST_PAGE_SIZE }],
        ApiRequest::PlaylistSample { id, offset, .. } => seq![ApiCall::PlaylistItems { id, offset, limit: PLAYLIST_PAGE_SIZE }],
        ApiRequest::CreatePlaylist { name, public, description } => seq![ApiCall::CreatePlaylist { name, public, description }],
        ApiRequest::UpdatePlaylist { id, name, description, public } => seq![ApiCall::UpdatePlaylist { id, name, description, public }],
        ApiRequest::AddToPlaylist { playlist_id, uris, .. } => seq![ApiCall::AddPlaylistItems { playlist_id, uris, position: None }],
        ApiRequest::RemoveFromPlaylist { playlist_id, uris, snapshot_id } => seq![ApiCall::RemovePlaylistItems {
            playlist_id,
            uris,
            snapshot_id,
        }],
        ApiRequest::ReorderPlaylist { playlist_id, range_start, insert_before, snapshot_id } => seq![ApiCall::ReorderPlaylist {
            playlist_id,
            range_start,
            insert_before,
            snapshot_id,
        }],
        ApiRequest::FollowPlaylist { id, follow } => if follow {
            seq![ApiCall::FollowPlaylist { id }]
        } else {
            seq![ApiCall::UnfollowPlaylist { id }]
        },
        ApiRequest::SavedTracks { offset } => seq![ApiCall::SavedTracks { offset, limit: 50 }],
        ApiRequest::SavedAlbums { offset } => seq![ApiCall::SavedAlbums { offset, limit: 50 }],
        ApiRequest::FollowedArtists { after } => seq![ApiCall::FollowedArtists { after, limit: 50 }],
        ApiRequest::SavedShows { offset } => seq![ApiCall::SavedShows { offset, limit: 50 }],
        ApiRequest::SavedEpisodes { offset } => seq![ApiCall::SavedEpisodes { offset, limit: 50 }],
        ApiRequest::SetSaved { uris, saved } => if saved {
            seq![ApiCall::Save { uris }]
        } else {
            seq![ApiCall::Unsave { uris }]
        },
        ApiRequest::Contains { uris } => seq![ApiCall::Contains { uris }],
        ApiRequest::Search { query, .. } => seq![ApiCall::Search { query, scope: SearchScope::Everything }],
        ApiRequest::Artist { id } => seq![ApiCall::Artist { id }],
        ApiRequest::ArtistTopTracks { id } => seq![ApiCall::ArtistTopTracks { id }],
        ApiRequest::ArtistAlbums { id, groups, offset } => seq![ApiCall::ArtistAlbums { id, groups, offset, limit: 50 }],
        ApiRequest::RelatedArtists { id } => seq![ApiCall::RelatedArtists { id }],
        ApiRequest::Album { id } => seq![ApiCall::Album { id }],
        ApiRequest::AlbumTracks { id, offset } => seq![ApiCall::AlbumTracks { id, offset, limit: 50 }],
        ApiRequest::Show { id } => seq![ApiCall::Show { id }],
        ApiRequest::ShowEpisodes { id, offset } => seq![ApiCall::ShowEpisodes { id, offset, limit: 50 }],
        ApiRequest::Track { id } => seq![ApiCall::Track { id }],
        ApiRequest::Remote { action, device_id, play, position_ms, percent, flag, repeat } => seq![remote_call(
            action,
            device_id,
            play,
            position_ms,
            percent,
            flag,
            repeat,
        )],
        ApiRequest::ShufflePlay { device_id, play } => seq![
            ApiCall::SetShuffle { on: true, device_id },
            ApiCall::Play { device_id, play: Some(play) },
        ],
        ApiRequest::Transfer { device_id, play } => seq![ApiCall::Transfer { device_id, play }],
        ApiRequest::AddToQueue { uri, device_id, .. } => seq![ApiCall::AddToQueue { uri, device_id }],
    }
}

/// Whether two play requests agree, their lists by contents.
pub open spec fn same_play(a: PlayRequest, b: PlayRequest) -> bool {
    a.context_uri == b.context_uri && a.uris@ == b.uris@ && a.offset == b.offset && a.position_ms == b.position_ms
}

/// Whether two calls are the same call with the same arguments, their
/// lists compared by contents.
pub open spec fn same_call(a: ApiCall, b: ApiCall) -> bool {
    match (a, b) {
        (
            ApiCall::Recommendations { seed_tracks: t1, seed_artists: a1, limit: l1 },
            ApiCall::Recommendations { seed_tracks: t2, seed_artists: a2, limit: l2 },
        ) => t1@ == t2@ && a1@ == a2@ && l1 == l2,
        (
            ApiCall::AddPlaylistItems { playlist_id: p1, uris: u1, position: n1 },
            ApiCall::AddPlaylistItems { playlist_id: p2, uris: u2, position: n2 },
        ) => p1 == p2 && u1@ == u2@ && n1 == n2,
        (
            ApiCall::RemovePlaylistItems { playlist_id: p1, uris: u1, snapshot_id: s1 },
            ApiCall::RemovePlaylistItems { playlist_id: p2, uris: u2, snapshot_id: s2 },
        ) => p1 == p2 && u1@ == u2@ && s1 == s2,
        (ApiCall::Save { uris: u1 }, ApiCall::Save { uris: u2 }) => u1@ == u2@,
        (ApiCall::Unsave { uris: u1 }, ApiCall::Unsave { uris: u2 }) => u1@ == u2@,
        (ApiCall::Contains { uris: u1 }, ApiCall::Contains { uris: u2 }) => u1@ == u2@,
        (ApiCall::Play { device_id: d1, play: p1 }, ApiCall::Play { device_id: d2, play: p2 }) => d1 == d2 && match (p1, p2) {
            (Some(x), Some(y)) => same_play(x, y),
            (None, None) => true,
            _ => false,
        },
        _ => a == b,
    }
}

/// Whether `calls` are `expected`, call by call.
pub open spec fn same_calls(calls: Seq<ApiCall>, expected: Seq<ApiCall>) -> bool {
    calls.len() == expected.len() && forall|i: int| 0 <= i < calls.len() ==> same_call(#[trigger] calls[i], expected[i])
}

/// A copy of `s`.
fn copy_text(s: &String) -> (r: String)
    ensures
        r == *s,
{
    s.clone()
}

/// A copy of `s`.
fn copy_optional_text(s: &Option<String>) -> (r: Option<String>)
    ensures
        r == *s,
{
    match s {
        Some(text) => Some(text.clone()),
        None => None,
    }
}

/// A copy of `v`.
fn copy_texts(v: &Vec<String>) -> (r: Vec<String>)
    ensures
        r@ == v@,
{
    let mut r: Vec<String> = Vec::new();
    let mut i: usize = 0;
    while i < v.len()
        invariant
            i <= v@.len(),
            r@ == v@.take(i as int),
        decreases v@.len() - i,
    {
        r.push(v[i].clone());
        assert(v@.take(i + 1) == v@.take(i as int).push(v@[i as int]));
        i = i + 1;
    }
    assert(v@.take(v@.len() as int) == v@);
    r
}

/// A copy of `p`.
fn copy_play(p: &PlayRequest) -> (r: PlayRequest)
    ensures
        same_play(r, *p),
{
    PlayRequest {
        context_uri: copy_optional_text(&p.context_uri),
        uris: copy_texts(&p.uris),
        offset: p.offset,
        position_ms: p.position_ms,
    }
}

/// A copy of `p`.
fn copy_optional_play(p: &Option<PlayRequest>) -> (r: Option<PlayRequest>)
    ensures
        r is Some <==> p is Some,
        r is Some ==> same_play(r->0, p->0),
{
    match p {
        Some(play) => Some(copy_play(play)),
        None => None,
    }
}

/// The client calls that answer `request`, in order, each made only once
/// the one before it succeeded.
pub fn api_calls(request: &ApiRequest) -> (r: Vec<ApiCall>)
    ensures
        same_calls(r@, calls_of(*request)),
{
    let one = match request {
        ApiRequest::Me => ApiCall::Me,
        ApiRequest::Devices => ApiCall::Devices,
        ApiRequest::PlaybackState { .. } => ApiCall::PlaybackState,
        ApiRequest::Queue => ApiCall::Queue,
        ApiRequest::RecentlyPlayed { .. } => ApiCall::RecentlyPlayed { limit: 50 },
        ApiRequest::TopTracks { offset, full, .. } => ApiCall::TopTracks {
            range: TimeRange::ShortTerm,
            limit: if *full { 50 } else { 20 },
            offset: *offset,
        },
        ApiRequest::TopArtists { .. } => ApiCall::TopArtists { range: TimeRange::MediumTerm, limit: 20 },
        ApiRequest::Recommendations { seed_tracks, seed_artists, .. } => ApiCall::Recommendations {
            seed_tracks: copy_texts(seed_tracks),
            seed_artists: copy_texts(seed_artists),
            limit: 20,
        },
        ApiRequest::Discover { term, .. } => ApiCall::Search { query: copy_text(term), scope: SearchScope::Playlists },
        ApiRequest::MyPlaylists { offset } => ApiCall::MyPlaylists { offset: *offset, limit: 50 },
        ApiRequest::Playlist { id, .. } => ApiCall::Playlist { id: copy_text(id) },
        ApiRequest::PlaylistItems { id, offset, .. } => ApiCall::PlaylistItems {
            id: copy_text(id),
            offset: *offset,
            limit: PLAYLIST_PAGE_SIZE,
        },
        ApiRequest::PlaylistSample { id, offset, .. } => ApiCall::PlaylistItems {
            id: copy_text(id),
            offset: *offset,
            limit: PLAYLIST_PAGE_SIZE,
        },
        ApiRequest::CreatePlaylist { name, public, description } => ApiCall::CreatePlaylist {
            name: copy_text(name),
            public: *public,
            description: copy_text(description),
        },
        ApiRequest::UpdatePlaylist { id, name, description, public } => ApiCall::UpdatePlaylist {
            id: copy_text(id),
            name: copy_optional_text(name),
            description: copy_optional_text(description),
            public: *public,
        },
        ApiRequest::AddToPlaylist { playlist_id, uris, .. } => ApiCall::AddPlaylistItems {
            playlist_id: copy_text(playlist_id),
            uris: copy_texts(uris),
            position: None,
        },
        ApiRequest::RemoveFromPlaylist { playlist_id, uris, snapshot_id } => ApiCall::RemovePlaylistItems {
            playlist_id: copy_text(playlist_id),
            uris: copy_texts(uris),
            snapshot_id: copy_optional_text(snapshot_id),
        },
        ApiRequest::ReorderPlaylist { playlist_id, range_start, insert_before, snapshot_id } => ApiCall::ReorderPlaylist {
            playlist_id: copy_text(playlist_id),
            range_start: *range_start,
            insert_before: *insert_before,
            snapshot_id: copy_optional_text(snapshot_id),
        },
        ApiRequest::FollowPlaylist { id, follow } => if *follow {
            ApiCall::FollowPlaylist { id: copy_text(id) }
        } else {
            ApiCall::UnfollowPlaylist { id: copy_text(id) }
        },
        ApiRequest::SavedTracks { offset } => ApiCall::SavedTracks { offset: *offset, limit: 50 },
        ApiRequest::SavedAlbums { offset } => ApiCall::SavedAlbums { offset: *offset, limit: 50 },
        ApiRequest::FollowedArtists { after } => ApiCall::FollowedArtists { after: copy_optional_text(after), limit: 50 },
        ApiRequest::SavedShows { offset } => ApiCall::SavedShows { offset: *offset, limit: 50 },
        ApiRequest::SavedEpisodes { offset } => ApiCall::SavedEpisodes { offset: *offset, limit: 50 },
        ApiRequest::SetSaved { uris, saved } => if *saved {
            ApiCall::Save { uris: copy_texts(uris) }
        } else {
            ApiCall::Unsave { uris: copy_texts(uris) }
        },
        ApiRequest::Contains { uris } => ApiCall::Contains { uris: copy_texts(uris) },
        ApiRequest::Search { query, .. } => ApiCall::Search { query: copy_text(query), scope: SearchScope::Everything },
        ApiRequest::Artist { id } => ApiCall::Artist { id: copy_text(id) },
        ApiRequest::ArtistTopTracks { id } => ApiCall::ArtistTopTracks { id: copy_text(id) },
        ApiRequest::ArtistAlbums { id, groups, offset } => ApiCall::ArtistAlbums {
            id: copy_text(id),
            groups: copy_text(groups),
            offset: *offset,
            limit: 50,
        },
        ApiRequest::RelatedArtists { id } => ApiCall::RelatedArtists { id: copy_text(id) },
        ApiRequest::Album { id } => ApiCall::Album { id: copy_text(id) },
        ApiRequest::AlbumTracks { id, offset } => ApiCall::AlbumTracks { id: copy_text(id), offset: *offset, limit: 50 },
        ApiRequest::Show { id } => ApiCall::Show { id: copy_text(id) },
        ApiRequest::ShowEpisodes { id, offset } => ApiCall::ShowEpisodes { id: copy_text(id), offset: *offset, limit: 50 },
        ApiRequest::Track { id } => ApiCall::Track { id: copy_text(id) },
        ApiRequest::Remote { action, device_id, play, position_ms, percent, flag, repeat } => {
            let device_id = copy_optional_text(device_id);
            match action {
                RemoteAction::Play => ApiCall::Play { device_id, play: copy_optional_play(play) },
                RemoteAction::Pause => ApiCall::Pause { device_id },
                RemoteAction::Next => ApiCall::Next { device_id },
                RemoteAction::Previous => ApiCall::Previous { device_id },
                RemoteAction::Seek => ApiCall::Seek { position_ms: *position_ms, device_id },
                RemoteAction::Volume => ApiCall::SetVolume { percent: *percent, device_id },
                RemoteAction::Shuffle => ApiCall::SetShuffle { on: *flag, device_id },
                RemoteAction::Repeat => ApiCall::SetRepeat { state: copy_text(repeat), device_id },
            }
        },
        ApiRequest::ShufflePlay { device_id, play } => {
            let first = ApiCall::SetShuffle { on: true, device_id: copy_optional_text(device_id) };
            let second = ApiCall::Play { device_id: copy_optional_text(device_id), play: Some(copy_play(play)) };
            let r = vec![first, second];
            assert(same_call(r@[0], calls_of(*request)[0]));
            assert(same_call(r@[1], calls_of(*request)[1]));
            return r;
        },
        ApiRequest::Transfer { device_id, play } => ApiCall::Transfer { device_id: copy_text(device_id), play: *play },
        ApiRequest::AddToQueue { uri, device_id, .. } => ApiCall::AddToQueue {
            uri: copy_text(uri),
            device_id: copy_optional_text(device_id),
        },
    };
    assert(same_call(one, calls_of(*request)[0]));
    let r = vec![one];
    assert(r@[0] == one);
    r
}

/// The sign-in a failure says has expired, if it says so.
pub fn expired_source(error: &ApiError) -> (r: Option<ApiSource>)
    ensures
        match *error {
            ApiError::SignInExpired { api_source } => r == Some(api_source),
            _ => r is None,
        },
{
    match error {
        ApiError::SignInExpired { api_source } => Some(*api_source),
        _ => None,
    }
}

/// What the recommendations shelf shows for a result: a failure that
/// only says the endpoint is gone hides the shelf (an empty list); any
/// other failure stays an error.
pub fn recommendations_outcome<T>(result: Result<Vec<T>, ApiError>) -> (r: Result<Vec<T>, ApiError>)
    ensures
        match result {
            Ok(items) => r == Ok::<Vec<T>, ApiError>(items),
            Err(error) => if error.status_of() == Some(403u16) || error.status_of() == Some(404u16)
                || error.status_of() == Some(410u16) {
                r is Ok && r->Ok_0@.len() == 0
            } else {
                r == Err::<Vec<T>, ApiError>(error)
            },
        },
{
    match result {
        Ok(items) => Ok(items),
        Err(error) => {
            if crate::backend::recommendations_unavailable(&error) {
                Ok(Vec::new())
            } else {
                Err(error)
            }
        },
    }
}

/// Whether a failure of `request` means the app no longer has the access
/// to its playlist that it thought it had.
pub open spec fn forgets_access(request: ApiRequest, error: ApiError) -> bool {
    &&& error.status_of() == Some(403u16)
    &&& match request {
        ApiRequest::UpdatePlaylist { .. } => true,
        ApiRequest::AddToPlaylist { .. } => true,
        ApiRequest::RemoveFromPlaylist { .. } => true,
        ApiRequest::ReorderPlaylist { .. } => true,
        ApiRequest::PlaylistItems { .. } => true,
        ApiRequest::PlaylistSample { .. } => true,
        ApiRequest::FollowPlaylist { .. } => true,
        _ => false,
    }
}

/// The playlist whose remembered access a failure of `request` revokes:
/// a 403 on changing, reading the items of, or following a playlist.
/// Reading the playlist itself revokes nothing.
pub fn playlist_access_lost(request: &ApiRequest, error: &ApiError) -> (r: Option<String>)
    ensures
        forgets_access(*request, *error) ==> r is Some && Some(r->0@) == crate::backend::playlist_subject(*request),
        !forgets_access(*request, *error) ==> r is None,
{
    if error.status() != Some(403u16) {
        return None;
    }
    match request {
        ApiRequest::UpdatePlaylist { id, .. } | ApiRequest::PlaylistItems { id, .. }
        | ApiRequest::PlaylistSample { id, .. } | ApiRequest::FollowPlaylist { id, .. } => Some(copy_text(id)),
        ApiRequest::AddToPlaylist { playlist_id, .. } | ApiRequest::RemoveFromPlaylist { playlist_id, .. }
        | ApiRequest::ReorderPlaylist { playlist_id, .. } => Some(copy_text(playlist_id)),
        _ => None,
    }
}

/// The note a change to a playlist's items is answered with: the name of
/// the playlist added to, a plain note for a removal, none for a move.
pub open spec fn change_note(request: ApiRequest) -> Option<Seq<char>> {
    match request {
        ApiRequest::AddToPlaylist { playlist_name, .. } => Some("Added to "@ + playlist_name@),
        ApiRequest::RemoveFromPlaylist { .. } => Some("Removed from playlist"@),
        ApiRequest::ReorderPlaylist { .. } => Some(seq![]),
        _ => None,
    }
}

/// The note a change to a playlist's items is answered with, for the
/// requests that change them.
pub fn items_changed_message(request: &ApiRequest) -> (r: Option<String>)
    ensures
        r is Some <==> change_note(*request) is Some,
        r is Some ==> r->0@ == change_note(*request)->0,
{
    match request {
        ApiRequest::AddToPlaylist { playlist_name, .. } => {
            let mut note = String::from_str("Added to ");
            proof {
                reveal_strlit("Added to ");
            }
            note.append(playlist_name.as_str());
            Some(note)
        },
        ApiRequest::RemoveFromPlaylist { .. } => Some(String::from_str("Removed from playlist")),
        ApiRequest::ReorderPlaylist { .. } => {
            let note = String::new();
            Some(note)
        },
        _ => None,
    }
}

/// What follows one call of a request's sequence.
pub enum CallStep<T> {
    /// Make the call at this position next.
    Next(usize),
    /// The request is answered: with the last call's result, or with the
    /// first failure.
    Finished(Result<T, ApiError>),
}

/// What follows the call at position `done` of a request's `count` calls,
/// once it came back with `outcome`: a failure ends the request and no
/// later call is made; a success moves on to the next call, and the last
/// one's result answers the request. A shuffled start therefore plays only
/// once shuffle is on.
pub fn after_call<T>(count: usize, done: usize, outcome: Result<T, ApiError>) -> (r: CallStep<T>)
    requires
        done < count,
    ensures
        match outcome {
            Err(e) => r == CallStep::Finished(Err::<T, ApiError>(e)),
            Ok(value) => if done + 1 < count {
                r == CallStep::<T>::Next((done + 1) as usize)
            } else {
                r == CallStep::Finished(Ok::<T, ApiError>(value))
            },
        },
{
    match outcome {
        Err(e) => CallStep::Finished(Err(e)),
        Ok(value) => {
            if done + 1 < count {
                CallStep::Next(done + 1)
            } else {
                CallStep::Finished(Ok(value))
            }
        },
    }
}

/// What the gateway learns of playlists from a request's outcome.
#[derive(Clone, Debug)]
pub enum PlaylistNote {
    /// The answer lists playlists: the gateway notes who owns them.
    Learn,
    /// The app no longer has the access it thought to this playlist.
    Forget(String),
    /// Nothing about playlists.
    Nothing,
}

/// Whether a successful answer to `request` lists playlists the gateway
/// learns from: Discover, the library's playlists, one playlist, a new
/// playlist, and a search (when it found playlists).
pub open spec fn lists_playlists(request: ApiRequest) -> bool {
    match request {
        ApiRequest::Discover { .. } => true,
        ApiRequest::MyPlaylists { .. } => true,
        ApiRequest::Playlist { .. } => true,
        ApiRequest::CreatePlaylist { .. } => true,
        ApiRequest::Search { .. } => true,
        _ => false,
    }
}

/// What the gateway learns from the outcome of `request`: `failure` is its
/// error, `None` when it succeeded. Answers that list playlists teach it
/// their owners; a forbidden change, item read or follow revokes the
/// playlist's access; anything else teaches nothing.
pub fn playlist_observation(request: &ApiRequest, failure: Option<&ApiError>) -> (r: PlaylistNote)
    ensures
        match failure {
            None => if lists_playlists(*request) { r is Learn } else { r is Nothing },
            Some(error) => if forgets_access(*request, *error) {
                r matches PlaylistNote::Forget(id) && Some(id@) == crate::backend::playlist_subject(*request)
            } else {
                r is Nothing
            },
        },
{
    match failure {
        None => match request {
            ApiRequest::Discover { .. } | ApiRequest::MyPlaylists { .. } | ApiRequest::Playlist { .. }
            | ApiRequest::CreatePlaylist { .. } | ApiRequest::Search { .. } => PlaylistNote::Learn,
            _ => PlaylistNote::Nothing,
        },
        Some(error) => match playlist_access_lost(request, error) {
            Some(id) => PlaylistNote::Forget(id),
            None => PlaylistNote::Nothing,
        },
    }
}


/// Toggles ask for the state they name: saving or unsaving items is one
/// call over exactly the items asked about, a save when `saved` is true and
/// an unsave when it is false; following or unfollowing a playlist is one
/// call for exactly that playlist, the same way round.
pub proof fn lemma_toggles_ask_for_their_state(uris: Vec<String>, saved: bool, id: String, follow: bool)
    ensures
        calls_of((ApiRequest::SetSaved { uris, saved })).len() == 1,
        saved ==> calls_of((ApiRequest::SetSaved { uris, saved }))[0] == (ApiCall::Save { uris }),
        !saved ==> calls_of((ApiRequest::SetSaved { uris, saved }))[0] == (ApiCall::Unsave { uris }),
        calls_of((ApiRequest::FollowPlaylist { id, follow })).len() == 1,
        follow ==> calls_of((ApiRequest::FollowPlaylist { id, follow }))[0] == (ApiCall::FollowPlaylist { id }),
        !follow ==> calls_of((ApiRequest::FollowPlaylist { id, follow }))[0] == (ApiCall::UnfollowPlaylist { id }),
{
}


/// A remote-control request is one call, for exactly the device asked
/// about, that does what its action names: play what was asked, pause,
/// skip on or back, seek to the position, set the volume, shuffle or
/// repeat as asked.
pub proof fn lemma_remote_does_what_it_names(
    action: RemoteAction,
    device_id: Option<String>,
    play: Option<PlayRequest>,
    position_ms: u32,
    percent: u8,
    flag: bool,
    repeat: String,
)
    ensures
        ({
            let calls = calls_of((ApiRequest::Remote { action, device_id, play, position_ms, percent, flag, repeat }));
            &&& calls.len() == 1
            &&& action == RemoteAction::Play ==> calls[0] == (ApiCall::Play { device_id, play })
            &&& action == RemoteAction::Pause ==> calls[0] == (ApiCall::Pause { device_id })
            &&& action == RemoteAction::Next ==> calls[0] == (ApiCall::Next { device_id })
            &&& action == RemoteAction::Previous ==> calls[0] == (ApiCall::Previous { device_id })
            &&& action == RemoteAction::Seek ==> calls[0] == (ApiCall::Seek { position_ms, device_id })
            &&& action == RemoteAction::Volume ==> calls[0] == (ApiCall::SetVolume { percent, device_id })
            &&& action == RemoteAction::Shuffle ==> calls[0] == (ApiCall::SetShuffle { on: flag, device_id })
            &&& action == RemoteAction::Repeat ==> calls[0] == (ApiCall::SetRepeat { state: repeat, device_id })
        }),
{
}

/// A shuffled start is two calls on the same device: shuffle turned on
/// first, then the start of what was asked.
pub proof fn lemma_shuffle_comes_first(device_id: Option<String>, play: PlayRequest)
    ensures
        calls_of((ApiRequest::ShufflePlay { device_id, play })) == seq![
            ApiCall::SetShuffle { on: true, device_id },
            ApiCall::Play { device_id, play: Some(play) },
        ],
{
}

} // verus!
