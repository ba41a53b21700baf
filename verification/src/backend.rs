//! The requests, statuses and decisions of the backend that bridges the
//! interface and everything asynchronous.

use vstd::prelude::*;
use vstd::string::StringExecFns;
use crate::chains::{Plugin, ProviderChains, ProviderKind};
use crate::health::PluginHealthChange;
use crate::text::{contains_text, is_infix_of, lowercase, lowercase_text, starts_with};

verus! {

/// The Web API sign-in a request goes through.
#[derive(Clone, Copy, Debug, PartialEq, Eq, Structural)]
pub enum ApiSource {
    /// The app's shared client.
    Shared,
    /// The user's personal Web API application.
    Personal,
}

/// How a Web API request failed.
#[derive(Clone, Debug)]
pub enum ApiError {
    /// The server answered with this HTTP status.
    Status { status: u16, message: String },
    /// The sign-in of this source has expired.
    SignInExpired { api_source: ApiSource },
    /// No answer came: the connection failed or timed out.
    Network { message: String },
}

impl ApiError {
    /// The HTTP status the server answered with, when it answered.
    pub open spec fn status_of(self) -> Option<u16> {
        match self {
            ApiError::Status { status, .. } => Some(status),
            ApiError::SignInExpired { .. } => None,
            ApiError::Network { .. } => None,
        }
    }

    /// The HTTP status the server answered with, when it answered.
    pub fn status(&self) -> (r: Option<u16>)
        ensures
            r == self.status_of(),
    {
        match self {
            ApiError::Status { status, .. } => Some(*status),
            ApiError::SignInExpired { .. } => None,
            ApiError::Network { .. } => None,
        }
    }
}

/// Where the Web API sign-in stands.
#[derive(Clone, Debug)]
pub enum AuthStatus {
    Starting,
    SignedOut,
    WaitingForBrowser { url: String },
    Connecting,
    Connected { username: String },
    Failed(String),
}

/// A remote-control action on a Spotify Connect device.
#[derive(Clone, Copy, Debug, PartialEq, Eq, Structural)]
pub enum RemoteAction {
    Play,
    Pause,
    Next,
    Previous,
    Seek,
    Volume,
    Shuffle,
    Repeat,
}

/// What to start playing: a context, or explicit items, from an offset.
#[derive(Clone, Debug)]
pub struct PlayRequest {
    pub context_uri: Option<String>,
    pub uris: Vec<String>,
    pub offset: Option<u32>,
    pub position_ms: u32,
}

/// The state of playback on this computer, independent of Web API sign-in.
#[derive(Clone, Debug)]
pub enum LocalPlayback {
    /// Not authorized; local playback is unavailable but the app still works.
    Unavailable,
    /// The browser is open for the playback grant.
    Authorizing,
    /// Connecting the playback engine.
    Connecting,
    /// This computer is a ready Spotify Connect device.
    Ready { device_id: String },
    Failed(String),
}

/// One Web API request the interface asks the backend to make.
#[derive(Clone, Debug)]
pub enum ApiRequest {
    Me,
    Devices,
    PlaybackState { seq: u64 },
    Queue,
    RecentlyPlayed { generation: u64 },
    TopTracks { offset: u32, full: bool, generation: u64 },
    TopArtists { generation: u64 },
    Recommendations { seed_tracks: Vec<String>, seed_artists: Vec<String>, generation: u64 },
    Discover { term: String, generation: u64 },
    MyPlaylists { offset: u32 },
    Playlist { id: String, generation: u64 },
    PlaylistItems { id: String, offset: u32, generation: u64 },
    /// A slice of a playlist read only for who added its songs; the rows
    /// on screen stay untouched.
    PlaylistSample { id: String, offset: u32, generation: u64 },
    CreatePlaylist { name: String, public: bool, description: String },
    UpdatePlaylist { id: String, name: Option<String>, description: Option<String>, public: Option<bool> },
    AddToPlaylist { playlist_id: String, playlist_name: String, uris: Vec<String> },
    RemoveFromPlaylist { playlist_id: String, uris: Vec<String>, snapshot_id: Option<String> },
    ReorderPlaylist { playlist_id: String, range_start: u32, insert_before: u32, snapshot_id: Option<String> },
    FollowPlaylist { id: String, follow: bool },
    SavedTracks { offset: u32 },
    SavedAlbums { offset: u32 },
    FollowedArtists { after: Option<String> },
    SavedShows { offset: u32 },
    SavedEpisodes { offset: u32 },
    SetSaved { uris: Vec<String>, saved: bool },
    Contains { uris: Vec<String> },
    Search { query: String, serial: u64 },
    Artist { id: String },
    ArtistTopTracks { id: String },
    ArtistAlbums { id: String, groups: String, offset: u32 },
    RelatedArtists { id: String },
    Album { id: String },
    AlbumTracks { id: String, offset: u32 },
    Show { id: String },
    ShowEpisodes { id: String, offset: u32 },
    Track { id: String },
    Remote {
        action: RemoteAction,
        device_id: Option<String>,
        play: Option<PlayRequest>,
        position_ms: u32,
        percent: u8,
        flag: bool,
        repeat: String,
    },
    Transfer { device_id: String, play: bool },
    /// Shuffle on, then start the context, one after the other: sent as two
    /// independent requests they race, and shuffle sometimes lost.
    ShufflePlay { device_id: Option<String>, play: PlayRequest },
    AddToQueue { uri: String, device_id: Option<String>, label: String },
}

/// Whether `request` is background work: polling and prefetching that
/// waits its turn behind what the user asked for.
pub open spec fn is_background(request: ApiRequest) -> bool {
    match request {
        ApiRequest::PlaybackState { .. } => true,
        ApiRequest::RecentlyPlayed { .. } => true,
        ApiRequest::TopTracks { .. } => true,
        ApiRequest::TopArtists { .. } => true,
        ApiRequest::Recommendations { .. } => true,
        ApiRequest::Discover { .. } => true,
        ApiRequest::MyPlaylists { .. } => true,
        ApiRequest::PlaylistSample { .. } => true,
        ApiRequest::Contains { .. } => true,
        _ => false,
    }
}

impl ApiRequest {
    /// Whether this is background work, which waits for one of the few
    /// background permits.
    pub fn background(&self) -> (r: bool)
        ensures
            r == is_background(*self),
    {
        match self {
            ApiRequest::PlaybackState { .. } | ApiRequest::RecentlyPlayed { .. } | ApiRequest::TopTracks { .. }
            | ApiRequest::TopArtists { .. } | ApiRequest::Recommendations { .. } | ApiRequest::Discover { .. }
            | ApiRequest::MyPlaylists { .. } | ApiRequest::PlaylistSample { .. } | ApiRequest::Contains { .. } => true,
            _ => false,
        }
    }
}


/// Which client a request needs, by what it touches. The playlist
/// operations carry what the gateway knows of the playlist's access.
#[derive(Clone, Copy, Debug)]
pub enum Operation<A> {
    CanonicalAccount,
    Playback,
    UserData,
    UnsupportedDevelopmentMode,
    PlaylistLibrary,
    PlaylistCreation,
    PlaylistSearch,
    PlaylistMetadata(A),
    PlaylistItems(A),
    PlaylistMutation(A),
    Catalog,
}

/// The playlist whose access decides a request's operation, if any.
pub open spec fn playlist_subject(request: ApiRequest) -> Option<Seq<char>> {
    match request {
        ApiRequest::Playlist { id, .. } => Some(id@),
        ApiRequest::PlaylistItems { id, .. } => Some(id@),
        ApiRequest::PlaylistSample { id, .. } => Some(id@),
        ApiRequest::UpdatePlaylist { id, .. } => Some(id@),
        ApiRequest::FollowPlaylist { id, .. } => Some(id@),
        ApiRequest::AddToPlaylist { playlist_id, .. } => Some(playlist_id@),
        ApiRequest::RemoveFromPlaylist { playlist_id, .. } => Some(playlist_id@),
        ApiRequest::ReorderPlaylist { playlist_id, .. } => Some(playlist_id@),
        _ => None,
    }
}

/// The prefix of a playlist's URI.
pub open spec fn playlist_uri_prefix() -> Seq<char> {
    "spotify:playlist:"@
}

/// Whether any of `uris` names a playlist.
pub open spec fn names_playlist(uris: Seq<String>) -> bool {
    exists|i: int| 0 <= i < uris.len() && playlist_uri_prefix().is_prefix_of(#[trigger] uris[i]@)
}

/// The operation `request` performs, with `access` standing for what the
/// gateway knows of the subject playlist's access.
pub open spec fn operation_of<A>(request: ApiRequest, access: A) -> Operation<A> {
    match request {
        ApiRequest::Me => Operation::CanonicalAccount,
        ApiRequest::Devices | ApiRequest::PlaybackState { .. } | ApiRequest::Queue | ApiRequest::Remote { .. }
        | ApiRequest::Transfer { .. } | ApiRequest::ShufflePlay { .. } | ApiRequest::AddToQueue { .. } => Operation::Playback,
        ApiRequest::RecentlyPlayed { .. } | ApiRequest::TopTracks { .. } | ApiRequest::TopArtists { .. }
        | ApiRequest::SavedTracks { .. } | ApiRequest::SavedAlbums { .. } | ApiRequest::FollowedArtists { .. }
        | ApiRequest::SavedShows { .. } | ApiRequest::SavedEpisodes { .. } | ApiRequest::SetSaved { .. } => Operation::UserData,
        ApiRequest::Contains { uris } => if names_playlist(uris@) {
            Operation::UnsupportedDevelopmentMode
        } else {
            Operation::UserData
        },
        ApiRequest::MyPlaylists { .. } => Operation::PlaylistLibrary,
        ApiRequest::CreatePlaylist { .. } => Operation::PlaylistCreation,
        ApiRequest::Discover { .. } | ApiRequest::Search { .. } => Operation::PlaylistSearch,
        ApiRequest::Playlist { .. } => Operation::PlaylistMetadata(access),
        ApiRequest::PlaylistItems { .. } | ApiRequest::PlaylistSample { .. } => Operation::PlaylistItems(access),
        ApiRequest::UpdatePlaylist { .. } | ApiRequest::FollowPlaylist { .. } | ApiRequest::AddToPlaylist { .. }
        | ApiRequest::RemoveFromPlaylist { .. } | ApiRequest::ReorderPlaylist { .. } => Operation::PlaylistMutation(access),
        ApiRequest::Recommendations { .. } | ApiRequest::ArtistTopTracks { .. } | ApiRequest::RelatedArtists { .. } => Operation::UnsupportedDevelopmentMode,
        ApiRequest::Artist { .. } | ApiRequest::ArtistAlbums { .. } | ApiRequest::Album { .. }
        | ApiRequest::AlbumTracks { .. } | ApiRequest::Show { .. } | ApiRequest::ShowEpisodes { .. }
        | ApiRequest::Track { .. } => Operation::Catalog,
    }
}

/// Whether any of `uris` names a playlist.
fn any_playlist(uris: &Vec<String>) -> (r: bool)
    ensures
        r == names_playlist(uris@),
{
    let mut i: usize = 0;
    while i < uris.len()
        invariant
            i <= uris@.len(),
            forall|j: int| 0 <= j < i ==> !playlist_uri_prefix().is_prefix_of(#[trigger] uris@[j]@),
        decreases uris@.len() - i,
    {
        if starts_with(uris[i].as_str(), "spotify:playlist:") {
            return true;
        }
        i = i + 1;
    }
    false
}

/// The operation a request performs, which picks the client that may make
/// it. Playlist operations ask `playlist_access` about their playlist, once;
/// Development Mode cannot answer membership for playlists it omits.
pub fn operation_for<A, F>(playlist_access: F, request: &ApiRequest) -> (r: Operation<A>)
    where
        F: FnOnce(&str) -> A,
    requires
        forall|id: &str| #[trigger] playlist_access.requires((id,)),
    ensures
        match playlist_subject(*request) {
            None => forall|a: A| r == #[trigger] operation_of(*request, a),
            Some(id) => exists|s: &str, a: A| s@ == id && #[trigger] playlist_access.ensures((s,), a) && r == operation_of(*request, a),
        },
{
    match request {
        ApiRequest::Me => Operation::CanonicalAccount,
        ApiRequest::Devices | ApiRequest::PlaybackState { .. } | ApiRequest::Queue | ApiRequest::Remote { .. }
        | ApiRequest::Transfer { .. } | ApiRequest::ShufflePlay { .. } | ApiRequest::AddToQueue { .. } => Operation::Playback,
        ApiRequest::RecentlyPlayed { .. } | ApiRequest::TopTracks { .. } | ApiRequest::TopArtists { .. }
        | ApiRequest::SavedTracks { .. } | ApiRequest::SavedAlbums { .. } | ApiRequest::FollowedArtists { .. }
        | ApiRequest::SavedShows { .. } | ApiRequest::SavedEpisodes { .. } | ApiRequest::SetSaved { .. } => Operation::UserData,
        ApiRequest::Contains { uris } => {
            if any_playlist(uris) {
                Operation::UnsupportedDevelopmentMode
            } else {
                Operation::UserData
            }
        },
        ApiRequest::MyPlaylists { .. } => Operation::PlaylistLibrary,
        ApiRequest::CreatePlaylist { .. } => Operation::PlaylistCreation,
        ApiRequest::Discover { .. } | ApiRequest::Search { .. } => Operation::PlaylistSearch,
        ApiRequest::Playlist { id, .. } => {
            let s = id.as_str();
            let a = playlist_access(s);
            assert(playlist_access.ensures((s,), a));
            Operation::PlaylistMetadata(a)
        },
        ApiRequest::PlaylistItems { id, .. } | ApiRequest::PlaylistSample { id, .. } => {
            let s = id.as_str();
            let a = playlist_access(s);
            assert(playlist_access.ensures((s,), a));
            Operation::PlaylistItems(a)
        },
        ApiRequest::UpdatePlaylist { id, .. } | ApiRequest::FollowPlaylist { id, .. } => {
            let s = id.as_str();
            let a = playlist_access(s);
            assert(playlist_access.ensures((s,), a));
            Operation::PlaylistMutation(a)
        },
        ApiRequest::AddToPlaylist { playlist_id, .. } | ApiRequest::RemoveFromPlaylist { playlist_id, .. }
        | ApiRequest::ReorderPlaylist { playlist_id, .. } => {
            let s = playlist_id.as_str();
            let a = playlist_access(s);
            assert(playlist_access.ensures((s,), a));
            Operation::PlaylistMutation(a)
        },
        ApiRequest::Recommendations { .. } | ApiRequest::ArtistTopTracks { .. } | ApiRequest::RelatedArtists { .. } => Operation::UnsupportedDevelopmentMode,
        ApiRequest::Artist { .. } | ApiRequest::ArtistAlbums { .. } | ApiRequest::Album { .. }
        | ApiRequest::AlbumTracks { .. } | ApiRequest::Show { .. } | ApiRequest::ShowEpisodes { .. }
        | ApiRequest::Track { .. } => Operation::Catalog,
    }
}

/// Recommendations are an optional Home shelf: Development Mode apps may
/// be told 403, 404 or 410 because Spotify no longer offers them that
/// endpoint. Those hide the shelf; every other failure stays an error.
pub fn recommendations_unavailable(error: &ApiError) -> (r: bool)
    ensures
        r == (error.status_of() == Some(403u16) || error.status_of() == Some(404u16) || error.status_of() == Some(410u16)),
{
    match error.status() {
        Some(status) => status == 403 || status == 404 || status == 410,
        None => false,
    }
}


/// What local playback tells a Free account.
pub const PREMIUM_NEEDED: &'static str = "Local playback needs Spotify Premium.";

/// The message a failed engine connection shows, from the error's text
/// (`{error:#}`): a rejected sign-in, a Free account and an unreachable
/// Spotify in plain words, anything else as it is.
pub open spec fn connect_error_message(text: Seq<char>) -> Seq<char> {
    let lower = lowercase_text(text);
    if is_infix_of("badcredentials"@, lower) || is_infix_of("bad credentials"@, lower) {
        "Spotify rejected the saved sign-in. Please sign in again."@
    } else if is_infix_of("premium"@, lower) {
        PREMIUM_NEEDED@
    } else if is_infix_of("dns"@, lower) || is_infix_of("connect"@, lower) || is_infix_of("resolve"@, lower) {
        "Couldn't reach Spotify: "@ + text
    } else {
        text
    }
}

/// The message a failed engine connection shows, from the error's text.
pub fn friendly_connect_error(text: &str) -> (r: String)
    ensures
        r@ == connect_error_message(text@),
{
    let lower = lowercase(text);
    let lower = lower.as_str();
    if contains_text(lower, "badcredentials") || contains_text(lower, "bad credentials") {
        String::from_str("Spotify rejected the saved sign-in. Please sign in again.")
    } else if contains_text(lower, "premium") {
        String::from_str(PREMIUM_NEEDED)
    } else if contains_text(lower, "dns") || contains_text(lower, "connect") || contains_text(lower, "resolve") {
        let mut r = String::from_str("Couldn't reach Spotify: ");
        r.append(text);
        r
    } else {
        String::from_str(text)
    }
}

/// The per-line aids for a song: a translation and a Latin spelling per
/// line, `None` where there is nothing to add.
#[derive(Clone, Debug)]
pub struct Translation {
    pub translated: Vec<Option<String>>,
    pub romanized: Vec<Option<String>>,
}

/// The half of an answer the kind asked for: a plugin run produces the
/// whole `Translation` shape, but a translate plugin is believed about
/// words and a romanize plugin about spelling.
pub fn half_of(found: &Translation, kind: ProviderKind) -> (r: Vec<Option<String>>)
    ensures
        kind == ProviderKind::Romanize ==> r@ == found.romanized@,
        kind != ProviderKind::Romanize ==> r@ == found.translated@,
{
    if kind == ProviderKind::Romanize {
        clone_aids(&found.romanized)
    } else {
        clone_aids(&found.translated)
    }
}

/// A copy of per-line aids.
fn clone_aids(aids: &Vec<Option<String>>) -> (r: Vec<Option<String>>)
    ensures
        r@ == aids@,
{
    let mut r: Vec<Option<String>> = Vec::new();
    let mut i: usize = 0;
    while i < aids.len()
        invariant
            i <= aids@.len(),
            r@ == aids@.take(i as int),
        decreases aids@.len() - i,
    {
        let aid = match &aids[i] {
            Some(text) => Some(text.clone()),
            None => None,
        };
        r.push(aid);
        assert(aids@.take(i + 1) == aids@.take(i as int).push(aids@[i as int]));
        i = i + 1;
    }
    assert(aids@.take(aids@.len() as int) == aids@);
    r
}

/// What the interface hears of a provider's health.
#[derive(Clone, Debug)]
pub enum PluginNotice {
    /// The provider failed this many runs in a row and is skipped for the
    /// session; the built-in fallback stays alive.
    PluginDisabled { id: String, failures: u8 },
    /// A provider that was failing answered successfully again.
    PluginRecovered { id: String },
}

/// What the interface is told of a health change: a disabling and a
/// recovery are news; a single failure, an already disabled provider and
/// no change are not.
pub fn report_plugin_health(plugin: &Plugin, change: PluginHealthChange) -> (r: Option<PluginNotice>)
    ensures
        match change {
            PluginHealthChange::Disabled(failures) => r matches Some(PluginNotice::PluginDisabled { id, failures: f })
                && id@ == plugin.id@ && f == failures,
            PluginHealthChange::Recovered => r matches Some(PluginNotice::PluginRecovered { id }) && id@ == plugin.id@,
            _ => r is None,
        },
{
    match change {
        PluginHealthChange::Disabled(failures) => Some(PluginNotice::PluginDisabled { id: plugin.id.clone(), failures }),
        PluginHealthChange::Recovered => Some(PluginNotice::PluginRecovered { id: plugin.id.clone() }),
        _ => None,
    }
}

/// What the lyrics providers are asked about a track: artist, title,
/// album and length, with empty text for what the app does not know.
#[derive(Clone, Debug)]
pub struct LyricsQuery {
    pub artist: String,
    pub title: String,
    pub album: String,
    pub duration_ms: u64,
}

/// A track's words, from the built-in flow and then the lyrics chain
/// behind it.
pub struct LyricsRequest {
    /// The track the answer is for, so a stale one is ignored.
    pub uri: String,
    pub query: LyricsQuery,
    /// The provider plugins each kind asks, in order, so the backend asks
    /// them with the interface's own settings in hand: the backend keeps
    /// no settings of its own.
    pub chains: ProviderChains,
}

/// A track's words in another script and tongue, from each kind's
/// provider chain or, behind it, the built-in translator.
pub struct TranslateRequest {
    /// The track the answer is for, so a stale one is ignored.
    pub uri: String,
    /// The lyric lines, in order.
    pub lines: Vec<String>,
    /// The language code to translate into.
    pub target: String,
    /// The provider plugins each kind asks, in order, with the built-in
    /// engines behind the last link.
    pub chains: ProviderChains,
}

/// The cache file of Spotify's own words for a track, when the URI names
/// a track: `spotify-<id>.json`.
pub fn spotify_lyrics_file(uri: &str) -> (r: Option<String>)
    ensures
        "spotify:track:"@.is_prefix_of(uri@) ==> r is Some && r->0@ == "spotify-"@ + uri@.skip(14) + ".json"@,
        !"spotify:track:"@.is_prefix_of(uri@) ==> r is None,
{
    proof {
        reveal_strlit("spotify:track:");
    }
    match crate::text::strip_prefix(uri, "spotify:track:") {
        Some(id) => {
            let mut name = String::from_str("spotify-");
            name.append(id.as_str());
            name.append(".json");
            Some(name)
        },
        None => None,
    }
}

/// The commands the interface sends the backend, by kind.
#[derive(Clone, Copy, Debug, PartialEq, Eq, Structural)]
pub enum CommandKind {
    SignIn,
    CancelSignIn,
    SignOut,
    AuthorizePlayback,
    RestartEngine,
    Player,
    Api,
    Accent,
    Shutdown,
    WebSignedIn,
    WebVerified,
    SignInEnded,
    PlaybackAuthEnded,
    AccountChecked,
    PlaybackAuthorized,
    EngineConnected,
    Reconnect,
    DiscoverReceivers,
    ActivateReceiver,
    CheckForUpdates,
    Lyrics,
    Translate,
    ResetPluginHealth,
    ConfigurePersonalWebApp,
    LoadPlaylistCache,
    StorePlaylistCache,
    UserNames,
}

/// Whether a command of `kind` still leaves an offline backend: artwork,
/// a provider's fresh trust, and shutting down.
pub open spec fn works_offline(kind: CommandKind) -> bool {
    kind == CommandKind::Accent || kind == CommandKind::ResetPluginHealth || kind == CommandKind::Shutdown
}

/// Whether a command of `kind` is sent on: always online; offline (the
/// demo mode and headless runs) only the few that need no Spotify.
pub fn sends(offline: bool, kind: CommandKind) -> (r: bool)
    ensures
        r == (!offline || works_offline(kind)),
{
    !offline || kind == CommandKind::Accent || kind == CommandKind::ResetPluginHealth || kind == CommandKind::Shutdown
}

} // verus!
