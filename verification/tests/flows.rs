//! The backend's flows: Web API calls, sign-in and playback gates, the
//! order of lookups, artwork, and the resampler's schedule.

use woofer::art::{cache_file_name, cached_artwork, download_verdict, is_art_uri, is_stale, load_step, ArtLoad, ArtState, MAX_ART_BYTES};
use woofer::backend::{ApiError, ApiRequest, ApiSource, AuthStatus, LocalPlayback, PlayRequest, RemoteAction, Translation, PREMIUM_NEEDED};
use woofer::backend::{sends, CommandKind};
use woofer::calls::{
    after_call, playlist_observation, CallStep, PlaylistNote,
    api_calls, expired_source, items_changed_message, playlist_access_lost, recommendations_outcome, ApiCall, SearchScope,
    TimeRange, PLAYLIST_PAGE_SIZE,
};
use woofer::chains::ProviderKind;
use woofer::lookup::{AidsAsk, AidsFlow, AidsStep, LyricsAsk, LyricsFlow, LyricsStep};
use woofer::resample::{gcd, rate_ratio, ResampleCursor, Window, PRIMED_FRAMES, TAPS};
use woofer::session::{
    engine_failure, expiry_notice, next_retry_wait, personal_token_usable, playback_grant_failure, premium_of,
    premium_refusal, restored_status, shows_auth_failure, sign_in_failure_note, verification_accepted,
    verification_failure, verification_gives_up, FlowEnd, PlaybackStep, ReconnectLog, SessionGate,
};

fn status(code: u16) -> ApiError {
    ApiError::Status { status: code, message: String::new() }
}

#[test]
fn home_shelves_ask_for_their_own_sizes() {
    let calls = api_calls(&ApiRequest::TopTracks { offset: 20, full: false, generation: 1 });
    assert!(matches!(calls.as_slice(), [ApiCall::TopTracks { range: TimeRange::ShortTerm, limit: 20, offset: 20 }]));
    let calls = api_calls(&ApiRequest::TopTracks { offset: 0, full: true, generation: 1 });
    assert!(matches!(calls.as_slice(), [ApiCall::TopTracks { limit: 50, .. }]));
    let calls = api_calls(&ApiRequest::TopArtists { generation: 1 });
    assert!(matches!(calls.as_slice(), [ApiCall::TopArtists { range: TimeRange::MediumTerm, limit: 20 }]));
    let calls = api_calls(&ApiRequest::RecentlyPlayed { generation: 1 });
    assert!(matches!(calls.as_slice(), [ApiCall::RecentlyPlayed { limit: 50 }]));
    assert_eq!(TimeRange::ShortTerm.id(), "short_term");
    assert_eq!(TimeRange::MediumTerm.id(), "medium_term");
}

#[test]
fn searches_name_what_they_look_for() {
    let calls = api_calls(&ApiRequest::Discover { term: "jazz".to_string(), generation: 2 });
    match calls.as_slice() {
        [ApiCall::Search { query, scope: SearchScope::Playlists }] => assert_eq!(query, "jazz"),
        other => panic!("unexpected {other:?}"),
    }
    assert_eq!(SearchScope::Playlists.types(), vec!["playlist"]);
    assert_eq!(SearchScope::Everything.types(), vec!["track", "artist", "album", "playlist", "show", "episode"]);
}

#[test]
fn playlist_pages_and_samples_read_the_same_page_size() {
    let items = api_calls(&ApiRequest::PlaylistItems { id: "p".to_string(), offset: 100, generation: 1 });
    let sample = api_calls(&ApiRequest::PlaylistSample { id: "p".to_string(), offset: 100, generation: 1 });
    for calls in [items, sample] {
        match calls.as_slice() {
            [ApiCall::PlaylistItems { id, offset: 100, limit }] => {
                assert_eq!(id, "p");
                assert_eq!(*limit, PLAYLIST_PAGE_SIZE);
            }
            other => panic!("unexpected {other:?}"),
        }
    }
}

#[test]
fn toggles_pick_the_call_for_their_state() {
    let follow = api_calls(&ApiRequest::FollowPlaylist { id: "p".to_string(), follow: false });
    assert!(matches!(follow.as_slice(), [ApiCall::UnfollowPlaylist { .. }]));
    let save = api_calls(&ApiRequest::SetSaved { uris: vec!["u".to_string()], saved: true });
    match save.as_slice() {
        [ApiCall::Save { uris }] => assert_eq!(uris, &vec!["u".to_string()]),
        other => panic!("unexpected {other:?}"),
    }
    let volume = api_calls(&ApiRequest::Remote {
        action: RemoteAction::Volume,
        device_id: Some("d".to_string()),
        play: None,
        position_ms: 0,
        percent: 40,
        flag: false,
        repeat: String::new(),
    });
    match volume.as_slice() {
        [ApiCall::SetVolume { percent: 40, device_id: Some(d) }] => assert_eq!(d, "d"),
        other => panic!("unexpected {other:?}"),
    }
}

#[test]
fn a_shuffled_start_turns_shuffle_on_first() {
    let play = PlayRequest { context_uri: Some("spotify:album:1".to_string()), uris: Vec::new(), offset: Some(2), position_ms: 0 };
    let calls = api_calls(&ApiRequest::ShufflePlay { device_id: None, play });
    match calls.as_slice() {
        [ApiCall::SetShuffle { on: true, device_id: None }, ApiCall::Play { device_id: None, play: Some(p) }] => {
            assert_eq!(p.context_uri.as_deref(), Some("spotify:album:1"));
            assert_eq!(p.offset, Some(2));
        }
        other => panic!("unexpected {other:?}"),
    }
}

#[test]
fn failures_say_what_they_mean() {
    assert_eq!(expired_source(&ApiError::SignInExpired { api_source: ApiSource::Personal }), Some(ApiSource::Personal));
    assert_eq!(expired_source(&status(401)), None);
    let hidden: Result<Vec<u8>, ApiError> = recommendations_outcome(Err(status(404)));
    assert_eq!(hidden.unwrap().len(), 0);
    let kept: Result<Vec<u8>, ApiError> = recommendations_outcome(Err(status(500)));
    assert!(matches!(kept, Err(ApiError::Status { status: 500, .. })));
    let fine: Result<Vec<u8>, ApiError> = recommendations_outcome(Ok(vec![1, 2]));
    assert_eq!(fine.unwrap(), vec![1, 2]);
}

#[test]
fn a_forbidden_change_forgets_the_playlist_access() {
    let add = ApiRequest::AddToPlaylist { playlist_id: "p1".to_string(), playlist_name: "Mix".to_string(), uris: Vec::new() };
    assert_eq!(playlist_access_lost(&add, &status(403)), Some("p1".to_string()));
    assert_eq!(playlist_access_lost(&add, &status(404)), None);
    let read = ApiRequest::Playlist { id: "p1".to_string(), generation: 1 };
    assert_eq!(playlist_access_lost(&read, &status(403)), None);
    assert_eq!(items_changed_message(&add), Some("Added to Mix".to_string()));
    let remove = ApiRequest::RemoveFromPlaylist { playlist_id: "p".to_string(), uris: Vec::new(), snapshot_id: None };
    assert_eq!(items_changed_message(&remove), Some("Removed from playlist".to_string()));
    assert_eq!(items_changed_message(&read), None);
}

#[test]
fn one_browser_flow_at_a_time() {
    let mut gate = SessionGate::new(true);
    assert!(gate.may_sign_in(ApiSource::Shared));
    assert!(gate.sign_in_started(ApiSource::Shared));
    assert!(!gate.may_sign_in(ApiSource::Personal));
    assert_eq!(gate.authorize_playback(), PlaybackStep::Ignore);
    // The personal application set up now waits for the shared flow.
    assert_eq!(gate.configure_personal(true), None);
    assert_eq!(gate.flow_ended(ApiSource::Personal), FlowEnd::Ignored);
    assert_eq!(gate.flow_ended(ApiSource::Shared), FlowEnd::Ended { next: Some(ApiSource::Personal) });
    assert!(gate.may_sign_in(ApiSource::Personal));
    assert!(!gate.sign_in_started(ApiSource::Personal));
    assert!(gate.awaits(ApiSource::Personal));
    assert_eq!(gate.cancel_sign_in(), Some(ApiSource::Personal));
    assert!(!gate.browser_open);
}

#[test]
fn a_free_account_never_gets_an_engine() {
    let mut gate = SessionGate::new(false);
    assert!(!gate.may_sign_in(ApiSource::Personal));
    gate.verified(ApiSource::Shared);
    assert!(gate.signed_in && gate.may_reconnect());
    assert!(!gate.account_checked(Some(false)));
    assert_eq!(gate.authorize_playback(), PlaybackStep::NeedsPremium);
    assert_eq!(gate.connect(), PlaybackStep::NeedsPremium);
    assert!(!gate.may_resume());
    // A Premium account goes ahead and connects once.
    let mut gate = SessionGate::new(false);
    assert!(gate.account_checked(Some(true)));
    assert_eq!(gate.authorize_playback(), PlaybackStep::Proceed);
    assert_eq!(gate.connect(), PlaybackStep::Proceed);
    assert_eq!(gate.connect(), PlaybackStep::Ignore);
    gate.connected(true);
    assert!(gate.engine_up && !gate.may_resume());
    gate.sign_out();
    assert!(!gate.engine_up && !gate.signed_in);
}

#[test]
fn the_playback_grant_hands_on_a_waiting_sign_in() {
    let mut gate = SessionGate::new(true);
    assert_eq!(gate.authorize_playback(), PlaybackStep::Proceed);
    assert_eq!(gate.configure_personal(true), None);
    assert_eq!(gate.playback_flow_ended(), Some(ApiSource::Personal));
    assert_eq!(gate.configure_personal(false), None);
    assert!(gate.pending.is_none());
}

#[test]
fn reconnects_are_budgeted_per_ten_minutes() {
    let mut log = ReconnectLog::new();
    for minute in 0..6u64 {
        assert!(log.try_reconnect(minute * 60_000));
    }
    assert!(!log.try_reconnect(6 * 60_000));
    // Ten minutes after the first attempt, it no longer counts.
    assert!(log.try_reconnect(600_000));
    log.clear();
    assert!(log.try_reconnect(600_001));
}

#[test]
fn verification_retries_only_what_may_pass() {
    assert!(verification_gives_up(&ApiError::SignInExpired { api_source: ApiSource::Shared }));
    assert!(verification_gives_up(&status(401)));
    assert!(!verification_gives_up(&status(503)));
    assert_eq!(next_retry_wait(2), 4);
    assert_eq!(next_retry_wait(32), 60);
    assert_eq!(next_retry_wait(60), 60);
    assert_eq!(verification_failure(ApiSource::Shared, "boom"), "Shared Spotify sign-in failed: boom");
    assert_eq!(verification_failure(ApiSource::Personal, "boom"), "Personal app authorization failed: boom");
    assert!(shows_auth_failure(ApiSource::Shared, true));
    assert!(!shows_auth_failure(ApiSource::Personal, true));
    assert!(shows_auth_failure(ApiSource::Personal, false));
}

#[test]
fn sign_ins_are_installed_only_for_the_application_configured() {
    assert!(verification_accepted(ApiSource::Shared, true, None, "any"));
    assert!(!verification_accepted(ApiSource::Shared, false, None, "any"));
    assert!(verification_accepted(ApiSource::Personal, true, Some("cid"), "cid"));
    assert!(!verification_accepted(ApiSource::Personal, true, Some("cid"), "other"));
    assert!(!verification_accepted(ApiSource::Personal, true, None, "cid"));
    assert!(personal_token_usable(Some("cid"), "cid", true));
    assert!(!personal_token_usable(Some("cid"), "cid", false));
    assert_eq!(premium_of(Some("premium")), Some(true));
    assert_eq!(premium_of(Some("free")), Some(false));
    assert_eq!(premium_of(None), None);
}

#[test]
fn notices_read_as_the_interface_shows_them() {
    assert!(expiry_notice(ApiSource::Personal).is_none());
    assert!(matches!(
        expiry_notice(ApiSource::Shared),
        Some(AuthStatus::Failed(m)) if m == "Your Spotify sign-in expired. Please sign in again."
    ));
    assert!(matches!(restored_status(None), AuthStatus::SignedOut));
    assert!(matches!(restored_status(Some(true)), AuthStatus::Connecting));
    assert!(matches!(restored_status(Some(false)), AuthStatus::Failed(m) if m.contains("one more Spotify permission")));
    assert_eq!(sign_in_failure_note("the sign-in was cancelled"), None);
    assert_eq!(sign_in_failure_note("port busy"), Some("Sign-in failed: port busy".to_string()));
    assert!(matches!(playback_grant_failure("cancelled by user"), LocalPlayback::Unavailable));
    assert!(matches!(playback_grant_failure("denied"), LocalPlayback::Failed(m) if m == "denied"));
    assert!(matches!(engine_failure(None), LocalPlayback::Failed(m) if m == "Local playback is unavailable"));
    assert!(matches!(engine_failure(Some("x".to_string())), LocalPlayback::Failed(m) if m == "x"));
    assert!(matches!(premium_refusal(true), Some(LocalPlayback::Failed(m)) if m == PREMIUM_NEEDED));
    assert!(premium_refusal(false).is_none());
}

fn aids(texts: &[Option<&str>]) -> Vec<Option<String>> {
    texts.iter().map(|t| t.map(|s| s.to_string())).collect()
}

#[test]
fn words_come_first_and_no_words_ask_no_spelling() {
    let mut flow = AidsFlow::start();
    assert_eq!(flow.asking, Some(AidsAsk::Chain(ProviderKind::Translate)));
    assert!(matches!(flow.chain_answered(None), AidsStep::Ask(AidsAsk::Builtin(ProviderKind::Translate))));
    assert!(matches!(flow.builtin_answered(Ok(None)), AidsStep::Done(Ok(None))));
    assert_eq!(flow.asking, None);
}

#[test]
fn the_two_halves_are_put_together() {
    let mut flow = AidsFlow::start();
    assert!(matches!(
        flow.chain_answered(Some(aids(&[Some("hola")]))),
        AidsStep::Ask(AidsAsk::Chain(ProviderKind::Romanize))
    ));
    assert!(matches!(flow.chain_answered(None), AidsStep::Ask(AidsAsk::Builtin(ProviderKind::Romanize))));
    let builtin = Translation { translated: aids(&[Some("ignored")]), romanized: aids(&[Some("ola")]) };
    match flow.builtin_answered(Ok(Some(builtin))) {
        AidsStep::Done(Ok(Some(t))) => {
            assert_eq!(t.translated, aids(&[Some("hola")]));
            assert_eq!(t.romanized, aids(&[Some("ola")]));
        }
        _ => panic!("the flow ends with both halves"),
    }
}

#[test]
fn a_missing_spelling_is_empty_and_errors_end_the_flow() {
    let mut flow = AidsFlow::start();
    let builtin = Translation { translated: aids(&[Some("one"), None]), romanized: aids(&[Some("spelled")]) };
    assert!(matches!(flow.chain_answered(None), AidsStep::Ask(_)));
    assert!(matches!(flow.builtin_answered(Ok(Some(builtin))), AidsStep::Ask(AidsAsk::Chain(ProviderKind::Romanize))));
    assert_eq!(flow.translated, aids(&[Some("one"), None]));
    assert!(matches!(flow.chain_answered(None), AidsStep::Ask(AidsAsk::Builtin(ProviderKind::Romanize))));
    match flow.builtin_answered(Ok(None)) {
        AidsStep::Done(Ok(Some(t))) => assert!(t.romanized.is_empty()),
        _ => panic!("an empty spelling"),
    }
    let mut flow = AidsFlow::start();
    assert!(matches!(flow.chain_answered(None), AidsStep::Ask(_)));
    assert!(matches!(flow.builtin_answered(Err("offline".to_string())), AidsStep::Done(Err(e)) if e == "offline"));
}

#[test]
fn spotify_words_come_first_and_the_chain_last() {
    let mut flow = LyricsFlow::start();
    assert!(matches!(flow.spotify_answered(Some("spotify words")), LyricsStep::Done(Ok(Some("spotify words")))));
    let mut flow = LyricsFlow::start();
    assert!(matches!(flow.spotify_answered::<&str>(None), LyricsStep::Ask(LyricsAsk::Lrclib)));
    assert!(matches!(flow.lrclib_answered::<&str>(Ok(None)), LyricsStep::Ask(LyricsAsk::Chain)));
    assert!(matches!(flow.chain_answered(Some("plugin words")), LyricsStep::Done(Ok(Some("plugin words")))));
    let mut flow = LyricsFlow::start();
    assert!(matches!(flow.spotify_answered::<&str>(None), LyricsStep::Ask(_)));
    assert!(matches!(flow.lrclib_answered::<&str>(Err("down".to_string())), LyricsStep::Done(Err(e)) if e == "down"));
}

#[test]
fn artwork_is_cached_under_the_sha1_of_its_address() {
    assert_eq!(cache_file_name("abc"), "a9993e364706816aba3e25717850c26c9cd0d89d");
    assert_eq!(cache_file_name("https://i.scdn.co/image/abc").len(), 40);
    assert!(is_art_uri("https://i.scdn.co/image/abc"));
    assert!(is_art_uri("http://x"));
    assert!(!is_art_uri("file:///tmp/a.png"));
}

#[test]
fn artwork_downloads_and_cache_entries_are_checked() {
    assert_eq!(download_verdict(false, "404 Not Found", 10), Err("artwork request failed: 404 Not Found".to_string()));
    assert_eq!(download_verdict(true, "200 OK", MAX_ART_BYTES + 1), Err("artwork is too large".to_string()));
    assert_eq!(download_verdict(true, "200 OK", MAX_ART_BYTES), Ok(()));
    assert!(!cached_artwork(true, 0));
    assert!(!cached_artwork(false, 10));
    assert!(cached_artwork(true, 10));
    assert!(is_stale(ArtState::Failed));
    assert!(!is_stale(ArtState::Pending));
    assert!(!is_stale(ArtState::Ready { undrawn_nanos: 150_000_000_000 }));
    assert!(is_stale(ArtState::Ready { undrawn_nanos: 150_000_000_001 }));
}

#[test]
fn equal_rates_need_no_converter() {
    assert_eq!(rate_ratio(44_100, 44_100, 2), None);
    assert_eq!(rate_ratio(0, 48_000, 2), None);
    assert_eq!(rate_ratio(44_100, 48_000, 0), None);
    assert_eq!(rate_ratio(44_100, 48_000, 2), Some((160, 147)));
    assert_eq!(rate_ratio(44_100, 22_050, 2), Some((1, 2)));
    assert_eq!(gcd(44_100, 48_000), 300);
    assert_eq!(gcd(7, 0), 7);
}

/// Runs the schedule over a stream cut into `chunks`, and answers every
/// window by its absolute first frame and phase.
fn schedule(up: usize, down: usize, chunks: &[usize]) -> Vec<(usize, usize)> {
    let mut cursor = ResampleCursor::new(up, down);
    let mut buffered = PRIMED_FRAMES;
    let mut dropped = 0;
    let mut out = Vec::new();
    for chunk in chunks {
        buffered += chunk;
        let (windows, keep_from) = cursor.plan(buffered);
        for Window { start, phase } in windows {
            assert!(start + TAPS <= buffered);
            out.push((start + dropped, phase));
        }
        buffered -= keep_from;
        dropped += keep_from;
    }
    out
}

#[test]
fn splitting_input_into_chunks_does_not_change_output() {
    let whole = schedule(160, 147, &[20_000]);
    let pieces = schedule(160, 147, &[14, 200, 3_256, 1_000, 8_000, 7_530]);
    assert_eq!(whole, pieces);
    assert!(!whole.is_empty());
    // Output frame k starts at k * down / up and weighs phase k * down % up.
    for (k, (start, phase)) in whole.iter().enumerate() {
        assert_eq!(*start, k * 147 / 160);
        assert_eq!(*phase, k * 147 % 160);
    }
    let down = schedule(1, 2, &[1_000]);
    assert_eq!(down, schedule(1, 2, &[1, 1, 998]));
    assert_eq!(down.len(), (1_031 - 64) / 2 + 1);
}

#[test]
fn the_loader_answers_by_what_it_has_on_record() {
    assert_eq!(load_step("file:///a.png", None), ArtLoad::NotSupported);
    assert_eq!(load_step("https://x/a.png", None), ArtLoad::Start);
    assert_eq!(load_step("https://x/a.png", Some(ArtState::Pending)), ArtLoad::Pending);
    assert_eq!(load_step("http://x/a.png", Some(ArtState::Failed)), ArtLoad::Failed);
    assert_eq!(load_step("https://x/a.png", Some(ArtState::Ready { undrawn_nanos: 5 })), ArtLoad::Ready);
}

#[test]
fn a_refused_player_command_reads_as_an_error() {
    assert_eq!(woofer::session::playback_error("no device"), "Playback error: no device");
    let mut gate = SessionGate::new(false);
    gate.connected(true);
    gate.engine_down();
    assert!(!gate.engine_up && gate.may_resume());
}

#[test]
fn a_request_stops_at_its_first_failed_call() {
    assert!(matches!(after_call(2, 0, Ok::<(), ApiError>(())), CallStep::Next(1)));
    assert!(matches!(after_call(2, 0, Err::<(), ApiError>(status(403))), CallStep::Finished(Err(ApiError::Status { status: 403, .. }))));
    assert!(matches!(after_call(2, 1, Ok::<u8, ApiError>(7)), CallStep::Finished(Ok(7))));
    assert!(matches!(after_call(1, 0, Ok::<u8, ApiError>(3)), CallStep::Finished(Ok(3))));
}

#[test]
fn the_gateway_learns_and_forgets_playlists() {
    let discover = ApiRequest::Discover { term: "x".to_string(), generation: 1 };
    assert!(matches!(playlist_observation(&discover, None), PlaylistNote::Learn));
    assert!(matches!(playlist_observation(&discover, Some(&status(403))), PlaylistNote::Nothing));
    let follow = ApiRequest::FollowPlaylist { id: "p9".to_string(), follow: true };
    assert!(matches!(playlist_observation(&follow, None), PlaylistNote::Nothing));
    assert!(matches!(playlist_observation(&follow, Some(&status(403))), PlaylistNote::Forget(id) if id == "p9"));
    assert!(matches!(playlist_observation(&ApiRequest::Me, None), PlaylistNote::Nothing));
}

#[test]
fn offline_only_artwork_trust_and_shutdown_leave() {
    assert!(sends(false, CommandKind::Api));
    assert!(!sends(true, CommandKind::Api));
    assert!(!sends(true, CommandKind::SignIn));
    assert!(sends(true, CommandKind::Accent));
    assert!(sends(true, CommandKind::ResetPluginHealth));
    assert!(sends(true, CommandKind::Shutdown));
}

#[test]
fn no_answer_at_all_is_retried() {
    let offline = ApiError::Network { message: "timed out".to_string() };
    assert!(!verification_gives_up(&offline));
    assert_eq!(offline.status(), None);
    assert_eq!(expired_source(&offline), None);
}
