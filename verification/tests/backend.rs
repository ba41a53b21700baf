//! The backend's decisions: which client a request needs, what its
//! failures mean, and the walk down a provider chain.

use woofer::backend::{
    friendly_connect_error, operation_for, recommendations_unavailable, report_plugin_health, spotify_lyrics_file,
    ApiError, ApiRequest, ApiSource, Operation, PluginNotice, PREMIUM_NEEDED,
};
use woofer::chains::{provider_capability, Plugin, ProviderChains, ProviderKind};
use woofer::health::{Answer, ChainWalk, PluginHealth, PluginHealthChange};

/// A listed plugin without a folder behind it, for the pure walks.
fn provider(id: &str, kind: ProviderKind) -> Plugin {
    Plugin {
        id: id.to_string(),
        name: id.to_string(),
        publisher: "kreatzzz".to_string(),
        version: "1.0.0".to_string(),
        homepage: String::new(),
        capabilities: vec![provider_capability(kind)],
        domains: Vec::new(),
        sha256: String::new(),
    }
}

fn chains(translate: &[&str]) -> ProviderChains {
    ProviderChains { translate: translate.iter().map(|id| id.to_string()).collect(), ..ProviderChains::default() }
}

/// Asks a kind's chain in order, the way the backend's walk does, and
/// stops at the first provider holding data.
fn first_provider_data<T>(
    plugins: &Vec<Plugin>,
    held: &ProviderChains,
    kind: ProviderKind,
    health: &mut PluginHealth,
    mut notify: impl FnMut(&Plugin, PluginHealthChange),
    mut ask: impl FnMut(&Plugin) -> Result<Option<T>, String>,
) -> Option<T> {
    let mut walk = ChainWalk::new(plugins, held, kind);
    while let Some(p) = walk.next_provider(plugins, health) {
        let plugin = &plugins[p];
        match ask(plugin) {
            Ok(Some(found)) => {
                let change = walk.answer(plugins, health, Answer::Data);
                notify(plugin, change);
                return Some(found);
            }
            Ok(None) => {
                let change = walk.answer(plugins, health, Answer::Miss);
                notify(plugin, change);
            }
            Err(_) => {
                let change = walk.answer(plugins, health, Answer::Failure);
                notify(plugin, change);
            }
        }
    }
    None
}

#[test]
fn missing_recommendations_endpoint_hides_only_that_optional_shelf() {
    for status in [403, 404, 410] {
        let error = ApiError::Status { status, message: "not available".into() };
        assert!(recommendations_unavailable(&error));
    }
    for status in [400, 429, 500] {
        let error = ApiError::Status { status, message: "request failed".into() };
        assert!(!recommendations_unavailable(&error));
    }
}

#[test]
fn an_expired_sign_in_is_no_missing_shelf() {
    let error = ApiError::SignInExpired { api_source: ApiSource::Shared };
    assert!(!recommendations_unavailable(&error));
    assert_eq!(error.status(), None);
}

#[test]
fn the_chain_stops_at_the_first_provider_holding_data() {
    let plugins = vec![provider("acme", ProviderKind::Translate), provider("deepl", ProviderKind::Translate)];
    let held = chains(&["acme", "deepl"]);
    let mut health = PluginHealth::new();
    let found: Option<String> = first_provider_data(&plugins, &held, ProviderKind::Translate, &mut health, |_, _| {}, |plugin| {
        match plugin.id.as_str() {
            // The first link has nothing for this input.
            "acme" => Ok(None),
            id => Ok(Some(format!("data from {id}"))),
        }
    });
    assert_eq!(found.unwrap(), "data from deepl");
}

#[test]
fn a_failure_moves_the_chain_its_way_down() {
    let plugins = vec![provider("acme", ProviderKind::Translate), provider("deepl", ProviderKind::Translate)];
    let held = chains(&["acme", "deepl"]);
    let mut health = PluginHealth::new();
    let found: Option<String> = first_provider_data(&plugins, &held, ProviderKind::Translate, &mut health, |_, _| {}, |plugin| {
        match plugin.id.as_str() {
            // A trap, a timeout, a refused URL: the same to the walk.
            "acme" => Err("the sandbox ran dry".to_string()),
            id => Ok(Some(format!("data from {id}"))),
        }
    });
    assert_eq!(found.unwrap(), "data from deepl");
}

#[test]
fn three_failures_disable_a_provider_for_the_session() {
    let plugins = vec![provider("acme", ProviderKind::Translate), provider("deepl", ProviderKind::Translate)];
    let held = chains(&["acme", "deepl"]);
    let mut health = PluginHealth::new();
    let mut acme_calls = 0;
    let mut disabled_notifications = 0;
    for _ in 0..3 {
        let found: Option<String> = first_provider_data(
            &plugins,
            &held,
            ProviderKind::Translate,
            &mut health,
            |plugin, change| {
                if plugin.id == "acme" && matches!(change, PluginHealthChange::Disabled(_)) {
                    disabled_notifications += 1;
                }
            },
            |plugin| {
                if plugin.id == "acme" {
                    acme_calls += 1;
                    Err("upstream is down".into())
                } else {
                    Ok(Some("fallback".into()))
                }
            },
        );
        assert_eq!(found.as_deref(), Some("fallback"));
    }
    assert_eq!(acme_calls, 3);
    assert_eq!(disabled_notifications, 1);

    // The disabled plugin is skipped without being asked or counting
    // another failure; the next provider remains deterministic.
    let found: Option<String> = first_provider_data(&plugins, &held, ProviderKind::Translate, &mut health, |_, _| {}, |plugin| {
        if plugin.id == "acme" {
            acme_calls += 1;
            Err("must not run".into())
        } else {
            Ok(Some("fallback".into()))
        }
    });
    assert_eq!(found.as_deref(), Some("fallback"));
    assert_eq!(acme_calls, 3);
}

#[test]
fn a_chain_of_misses_and_failures_answers_none() {
    let plugins = vec![provider("acme", ProviderKind::Translate), provider("deepl", ProviderKind::Translate)];
    let held = chains(&["acme", "deepl"]);
    let mut health = PluginHealth::new();
    let found: Option<String> = first_provider_data(&plugins, &held, ProviderKind::Translate, &mut health, |_, _| {}, |plugin| {
        match plugin.id.as_str() {
            "acme" => Ok(None),
            _ => Err("broken".to_string()),
        }
    });
    assert_eq!(found, None);
}

#[test]
fn an_empty_chain_resolves_to_nothing_and_the_built_ins_answer() {
    // No plugin is in the chain, so the walk resolves to nothing and the
    // built-ins, standing behind the walk, never inside it, would answer.
    let plugins = vec![provider("acme", ProviderKind::Translate)];
    let mut health = PluginHealth::new();
    let found = first_provider_data(&plugins, &ProviderChains::default(), ProviderKind::Translate, &mut health, |_, _| {}, |_| {
        Ok(Some("data".to_string()))
    });
    assert_eq!(found, None);
    // With the plugin seated, the same walk asks it first.
    let held = chains(&["acme"]);
    let mut health = PluginHealth::new();
    let found = first_provider_data(&plugins, &held, ProviderKind::Translate, &mut health, |_, _| {}, |_| {
        Ok(Some("data".to_string()))
    });
    assert_eq!(found.unwrap(), "data");
}

#[test]
fn a_success_after_failures_is_a_recovery() {
    let plugin = provider("acme", ProviderKind::Lyrics);
    let mut health = PluginHealth::new();
    assert_eq!(health.failure(&plugin), PluginHealthChange::Failure(1));
    assert_eq!(health.success(&plugin), PluginHealthChange::Recovered);
    assert_eq!(health.success(&plugin), PluginHealthChange::Unchanged);
    assert_eq!(health.failure(&plugin), PluginHealthChange::Failure(1));
    assert_eq!(health.failure(&plugin), PluginHealthChange::Failure(2));
    assert_eq!(health.failure(&plugin), PluginHealthChange::Disabled(3));
    assert_eq!(health.failure(&plugin), PluginHealthChange::AlreadyDisabled);
    assert!(!health.enabled(&plugin));
    // A fresh install of the same module trusts it again.
    health.reset_identity(&plugin.id, &plugin.sha256);
    assert!(health.enabled(&plugin));
}

#[test]
fn health_follows_the_module_identity() {
    let old = provider("acme", ProviderKind::Lyrics);
    let mut new = provider("acme", ProviderKind::Lyrics);
    new.sha256 = "another build".to_string();
    let mut health = PluginHealth::new();
    for _ in 0..3 {
        health.failure(&old);
    }
    assert!(!health.enabled(&old));
    assert!(health.enabled(&new));
}

#[test]
fn only_disabling_and_recovering_are_news() {
    let plugin = provider("acme", ProviderKind::Translate);
    match report_plugin_health(&plugin, PluginHealthChange::Disabled(3)) {
        Some(PluginNotice::PluginDisabled { id, failures }) => {
            assert_eq!(id, "acme");
            assert_eq!(failures, 3);
        }
        _ => panic!("a disabling is news"),
    }
    match report_plugin_health(&plugin, PluginHealthChange::Recovered) {
        Some(PluginNotice::PluginRecovered { id }) => assert_eq!(id, "acme"),
        _ => panic!("a recovery is news"),
    }
    assert!(report_plugin_health(&plugin, PluginHealthChange::Failure(1)).is_none());
    assert!(report_plugin_health(&plugin, PluginHealthChange::AlreadyDisabled).is_none());
    assert!(report_plugin_health(&plugin, PluginHealthChange::Unchanged).is_none());
}

#[test]
fn connect_errors_read_in_plain_words() {
    assert_eq!(
        friendly_connect_error("Login failed: BadCredentials"),
        "Spotify rejected the saved sign-in. Please sign in again."
    );
    assert_eq!(friendly_connect_error("PREMIUM account required"), PREMIUM_NEEDED);
    assert_eq!(
        friendly_connect_error("failed to lookup address: DNS error"),
        "Couldn't reach Spotify: failed to lookup address: DNS error"
    );
    assert_eq!(friendly_connect_error("something else"), "something else");
}

#[test]
fn only_track_uris_have_spotify_lyrics() {
    assert_eq!(spotify_lyrics_file("spotify:track:4uLU6hMCjMI75M1A2tKUQC"), Some("spotify-4uLU6hMCjMI75M1A2tKUQC.json".to_string()));
    assert_eq!(spotify_lyrics_file("spotify:episode:abc"), None);
}

#[test]
fn requests_pick_their_client_by_what_they_touch() {
    let access = |id: &str| id.len();
    assert!(matches!(operation_for(access, &ApiRequest::Me), Operation::CanonicalAccount));
    assert!(matches!(operation_for(access, &ApiRequest::Queue), Operation::Playback));
    assert!(matches!(operation_for(access, &ApiRequest::SavedTracks { offset: 0 }), Operation::UserData));
    let tracks = ApiRequest::Contains { uris: vec!["spotify:track:1".to_string()] };
    assert!(matches!(operation_for(access, &tracks), Operation::UserData));
    let playlists = ApiRequest::Contains { uris: vec!["spotify:track:1".to_string(), "spotify:playlist:2".to_string()] };
    assert!(matches!(operation_for(access, &playlists), Operation::UnsupportedDevelopmentMode));
    let items = ApiRequest::PlaylistItems { id: "abcd".to_string(), offset: 0, generation: 1 };
    assert!(matches!(operation_for(access, &items), Operation::PlaylistItems(4)));
    let add = ApiRequest::AddToPlaylist { playlist_id: "xyz".to_string(), playlist_name: "Mix".to_string(), uris: Vec::new() };
    assert!(matches!(operation_for(access, &add), Operation::PlaylistMutation(3)));
    assert!(matches!(operation_for(access, &ApiRequest::Track { id: "t".to_string() }), Operation::Catalog));
    assert!(matches!(operation_for(access, &ApiRequest::RelatedArtists { id: "a".to_string() }), Operation::UnsupportedDevelopmentMode));
}

#[test]
fn polling_and_prefetching_wait_their_turn() {
    assert!(ApiRequest::PlaybackState { seq: 1 }.background());
    assert!(ApiRequest::Contains { uris: Vec::new() }.background());
    assert!(!ApiRequest::Me.background());
    assert!(!ApiRequest::Search { query: "x".to_string(), serial: 1 }.background());
}
