//! Provider chains and the Plugins page built on them.

use woofer::chains::{
    add_to_chain, capability_label, chain_plugins, claims_kind, move_in_chain, provider_capability, provider_rows,
    uninstall, Plugin, ProviderChains, ProviderKind, ProviderRow,
};
use woofer::plugins_page::{builtin_only, install_request, row_buttons, row_notes, RowButton};

fn plugin(id: &str, capabilities: &[&str]) -> Plugin {
    Plugin {
        id: id.to_string(),
        name: id.to_uppercase(),
        publisher: "kreatzzz".to_string(),
        version: "1.2.0".to_string(),
        homepage: String::new(),
        capabilities: capabilities.iter().map(|c| c.to_string()).collect(),
        domains: Vec::new(),
        sha256: String::new(),
    }
}

fn ids(items: &[&str]) -> Vec<String> {
    items.iter().map(|id| id.to_string()).collect()
}

#[test]
fn kinds_have_their_words() {
    assert_eq!(ProviderKind::Lyrics.id(), "lyrics");
    assert_eq!(ProviderKind::from_id("translate"), Some(ProviderKind::Translate));
    assert_eq!(ProviderKind::from_id("spelling"), None);
    assert_eq!(provider_capability(ProviderKind::Romanize), "provider:romanize");
    assert_eq!(capability_label("provider:lyrics"), "lyrics");
    assert_eq!(capability_label("network"), "network");
}

#[test]
fn a_chain_resolves_to_installed_claimants_in_order() {
    let plugins = vec![
        plugin("a", &["provider:translate"]),
        plugin("b", &["provider:lyrics"]),
        plugin("c", &["provider:translate", "provider:romanize"]),
    ];
    assert!(claims_kind(&plugins[2], ProviderKind::Romanize));
    assert!(!claims_kind(&plugins[1], ProviderKind::Romanize));
    // "ghost" is not installed and "b" does not translate: both are passed over.
    let chain = ids(&["c", "ghost", "b", "a"]);
    assert_eq!(chain_plugins(&plugins, &chain, ProviderKind::Translate), vec![2, 0]);
}

#[test]
fn moving_swaps_with_a_neighbour_and_edges_stay_put() {
    let mut chains = ProviderChains { translate: ids(&["a", "b", "c"]), ..ProviderChains::default() };
    assert!(move_in_chain(&mut chains, ProviderKind::Translate, "b", true));
    assert_eq!(chains.translate, ids(&["b", "a", "c"]));
    assert!(!move_in_chain(&mut chains, ProviderKind::Translate, "b", true));
    assert!(move_in_chain(&mut chains, ProviderKind::Translate, "b", false));
    assert_eq!(chains.translate, ids(&["a", "b", "c"]));
    assert!(!move_in_chain(&mut chains, ProviderKind::Translate, "c", false));
    assert!(!move_in_chain(&mut chains, ProviderKind::Translate, "zzz", false));
    assert_eq!(chains.translate, ids(&["a", "b", "c"]));
    assert!(chains.lyrics.is_empty());
}

#[test]
fn adding_takes_the_back_seat_once() {
    let mut chains = ProviderChains { lyrics: ids(&["a"]), ..ProviderChains::default() };
    assert!(add_to_chain(&mut chains, ProviderKind::Lyrics, "b"));
    assert!(!add_to_chain(&mut chains, ProviderKind::Lyrics, "a"));
    assert_eq!(chains.lyrics, ids(&["a", "b"]));
}

#[test]
fn uninstalling_leaves_every_chain() {
    let mut chains = ProviderChains {
        lyrics: ids(&["x", "a"]),
        translate: ids(&["a", "y", "a"]),
        romanize: ids(&["z"]),
    };
    uninstall(&mut chains, "a");
    assert_eq!(chains.lyrics, ids(&["x"]));
    assert_eq!(chains.translate, ids(&["y"]));
    assert_eq!(chains.romanize, ids(&["z"]));
}

#[test]
fn a_section_lists_the_chain_then_the_rest() {
    let plugins = vec![
        plugin("a", &["provider:lyrics"]),
        plugin("b", &["provider:lyrics"]),
        plugin("c", &["provider:translate"]),
        plugin("d", &["provider:lyrics"]),
    ];
    let chains = ProviderChains { lyrics: ids(&["d", "a"]), ..ProviderChains::default() };
    let rows = provider_rows(&plugins, &chains, ProviderKind::Lyrics);
    assert_eq!(
        rows,
        vec![
            ProviderRow { plugin: 3, can_move_up: false, can_move_down: true, outside_chain: false },
            ProviderRow { plugin: 0, can_move_up: true, can_move_down: false, outside_chain: false },
            ProviderRow { plugin: 1, can_move_up: false, can_move_down: false, outside_chain: true },
        ]
    );
    assert!(!builtin_only(&rows));
    let translate = provider_rows(&plugins, &ProviderChains::default(), ProviderKind::Translate);
    assert_eq!(translate, vec![ProviderRow { plugin: 2, can_move_up: false, can_move_down: false, outside_chain: true }]);
    assert!(builtin_only(&translate));
}

#[test]
fn rows_offer_what_their_seat_allows() {
    let seated = ProviderRow { plugin: 0, can_move_up: true, can_move_down: true, outside_chain: false };
    assert_eq!(
        row_buttons(seated, "https://example.org"),
        vec![RowButton::Remove, RowButton::AskLater, RowButton::AskFirst, RowButton::Homepage]
    );
    let last = ProviderRow { plugin: 0, can_move_up: true, can_move_down: false, outside_chain: false };
    assert_eq!(row_buttons(last, ""), vec![RowButton::Remove, RowButton::AskFirst]);
    let outside = ProviderRow { plugin: 0, can_move_up: false, can_move_down: false, outside_chain: true };
    assert_eq!(row_buttons(outside, ""), vec![RowButton::AskLast]);
}

#[test]
fn rows_note_version_state_and_capabilities() {
    let p = plugin("a", &["provider:lyrics", "network"]);
    let notes = row_notes(&p, true);
    assert_eq!(notes.version, "v1.2.0");
    assert!(notes.disabled);
    assert_eq!(notes.chips, ids(&["lyrics", "network"]));
}

#[test]
fn the_install_field_asks_only_for_an_address() {
    assert_eq!(install_request("  https://x.org/p.wasm \n"), Some("https://x.org/p.wasm".to_string()));
    assert_eq!(install_request(" \t "), None);
    assert_eq!(install_request(""), None);
}

#[test]
fn a_move_keeps_every_seat_even_a_repeated_one() {
    let mut chains = ProviderChains { translate: ids(&["a", "b", "a"]), ..ProviderChains::default() };
    assert!(move_in_chain(&mut chains, ProviderKind::Translate, "a", false));
    assert_eq!(chains.translate, ids(&["b", "a", "a"]));
    assert!(move_in_chain(&mut chains, ProviderKind::Translate, "b", false));
    assert_eq!(chains.translate, ids(&["a", "b", "a"]));
}
