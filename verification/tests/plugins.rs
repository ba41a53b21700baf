//! The lyrics.ovh and offline romanizer providers, driven the way the host
//! drives a module: input in, answer text out through the ABI's reply.

use serde_json::Value;
use woofer::abi::{respond, ABI_VERSION};
use woofer::lyrics_ovh::{self, HostAnswer, LyricsInput};
use woofer::romanize_offline::{self, RomanizeInput};

fn strings(items: &[&str]) -> Vec<String> {
    items.iter().map(|item| item.to_string()).collect()
}

fn string_array(items: &[&str]) -> Value {
    Value::Array(items.iter().map(|item| Value::String(item.to_string())).collect())
}

fn lyrics_input(artist: &str, title: &str, responses: Vec<HostAnswer>) -> Result<LyricsInput, String> {
    Ok(LyricsInput {
        kind: "lyrics".to_string(),
        lines: strings(&[artist, title, "Album", "201000"]),
        responses,
    })
}

/// Reads the `lyrics` field of a lyrics.ovh body, as the module does.
fn read_lyrics(body: &str) -> Result<String, String> {
    let value: Value = serde_json::from_str(body).map_err(|error| error.to_string())?;
    value["lyrics"]
        .as_str()
        .map(|text| text.to_string())
        .ok_or_else(|| "missing field `lyrics`".to_string())
}

fn reply(answer: Result<String, String>) -> Value {
    serde_json::from_str(&respond(answer)).unwrap()
}

fn romanize_input(kind: &str, lines: &[&str]) -> Result<RomanizeInput, String> {
    Ok(RomanizeInput { kind: kind.to_string(), lines: strings(lines) })
}

#[test]
fn the_manifest_declares_one_lyrics_domain() {
    assert_eq!(ABI_VERSION, 1);
    let manifest: Value = serde_json::from_str(lyrics_ovh::MANIFEST).unwrap();
    assert_eq!(manifest["id"], "lyrics-ovh");
    assert_eq!(manifest["capabilities"], string_array(&["provider:lyrics"]));
    assert_eq!(manifest["domains"], string_array(&["api.lyrics.ovh"]));
}

#[test]
fn the_plan_encodes_artist_and_title_as_path_segments() {
    let plan = reply(lyrics_ovh::plan(lyrics_input("Björk & Trio", "It's Oh So Quiet", Vec::new())));
    assert_eq!(plan["requests"].as_array().unwrap().len(), 1);
    let url = plan["requests"][0]["url"].as_str().unwrap();
    assert!(url.starts_with("https://api.lyrics.ovh/v1/"));
    assert!(url.contains("Bj%C3%B6rk%20%26%20Trio"));
    assert!(url.ends_with("It%27s%20Oh%20So%20Quiet"));
}

#[test]
fn a_hit_becomes_plain_nonempty_lines() {
    let mut body = serde_json::Map::new();
    body.insert("lyrics".to_string(), Value::String(" first \r\n\r\nsecond\n".to_string()));
    let answers = vec![HostAnswer { status: 200, body: Value::Object(body).to_string() }];
    let output = reply(lyrics_ovh::fulfil(lyrics_input("Artist", "Song", answers), read_lyrics));
    assert_eq!(output["lyrics"]["synced"], false);
    let line = |text: &str| {
        let mut fields = serde_json::Map::new();
        fields.insert("at_ms".to_string(), Value::Null);
        fields.insert("text".to_string(), Value::String(text.to_string()));
        Value::Object(fields)
    };
    assert_eq!(output["lyrics"]["lines"], Value::Array(vec![line("first"), line("second")]));
}

#[test]
fn missing_track_or_missing_identity_is_a_quiet_miss() {
    let answers = vec![HostAnswer { status: 404, body: String::new() }];
    let missing = reply(lyrics_ovh::fulfil(lyrics_input("Artist", "Song", answers), read_lyrics));
    assert_eq!(missing["miss"], true);

    let plan = reply(lyrics_ovh::plan(lyrics_input("", "Song", Vec::new())));
    assert_eq!(plan["requests"], Value::Array(Vec::new()));
    let output = reply(lyrics_ovh::fulfil(lyrics_input("", "Song", Vec::new()), read_lyrics));
    assert_eq!(output["miss"], true);
}

#[test]
fn upstream_breakage_is_an_error_for_the_health_counter() {
    let answers = vec![HostAnswer { status: 503, body: String::new() }];
    let output = reply(lyrics_ovh::fulfil(lyrics_input("Artist", "Song", answers), read_lyrics));
    assert!(output["error"].as_str().unwrap().contains("503"));
}

#[test]
fn the_manifest_needs_no_network() {
    assert_eq!(ABI_VERSION, 1);
    let manifest: Value = serde_json::from_str(romanize_offline::MANIFEST).unwrap();
    assert_eq!(manifest["id"], "romanize-offline");
    assert_eq!(manifest["capabilities"], string_array(&["provider:romanize"]));
    assert_eq!(manifest["domains"], Value::Array(Vec::new()));
}

#[test]
fn planning_never_asks_for_a_fetch() {
    let plan = reply(romanize_offline::plan(romanize_input("romanize", &["άνθρωποι", "深圳"])));
    assert_eq!(plan["requests"], Value::Array(Vec::new()));
}

#[test]
fn non_latin_lines_are_romanized_without_replacing_ascii_lines() {
    let output = reply(romanize_offline::fulfil(romanize_input("romanize", &["άνθρωποι", "hello", "", "深圳"])));
    assert_eq!(output["romanized"][0], "anthropoi");
    assert_eq!(output["romanized"][1], Value::Null);
    assert_eq!(output["romanized"][2], Value::Null);
    assert!(output["romanized"][3].as_str().is_some_and(|line| !line.is_empty()));
    assert_eq!(output["translated"], Value::Array(vec![Value::Null, Value::Null, Value::Null, Value::Null]));
}

#[test]
fn another_provider_kind_is_refused() {
    let output = reply(romanize_offline::plan(romanize_input("translate", &["γεια"])));
    assert!(output["error"].as_str().unwrap().contains("translate"));
}

#[test]
fn lyrics_calls_are_checked_before_anything_is_asked() {
    let wrong_kind = Ok(LyricsInput { kind: "translate".to_string(), lines: strings(&["a", "b", "c", "d"]), responses: Vec::new() });
    assert_eq!(lyrics_ovh::plan(wrong_kind), Err("lyrics.ovh serves \"lyrics\", not \"translate\"".to_string()));
    let short = Ok(LyricsInput { kind: "lyrics".to_string(), lines: strings(&["a", "b"]), responses: Vec::new() });
    assert_eq!(
        lyrics_ovh::plan(short),
        Err("lyrics input needs artist, title, album, and duration; got 2 fields".to_string())
    );
    assert_eq!(lyrics_ovh::plan(Err("eof".to_string())), Err("malformed input: eof".to_string()));
}

#[test]
fn lyrics_answers_that_do_not_fit_are_errors() {
    let none = lyrics_ovh::fulfil(lyrics_input("Artist", "Song", Vec::new()), read_lyrics);
    assert_eq!(none, Err("expected one lyrics.ovh answer, got none".to_string()));
    let two = vec![
        HostAnswer { status: 200, body: String::new() },
        HostAnswer { status: 200, body: String::new() },
    ];
    let two = lyrics_ovh::fulfil(lyrics_input("Artist", "Song", two), read_lyrics);
    assert_eq!(two, Err("expected one lyrics.ovh answer, got 2".to_string()));
    let garbled = vec![HostAnswer { status: 200, body: "not json".to_string() }];
    let garbled = lyrics_ovh::fulfil(lyrics_input("Artist", "Song", garbled), read_lyrics).unwrap_err();
    assert!(garbled.starts_with("unexpected answer from lyrics.ovh: "));
}

#[test]
fn blank_lyrics_are_a_miss() {
    let mut body = serde_json::Map::new();
    body.insert("lyrics".to_string(), Value::String(" \n\r\n  ".to_string()));
    let answers = vec![HostAnswer { status: 200, body: Value::Object(body).to_string() }];
    let output = lyrics_ovh::fulfil(lyrics_input("Artist", "Song", answers), read_lyrics);
    assert_eq!(output, Ok("{\"miss\":true}".to_string()));
}

#[test]
fn the_exact_plan_text_for_one_track() {
    let plan = lyrics_ovh::plan(lyrics_input(" A B ", "c/d", Vec::new()));
    assert_eq!(plan, Ok("{\"requests\":[{\"url\":\"https://api.lyrics.ovh/v1/A%20B/c%2Fd\"}]}".to_string()));
}

#[test]
fn romanizer_refusals_name_the_reason() {
    assert_eq!(
        romanize_offline::fulfil(romanize_input("lyrics", &["x"])),
        Err("offline romanizer serves \"romanize\", not \"lyrics\"".to_string())
    );
    assert_eq!(romanize_offline::plan(Err("eof".to_string())), Err("malformed input: eof".to_string()));
    assert_eq!(romanize_offline::romanize_line("hello"), None);
    assert_eq!(romanize_offline::romanize_line("άνθρωποι"), Some("anthropoi".to_string()));
}
