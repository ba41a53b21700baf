//! The lyrics.ovh provider: plain lyrics by artist and title, asked only
//! after Spotify's words and LRCLIB have missed.

use vstd::prelude::*;
use vstd::string::StringExecFns;
use vstd::utf8::encode_utf8;
use crate::text::{
    decimal, decimal_text, json_array, json_array_text, json_joined, json_quoted, json_string, nonblank_lines,
    nonblank_trimmed, lines, percent_encoded, same_text, trim, trimmed, url_encode, views,
};

verus! {

/// The module's manifest: who it is, what it provides, and the one domain
/// it asks the host to fetch from.
pub const MANIFEST: &'static str = "{\n    \"id\": \"lyrics-ovh\",\n    \"name\": \"Lyrics.ovh\",\n    \"publisher\": \"kreatzzz\",\n    \"version\": \"1.0.0\",\n    \"api\": 1,\n    \"capabilities\": [\"provider:lyrics\"],\n    \"domains\": [\"api.lyrics.ovh\"],\n    \"homepage\": \"https://github.com/kreatzzz/woofer/tree/main/plugins/lyrics-ovh\"\n}";

/// One answer the host fetched for a planned request.
#[derive(Clone, Debug)]
pub struct HostAnswer {
    pub status: u16,
    pub body: String,
}

/// What a call hands the provider: the kind asked for, the track as
/// artist, title, album and duration, and the host's answers, if any.
#[derive(Clone, Debug)]
pub struct LyricsInput {
    pub kind: String,
    pub lines: Vec<String>,
    pub responses: Vec<HostAnswer>,
}

/// Why a call is refused, when it is: the input did not parse, it asks
/// another kind of provider, or it does not carry the four track fields.
pub open spec fn refusal(parsed: Result<LyricsInput, String>) -> Option<Seq<char>> {
    match parsed {
        Err(e) => Some("malformed input: "@ + e@),
        Ok(input) => if input.kind@ != "lyrics"@ {
            Some("lyrics.ovh serves \"lyrics\", not \""@ + input.kind@ + "\""@)
        } else if input.lines@.len() != 4 {
            Some("lyrics input needs artist, title, album, and duration; got "@ + decimal(input.lines@.len()) + " fields"@)
        } else {
            None
        },
    }
}

/// The input, once parsed, checked to ask for lyrics with all four fields.
pub fn parse(parsed: Result<LyricsInput, String>) -> (r: Result<LyricsInput, String>)
    ensures
        refusal(parsed) matches Some(e) ==> r is Err && r->Err_0@ == e,
        refusal(parsed) is None ==> r == parsed,
{
    match parsed {
        Err(error) => {
            let mut message = String::from_str("malformed input: ");
            message.append(error.as_str());
            Err(message)
        },
        Ok(input) => {
            if !same_text(input.kind.as_str(), "lyrics") {
                let mut message = String::from_str("lyrics.ovh serves \"lyrics\", not \"");
                message.append(input.kind.as_str());
                message.append("\"");
                Err(message)
            } else if input.lines.len() != 4 {
                let mut message = String::from_str("lyrics input needs artist, title, album, and duration; got ");
                message.append(decimal_text(input.lines.len() as u64).as_str());
                message.append(" fields");
                Err(message)
            } else {
                Ok(input)
            }
        },
    }
}

/// The address that asks lyrics.ovh for a track, when it has both an
/// artist and a title: each, trimmed, as a percent-encoded path segment.
pub open spec fn query_url(lines: Seq<String>) -> Option<Seq<char>> {
    let artist = trimmed(lines[0]@);
    let title = trimmed(lines[1]@);
    if artist.len() == 0 || title.len() == 0 {
        None
    } else {
        Some("https://api.lyrics.ovh/v1/"@ + percent_encoded(encode_utf8(artist)) + "/"@ + percent_encoded(encode_utf8(title)))
    }
}

/// The address that asks lyrics.ovh for the track, when it has both an
/// artist and a title.
pub fn query(input: &LyricsInput) -> (r: Option<String>)
    requires
        input.lines@.len() == 4,
    ensures
        match query_url(input.lines@) {
            Some(url) => r is Some && r->0@ == url,
            None => r is None,
        },
{
    let artist = trim(input.lines[0].as_str());
    let title = trim(input.lines[1].as_str());
    if artist.as_str().is_empty() || title.as_str().is_empty() {
        return None;
    }
    let mut url = String::from_str("https://api.lyrics.ovh/v1/");
    url.append(url_encode(artist.as_str()).as_str());
    url.append("/");
    url.append(url_encode(title.as_str()).as_str());
    Some(url)
}

/// The plan's text: one request for the track's address, or none.
pub open spec fn plan_text(url: Option<Seq<char>>) -> Seq<char> {
    match url {
        Some(u) => "{\"requests\":[{\"url\":"@ + json_quoted(u) + "}]}"@,
        None => "{\"requests\":[]}"@,
    }
}

/// The plan: one request to lyrics.ovh when the track has an artist and a
/// title, and none otherwise.
pub fn plan(parsed: Result<LyricsInput, String>) -> (r: Result<String, String>)
    ensures
        refusal(parsed) matches Some(e) ==> r is Err && r->Err_0@ == e,
        refusal(parsed) is None ==> r is Ok && r->Ok_0@ == plan_text(query_url(parsed->Ok_0.lines@)),
{
    let input = parse(parsed)?;
    match query(&input) {
        Some(url) => {
            let mut r = String::from_str("{\"requests\":[{\"url\":");
            r.append(json_string(url.as_str()).as_str());
            r.append("}]}");
            Ok(r)
        },
        None => Ok(String::from_str("{\"requests\":[]}")),
    }
}

/// The answer that says "nothing for this input".
pub open spec fn miss_text() -> Seq<char> {
    "{\"miss\":true}"@
}

/// The JSON text of one plain line: no timestamp, and its words.
pub open spec fn line_text(text: Seq<char>) -> Seq<char> {
    "{\"at_ms\":null,\"text\":"@ + json_quoted(text) + "}"@
}

/// The answer for lyrics text: its non-blank lines, trimmed, as plain
/// (unsynced) lines; a miss when there are none.
pub open spec fn lyrics_answer(lyrics: Seq<char>) -> Seq<char> {
    let kept = nonblank_trimmed(lines(lyrics));
    if kept.len() == 0 {
        miss_text()
    } else {
        "{\"lyrics\":{\"lines\":"@ + json_array_text(kept.map_values(|t: Seq<char>| line_text(t))) + ",\"synced\":false}}"@
    }
}

/// What the provider answers for `parsed` when it does not come to read
/// the host answer's body: a refusal, a miss, or an error about the
/// answers.
pub open spec fn early_outcome(parsed: Result<LyricsInput, String>) -> Result<Seq<char>, Seq<char>> {
    match refusal(parsed) {
        Some(e) => Err(e),
        None => {
            let input = parsed->Ok_0;
            let answers = input.responses@;
            if query_url(input.lines@) is None {
                Ok(miss_text())
            } else if answers.len() == 0 {
                Err("expected one lyrics.ovh answer, got none"@)
            } else if answers.len() != 1 {
                Err("expected one lyrics.ovh answer, got "@ + decimal(answers.len()))
            } else if answers[0].status == 404 {
                Ok(miss_text())
            } else {
                Err("lyrics.ovh answered "@ + decimal(answers[0].status as nat))
            }
        },
    }
}

/// What the provider answers once it has read the body: the `lyrics`
/// field's lines, or the reason the body has none.
pub open spec fn body_outcome(read: Result<String, String>) -> Result<Seq<char>, Seq<char>> {
    match read {
        Err(e) => Err("unexpected answer from lyrics.ovh: "@ + e@),
        Ok(lyrics) => Ok(lyrics_answer(lyrics@)),
    }
}

/// Whether the provider reads the host answer's body for `parsed`: a track
/// with an address and exactly one successful answer.
pub open spec fn reads_body(parsed: Result<LyricsInput, String>) -> bool {
    &&& refusal(parsed) is None
    &&& query_url(parsed->Ok_0.lines@) is Some
    &&& parsed->Ok_0.responses@.len() == 1
    &&& parsed->Ok_0.responses@[0].status != 404
    &&& 200 <= parsed->Ok_0.responses@[0].status < 300
}

/// The lines of a lyrics text as the answer carries them.
fn lyrics_reply(lyrics: &str) -> (r: String)
    ensures
        r@ == lyrics_answer(lyrics@),
{
    let kept = nonblank_lines(lyrics);
    if kept.len() == 0 {
        return String::from_str("{\"miss\":true}");
    }
    let mut items: Vec<String> = Vec::new();
    let mut i: usize = 0;
    while i < kept.len()
        invariant
            i <= kept@.len(),
            views(items@) == views(kept@).take(i as int).map_values(|t: Seq<char>| line_text(t)),
        decreases kept@.len() - i,
    {
        let mut item = String::from_str("{\"at_ms\":null,\"text\":");
        item.append(json_string(kept[i].as_str()).as_str());
        item.append("}");
        let ghost before = items@;
        items.push(item);
        assert(views(items@) == views(before).push(item@));
        assert(views(kept@).take(i + 1) == views(kept@).take(i as int).push(kept@[i as int]@));
        assert(views(items@) =~= views(kept@).take(i + 1).map_values(|t: Seq<char>| line_text(t)));
        i = i + 1;
    }
    assert(views(kept@).take(kept@.len() as int) == views(kept@));
    let mut r = String::from_str("{\"lyrics\":{\"lines\":");
    r.append(json_array(&items).as_str());
    r.append(",\"synced\":false}}");
    r
}

/// The answer: a miss when the track has no artist or title or lyrics.ovh
/// does not know it (404), an error when the answers are not the one
/// expected or the site is broken, and otherwise the body's lyrics as
/// plain lines. `read` reads the body's `lyrics` field, giving the reason
/// as text when there is none; it is asked only when the body matters.
pub fn fulfil<F>(parsed: Result<LyricsInput, String>, read: F) -> (r: Result<String, String>)
    where
        F: FnOnce(&str) -> Result<String, String>,
    requires
        forall|s: &str| #[trigger] read.requires((s,)),
    ensures
        !reads_body(parsed) ==> view_result(r) == early_outcome(parsed),
        reads_body(parsed) ==> exists|s: &str, got: Result<String, String>|
            s@ == parsed->Ok_0.responses@[0].body@ && #[trigger] read.ensures((s,), got) && view_result(r) == body_outcome(got),
{
    let input = parse(parsed)?;
    if query(&input).is_none() {
        return Ok(String::from_str("{\"miss\":true}"));
    }
    if input.responses.len() == 0 {
        return Err(String::from_str("expected one lyrics.ovh answer, got none"));
    }
    if input.responses.len() != 1 {
        let mut r = String::from_str("expected one lyrics.ovh answer, got ");
        r.append(decimal_text(input.responses.len() as u64).as_str());
        return Err(r);
    }
    let status = input.responses[0].status;
    if status == 404 {
        return Ok(String::from_str("{\"miss\":true}"));
    }
    if !(200 <= status && status < 300) {
        let mut r = String::from_str("lyrics.ovh answered ");
        r.append(decimal_text(status as u64).as_str());
        return Err(r);
    }
    let body = input.responses[0].body.as_str();
    let got = read(body);
    let ghost g = got;
    let r = match got {
        Err(e) => {
            let mut m = String::from_str("unexpected answer from lyrics.ovh: ");
            m.append(e.as_str());
            Err(m)
        },
        Ok(lyrics) => Ok(lyrics_reply(lyrics.as_str())),
    };
    assert(read.ensures((body,), g));
    assert(view_result(r) == body_outcome(g));
    r
}

/// A result of strings, by its views.
pub open spec fn view_result(r: Result<String, String>) -> Result<Seq<char>, Seq<char>> {
    match r {
        Ok(s) => Ok(s@),
        Err(e) => Err(e@),
    }
}


/// Only a 404 is a quiet miss: for a track with an artist and a title and
/// exactly one answer from lyrics.ovh, a 404 is a miss without the body
/// being read; a success (200 to 299) has its body read; any other status,
/// a 403 or a 429 or a 503 alike, is the error `lyrics.ovh answered
/// <status>`, which the provider's health counts as a failure.
pub proof fn lemma_only_404_is_a_miss(input: LyricsInput)
    requires
        input.kind@ == "lyrics"@,
        input.lines@.len() == 4,
        trimmed(input.lines@[0]@).len() > 0,
        trimmed(input.lines@[1]@).len() > 0,
        input.responses@.len() == 1,
    ensures
        input.responses@[0].status == 404 ==> !reads_body(Ok(input))
            && early_outcome(Ok(input)) == Ok::<Seq<char>, Seq<char>>("{\"miss\":true}"@),
        200 <= input.responses@[0].status < 300 ==> reads_body(Ok(input)),
        (input.responses@[0].status != 404 && !(200 <= input.responses@[0].status < 300)) ==> !reads_body(Ok(input))
            && early_outcome(Ok(input)) == Err::<Seq<char>, Seq<char>>(
                "lyrics.ovh answered "@ + decimal(input.responses@[0].status as nat),
            ),
{
}

} // verus!
