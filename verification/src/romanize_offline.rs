//! The offline romanizer: non-ASCII lyric lines written in Latin letters
//! by AnyAscii's tables, asking the host for no network at all.

use vstd::prelude::*;
use vstd::string::StringExecFns;
use vstd::utf8::is_ascii_chars;
use crate::text::{
    ascii_transliteration, json_array_text, json_nullable_array, json_nullable_texts, same_text, transliterate, trim,
    trimmed,
};

verus! {

/// The module's manifest: who it is, what it provides, and that it needs no
/// domain at all.
pub const MANIFEST: &'static str = "{\n    \"id\": \"romanize-offline\",\n    \"name\": \"Offline Romanizer\",\n    \"publisher\": \"kreatzzz\",\n    \"version\": \"1.0.0\",\n    \"api\": 1,\n    \"capabilities\": [\"provider:romanize\"],\n    \"domains\": [],\n    \"homepage\": \"https://github.com/kreatzzz/woofer/tree/main/plugins/romanize-offline\"\n}";

/// What a call hands the romanizer: the provider kind asked for and the
/// lyric lines.
#[derive(Clone, Debug)]
pub struct RomanizeInput {
    pub kind: String,
    pub lines: Vec<String>,
}

/// Why a call is refused, when it is: the input did not parse, or it asks
/// another kind of provider.
pub open spec fn refusal(parsed: Result<RomanizeInput, String>) -> Option<Seq<char>> {
    match parsed {
        Err(e) => Some("malformed input: "@ + e@),
        Ok(input) => if input.kind@ == "romanize"@ {
            None
        } else {
            Some("offline romanizer serves \"romanize\", not \""@ + input.kind@ + "\""@)
        },
    }
}

/// The input, once parsed, checked to ask for romanization.
pub fn parse(parsed: Result<RomanizeInput, String>) -> (r: Result<RomanizeInput, String>)
    ensures
        refusal(parsed) matches Some(e) ==> r is Err && r->Err_0@ == e,
        refusal(parsed) is None ==> r == parsed,
{
    match parsed {
        Err(error) => {
            let mut message = String::from_str("malformed input: ");
            message.append(error.as_str());
            Err(message)
        },
        Ok(input) => {
            if same_text(input.kind.as_str(), "romanize") {
                Ok(input)
            } else {
                let mut message = String::from_str("offline romanizer serves \"romanize\", not \"");
                message.append(input.kind.as_str());
                message.append("\"");
                Err(message)
            }
        },
    }
}

/// The plan: nothing to fetch, ever.
pub fn plan(parsed: Result<RomanizeInput, String>) -> (r: Result<String, String>)
    ensures
        refusal(parsed) matches Some(e) ==> r is Err && r->Err_0@ == e,
        refusal(parsed) is None ==> r is Ok && r->Ok_0@ == "{\"requests\":[]}"@,
{
    parse(parsed)?;
    Ok(String::from_str("{\"requests\":[]}"))
}

/// The Latin spelling of one line, when it adds one: ASCII lines are left
/// alone, and a spelling that is blank or the line itself is no help.
pub open spec fn romanized(line: Seq<char>) -> Option<Seq<char>> {
    if is_ascii_chars(line) {
        None
    } else {
        let text = ascii_transliteration(line);
        if trimmed(text).len() > 0 && text != line {
            Some(text)
        } else {
            None
        }
    }
}

/// The Latin spelling of one line, when it adds one.
pub fn romanize_line(line: &str) -> (r: Option<String>)
    ensures
        match romanized(line@) {
            Some(text) => r is Some && r->0@ == text,
            None => r is None,
        },
{
    if line.is_ascii() {
        return None;
    }
    let text = transliterate(line);
    if !trim(text.as_str()).as_str().is_empty() && !same_text(text.as_str(), line) {
        Some(text)
    } else {
        None
    }
}

/// The romanizer's answer for `lines`: a spelling or `null` per line, and
/// no translation.
pub open spec fn answer_text(lines: Seq<String>, spellings: Seq<Option<String>>) -> Seq<char> {
    "{\"romanized\":"@ + json_array_text(json_nullable_texts(spellings)) + ",\"translated\":"@
        + json_array_text(json_nullable_texts(Seq::new(lines.len(), |i: int| None::<String>))) + "}"@
}

/// Each line's spelling, or `null`, and no translation for any line.
pub fn fulfil(parsed: Result<RomanizeInput, String>) -> (r: Result<String, String>)
    ensures
        refusal(parsed) matches Some(e) ==> r is Err && r->Err_0@ == e,
        refusal(parsed) is None ==> r is Ok && exists|spellings: Seq<Option<String>>| {
            &&& spellings.len() == parsed->Ok_0.lines@.len()
            &&& forall|i: int| 0 <= i < spellings.len() ==> match romanized(#[trigger] parsed->Ok_0.lines@[i]@) {
                Some(text) => spellings[i] is Some && spellings[i]->0@ == text,
                None => spellings[i] is None,
            }
            &&& r->Ok_0@ == answer_text(parsed->Ok_0.lines@, spellings)
        },
{
    let input = parse(parsed)?;
    let mut spellings: Vec<Option<String>> = Vec::new();
    let mut blanks: Vec<Option<String>> = Vec::new();
    let mut i: usize = 0;
    while i < input.lines.len()
        invariant
            i <= input.lines@.len(),
            spellings@.len() == i,
            blanks@ == Seq::new(i as nat, |k: int| None::<String>),
            forall|k: int| 0 <= k < i ==> match romanized(#[trigger] input.lines@[k]@) {
                Some(text) => spellings@[k] is Some && spellings@[k]->0@ == text,
                None => spellings@[k] is None,
            },
        decreases input.lines@.len() - i,
    {
        spellings.push(romanize_line(input.lines[i].as_str()));
        blanks.push(None);
        assert(blanks@ =~= Seq::new((i + 1) as nat, |k: int| None::<String>));
        i = i + 1;
    }
    let mut r = String::from_str("{\"romanized\":");
    r.append(json_nullable_array(&spellings).as_str());
    r.append(",\"translated\":");
    r.append(json_nullable_array(&blanks).as_str());
    r.append("}");
    assert(r@ == answer_text(input.lines@, spellings@));
    Ok(r)
}


/// Every line holding a non-ASCII character, wherever it stands, is given
/// its transliteration when that is not blank and not the line itself;
/// only a line made wholly of ASCII characters is left without a spelling.
pub proof fn lemma_non_ascii_lines_are_spelled(line: Seq<char>)
    ensures
        is_ascii_chars(line) ==> romanized(line) is None,
        (!is_ascii_chars(line) && trimmed(ascii_transliteration(line)).len() > 0 && ascii_transliteration(line) != line)
            ==> romanized(line) == Some(ascii_transliteration(line)),
        (!is_ascii_chars(line) && (trimmed(ascii_transliteration(line)).len() == 0 || ascii_transliteration(line) == line))
            ==> romanized(line) is None,
{
}

} // verus!
