//! The plugin ABI: strings travel as one `i64` that packs a pointer and a
//! length, and every answer of a handler becomes one string.

use vstd::prelude::*;
use vstd::string::StringExecFns;
use crate::json::{field_value, find_field, json_parse_outcome, object_text, parse_json, set_field, with_field, JsonDoc, JsonShape};
use crate::text::{json_quoted, json_string, lossy_text, text_from_bytes, trim, trimmed};

verus! {

/// The ABI version a module speaks.
pub const ABI_VERSION: i32 = 1;

/// The pointer `ptr` and length `len` as the ABI packs them: the pointer's
/// 32 bits above the length's 32 bits.
pub open spec fn packed(ptr: i32, len: i32) -> i64 {
    (((ptr as u32) as u64) << 32u64 | ((len as u32) as u64)) as i64
}

/// Packs a pointer+len pair the way the ABI carries strings.
pub fn pack(ptr: i32, len: i32) -> (r: i64)
    ensures
        r == packed(ptr, len),
{
    ((((ptr as u32) as u64) << 32u64) | ((len as u32) as u64)) as i64
}

/// The pointer half of a packed pair.
pub open spec fn packed_ptr(v: i64) -> i32 {
    ((v as u64) >> 32u64) as u32 as i32
}

/// The length half of a packed pair.
pub open spec fn packed_len(v: i64) -> i32 {
    (v as u64) as u32 as i32
}

/// Packing loses nothing: both halves come back out of the packed value.
pub proof fn lemma_pack_round_trip(ptr: i32, len: i32)
    ensures
        packed_ptr(packed(ptr, len)) == ptr,
        packed_len(packed(ptr, len)) == len,
{
    assert(((((((ptr as u32) as u64) << 32u64 | ((len as u32) as u64)) as i64) as u64) >> 32u64) as u32 as i32 == ptr) by (bit_vector);
    assert((((((ptr as u32) as u64) << 32u64 | ((len as u32) as u64)) as i64) as u64) as u32 as i32 == len) by (bit_vector);
}


/// Every allocation's alignment. The room is freed from its length alone,
/// so allocating and freeing must never disagree about it.
pub const ALIGN: usize = 16;

/// The pointer handed back for a zero-length request: aligned, never read.
pub const ZERO_PTR: i32 = 16;

/// What a request for `len` bytes of room comes to.
#[derive(Clone, Copy, Debug, PartialEq, Eq, Structural)]
pub enum Room {
    /// A negative length: answered with the null pointer.
    Refused,
    /// No bytes: answered with the never-read sentinel `ZERO_PTR`.
    Empty,
    /// This many bytes, aligned to `ALIGN`, from the allocator.
    Bytes(usize),
}

/// The room a request for `len` bytes asks the allocator for: none for a
/// negative length, the sentinel for zero.
pub fn alloc_room(len: i32) -> (r: Room)
    ensures
        len < 0 ==> r == Room::Refused,
        len == 0 ==> r == Room::Empty,
        len > 0 ==> r == Room::Bytes(len as usize),
{
    if len < 0 {
        Room::Refused
    } else if len == 0 {
        Room::Empty
    } else {
        Room::Bytes(len as usize)
    }
}

/// The room a pointer and length hand back, when there is any: a
/// non-positive pointer or length holds nothing to read or free.
pub fn held_room(ptr: i32, len: i32) -> (r: Option<usize>)
    ensures
        (ptr <= 0 || len <= 0) ==> r is None,
        (ptr > 0 && len > 0) ==> r == Some(len as usize),
{
    if ptr <= 0 || len <= 0 {
        None
    } else {
        Some(len as usize)
    }
}

/// The length an answer of `len` bytes travels with, when it fits the
/// ABI's `i32`; a longer answer cannot be packed.
pub fn reply_len(len: usize) -> (r: Option<i32>)
    ensures
        len > i32::MAX ==> r is None,
        len <= i32::MAX ==> r == Some(len as i32),
{
    if len > i32::MAX as usize {
        None
    } else {
        Some(len as i32)
    }
}

/// The packed answer for room at `ptr` holding `len` bytes: a packed `0`
/// when the room could not be had, which the host reads as the call
/// failing.
pub fn packed_reply(ptr: i32, len: i32) -> (r: i64)
    ensures
        ptr == 0 ==> r == 0,
        ptr != 0 ==> r == packed(ptr, len),
{
    if ptr == 0 {
        0
    } else {
        pack(ptr, len)
    }
}

/// The text an argument buffer holds: its bytes read as UTF-8, each
/// invalid sequence replaced.
pub fn take_string(bytes: &[u8]) -> (r: String)
    ensures
        r@ == lossy_text(bytes@),
{
    text_from_bytes(bytes)
}

/// The one string a handler's answer becomes: an answer as itself, a
/// refusal as `{"error":…}`.
pub open spec fn reply_text(answer: Result<String, String>) -> Seq<char> {
    match answer {
        Ok(text) => text@,
        Err(error) => seq!['{', '"', 'e', 'r', 'r', 'o', 'r', '"', ':'] + json_quoted(error@) + seq!['}'],
    }
}

/// Whatever a handler came back with becomes one string: an answer as
/// itself, a refusal as `{"error":…}`.
pub fn respond(answer: Result<String, String>) -> (r: String)
    ensures
        r@ == reply_text(answer),
{
    match answer {
        Ok(text) => text,
        Err(error) => {
            proof {
                reveal_strlit("{\"error\":");
                reveal_strlit("}");
            }
            let mut r = String::from_str("{\"error\":");
            let quoted = json_string(error.as_str());
            r.append(quoted.as_str());
            r.append("}");
            r
        },
    }
}

/// Runs `plan`: one argument buffer in, one answer out. The handler sees
/// the buffer as text, and its answer becomes the reply.
pub fn call<F>(plan: F, input: &[u8]) -> (r: String)
    where
        F: FnOnce(&str) -> Result<String, String>,
    requires
        forall|s: &str| #[trigger] plan.requires((s,)),
    ensures
        exists|s: &str, answer: Result<String, String>|
            s@ == lossy_text(input@) && #[trigger] plan.ensures((s,), answer) && r@ == reply_text(answer),
{
    let text = take_string(input);
    let answer = plan(text.as_str());
    respond(answer)
}

/// Folds the host's answers into the call's input, so that the handler
/// sees the input object with `"responses"` set to the answers: an array
/// is the answers themselves, an object carries them under `"responses"`.
/// Every other field of the input stays as it was. An empty (or blank)
/// responses buffer changes nothing: the host may fold the answers in
/// itself.
pub fn attach_responses(input: String, responses: String) -> (r: Result<String, String>)
    ensures
        trimmed(responses@).len() == 0 ==> r == Ok::<String, String>(input),
        trimmed(responses@).len() > 0 ==> responses_attached(input@, responses@, r),
{
    if trim(responses.as_str()).as_str().is_empty() {
        return Ok(input);
    }
    let answers = match parse_json(responses.as_str()) {
        Err(error) => {
            let mut message = String::from_str("malformed responses: ");
            message.append(error.as_str());
            return Err(message);
        },
        Ok(doc) => match select_answers(doc) {
            Ok(answers) => answers,
            Err(message) => return Err(message),
        },
    };
    match parse_json(input.as_str()) {
        Err(error) => {
            let mut message = String::from_str("malformed input: ");
            message.append(error.as_str());
            Err(message)
        },
        Ok(doc) => {
            if doc.shape == JsonShape::Object {
                let fields = set_field(doc.fields, String::from_str("responses"), answers);
                Ok(crate::json::write_object(&fields))
            } else {
                Err(String::from_str("malformed input: not a JSON object"))
            }
        },
    }
}

/// What attaching `answers` (compact JSON) does with the input: an object
/// gains `"responses"`, set to the answers, and is written back out; any
/// other input is refused with its reason.
pub open spec fn input_attached(input: Seq<char>, answers: Seq<char>, r: Result<String, String>) -> bool {
    match json_parse_outcome(input) {
        Err(e) => r is Err && r->Err_0@ == "malformed input: "@ + e,
        Ok((JsonShape::Object, _, fields)) => r is Ok && r->Ok_0@ == object_text(with_field(fields, "responses"@, answers)),
        Ok(_) => r is Err && r->Err_0@ == "malformed input: not a JSON object"@,
    }
}

/// The answers a responses text carries, as compact JSON: an array is the
/// answers themselves; an object carries them under `"responses"`.
pub open spec fn answers_in(responses: Seq<char>) -> Option<Seq<char>> {
    match json_parse_outcome(responses) {
        Ok((JsonShape::Array, compact, _)) => Some(compact),
        Ok((JsonShape::Object, _, fields)) => field_value(fields, "responses"@),
        _ => None,
    }
}

/// What attaching non-blank `responses` to `input` gives: a parse error
/// or a shape that carries no answers is refused with its reason; the
/// answers of an array, or of an object's `"responses"` field, are
/// attached.
pub open spec fn responses_attached(input: Seq<char>, responses: Seq<char>, r: Result<String, String>) -> bool {
    match json_parse_outcome(responses) {
        Err(e) => r is Err && r->Err_0@ == "malformed responses: "@ + e,
        Ok((JsonShape::Other, _, _)) => r is Err && r->Err_0@ == "malformed responses: neither object nor array"@,
        Ok((JsonShape::Object, _, fields)) => if field_value(fields, "responses"@) is Some {
            input_attached(input, field_value(fields, "responses"@)->0, r)
        } else {
            r is Err && r->Err_0@ == "malformed responses: no `responses` field"@
        },
        Ok((JsonShape::Array, compact, _)) => input_attached(input, compact, r),
    }
}

/// The handler sees the input object with `"responses"` set to the host's
/// answers: whenever attaching succeeds on non-blank responses, the input
/// was an object and the responses carried answers, and the attached text
/// is that object with the answers under `"responses"` and every other
/// field kept with its value.
pub proof fn lemma_handler_sees_answers(input: Seq<char>, responses: Seq<char>, r: Result<String, String>)
    requires
        responses_attached(input, responses, r),
        r is Ok,
    ensures
        answers_in(responses) is Some,
        json_parse_outcome(input) is Ok,
        json_parse_outcome(input)->Ok_0.0 == JsonShape::Object,
        ({
            let fields = json_parse_outcome(input)->Ok_0.2;
            let attached = with_field(fields, "responses"@, answers_in(responses)->0);
            &&& r->Ok_0@ == object_text(attached)
            &&& field_value(attached, "responses"@) == answers_in(responses)
            &&& forall|k: Seq<char>| k != "responses"@ ==> #[trigger] field_value(attached, k) == field_value(fields, k)
        }),
{
    let answers = answers_in(responses)->0;
    let fields = json_parse_outcome(input)->Ok_0.2;
    crate::json::lemma_with_field(fields, "responses"@, answers);
}

/// The answers a parsed responses document carries, as compact JSON: an
/// array is the answers themselves; an object carries them under
/// `"responses"`; anything else carries none.
pub fn select_answers(doc: JsonDoc) -> (r: Result<String, String>)
    ensures
        match doc.shape {
            JsonShape::Array => r == Ok::<String, String>(doc.compact),
            JsonShape::Object => match field_value(crate::json::field_views(doc.fields@), "responses"@) {
                Some(answers) => r is Ok && r->Ok_0@ == answers,
                None => r is Err && r->Err_0@ == "malformed responses: no `responses` field"@,
            },
            JsonShape::Other => r is Err && r->Err_0@ == "malformed responses: neither object nor array"@,
        },
{
    match doc.shape {
        JsonShape::Array => Ok(doc.compact),
        JsonShape::Object => match find_field(&doc.fields, "responses") {
            Some(answers) => Ok(answers),
            None => Err(String::from_str("malformed responses: no `responses` field")),
        },
        JsonShape::Other => Err(String::from_str("malformed responses: neither object nor array")),
    }
}

/// Runs `fulfil`: the call's input and the host's answers arrive in two
/// buffers, and the handler sees them as one JSON object with
/// `"responses"` attached. A refusal to attach is the reply, and the
/// handler is then not run.
pub fn call_with_responses<F>(fulfil: F, input: &[u8], responses: &[u8]) -> (r: String)
    where
        F: FnOnce(&str) -> Result<String, String>,
    requires
        forall|s: &str| #[trigger] fulfil.requires((s,)),
    ensures
        exists|attached: Result<String, String>| {
            &&& attached_from(lossy_text(input@), lossy_text(responses@), attached)
            &&& match attached {
                Err(e) => r@ == reply_text(Err(e)),
                Ok(text) => exists|s: &str, answer: Result<String, String>|
                    s@ == text@ && #[trigger] fulfil.ensures((s,), answer) && r@ == reply_text(answer),
            }
        },
{
    let input_text = take_string(input);
    let responses_text = take_string(responses);
    let attached = attach_responses(input_text, responses_text);
    let ghost att = attached;
    assert(attached_from(lossy_text(input@), lossy_text(responses@), att));
    match attached {
        Err(error) => {
            let r = respond(Err(error));
            assert(r@ == reply_text(Err(error)));
            r
        },
        Ok(text) => {
            let handed = text.as_str();
            let answer = fulfil(handed);
            let r = respond(answer);
            assert(fulfil.ensures((handed,), answer));
            r
        },
    }
}

/// What `attach_responses` may give for `input` and `responses`, as its
/// contract states it.
pub open spec fn attached_from(input: Seq<char>, responses: Seq<char>, r: Result<String, String>) -> bool {
    &&& trimmed(responses).len() == 0 ==> r is Ok && r->Ok_0@ == input
    &&& trimmed(responses).len() > 0 ==> responses_attached(input, responses, r)
}

} // verus!
