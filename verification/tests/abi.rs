//! The plugin ABI: rooms, sentinels, packing, and the replies of handlers.

use woofer::abi::{
    alloc_room, attach_responses, call, call_with_responses, held_room, pack, packed_reply, reply_len, respond,
    take_string, Room, ZERO_PTR,
};

#[test]
fn invalid_and_empty_allocations_have_distinct_sentinels() {
    assert_eq!(alloc_room(-1), Room::Refused);
    assert_eq!(alloc_room(0), Room::Empty);
    assert!(ZERO_PTR > 0);
    // An empty reply fits, takes the sentinel room, and packs it.
    assert_eq!(reply_len(0), Some(0));
    assert_eq!(packed_reply(ZERO_PTR, 0), pack(ZERO_PTR, 0));
}

#[test]
fn packing_puts_the_pointer_above_the_length() {
    assert_eq!(pack(1, 2), (1i64 << 32) | 2);
    assert_eq!(pack(0x10, 5), 0x10_0000_0005);
    let packed = pack(-1, -1);
    assert_eq!(((packed as u64) >> 32) as u32 as i32, -1);
    assert_eq!((packed as u64) as u32 as i32, -1);
    assert_eq!(packed_reply(0, 7), 0);
}

#[test]
fn rooms_and_held_buffers() {
    assert_eq!(alloc_room(12), Room::Bytes(12));
    assert_eq!(held_room(0, 4), None);
    assert_eq!(held_room(16, 0), None);
    assert_eq!(held_room(-3, 4), None);
    assert_eq!(held_room(64, 4), Some(4));
    assert_eq!(reply_len(i32::MAX as usize + 1), None);
    assert_eq!(reply_len(9), Some(9));
}

#[test]
fn a_refusal_becomes_an_error_object() {
    assert_eq!(respond(Ok("{\"a\":1}".to_string())), "{\"a\":1}");
    assert_eq!(respond(Err("no \"way\"\n".to_string())), "{\"error\":\"no \\\"way\\\"\\n\"}");
}

#[test]
fn argument_buffers_are_read_as_lossy_text() {
    assert_eq!(take_string(b"plain"), "plain");
    assert_eq!(take_string(&[0x66, 0xff, 0x6f]), "f\u{fffd}o");
}

#[test]
fn a_call_hands_the_handler_its_input() {
    let reply = call(|input: &str| Ok(format!("seen {input}")), b"abc");
    assert_eq!(reply, "seen abc");
    let refused = call(|_: &str| Err("nope".to_string()), b"abc");
    assert_eq!(refused, "{\"error\":\"nope\"}");
}

#[test]
fn blank_responses_leave_the_input_alone() {
    assert_eq!(attach_responses("{\"x\":1}".to_string(), "  \n".to_string()), Ok("{\"x\":1}".to_string()));
}

#[test]
fn an_array_of_answers_is_attached_as_responses() {
    let attached = attach_responses("{\"kind\":\"lyrics\"}".to_string(), "[{\"status\":200}]".to_string()).unwrap();
    let value: serde_json::Value = serde_json::from_str(&attached).unwrap();
    assert_eq!(value["kind"], "lyrics");
    assert_eq!(value["responses"][0]["status"], 200);
    let wrapped = attach_responses("{}".to_string(), "{\"responses\":[1,2]}".to_string()).unwrap();
    assert_eq!(wrapped, "{\"responses\":[1,2]}");
}

#[test]
fn malformed_responses_and_inputs_are_refused() {
    let broken = attach_responses("{}".to_string(), "[1,".to_string()).unwrap_err();
    assert!(broken.starts_with("malformed responses: "));
    assert_eq!(
        attach_responses("{}".to_string(), "{\"other\":1}".to_string()),
        Err("malformed responses: no `responses` field".to_string())
    );
    assert_eq!(
        attach_responses("{}".to_string(), "7".to_string()),
        Err("malformed responses: neither object nor array".to_string())
    );
    let bad_input = attach_responses("{".to_string(), "[]".to_string()).unwrap_err();
    assert!(bad_input.starts_with("malformed input: "));
    assert_eq!(
        attach_responses("[1]".to_string(), "[]".to_string()),
        Err("malformed input: not a JSON object".to_string())
    );
}

#[test]
fn a_call_with_responses_sees_them_attached() {
    let reply = call_with_responses(|input: &str| Ok(input.to_string()), b"{\"a\":true}", b"[]");
    let value: serde_json::Value = serde_json::from_str(&reply).unwrap();
    assert_eq!(value["a"], true);
    assert_eq!(value["responses"], serde_json::Value::Array(Vec::new()));
    let refused = call_with_responses(|_: &str| Ok("never".to_string()), b"{}", b"{\"x\":1}");
    assert_eq!(refused, "{\"error\":\"malformed responses: no `responses` field\"}");
}

#[test]
fn the_handler_sees_every_field_kept_and_the_answers_under_responses() {
    let attached = attach_responses("{\"b\":1, \"a\":[true,null]}".to_string(), "[{\"status\":200,\"body\":\"x\"}]".to_string());
    assert_eq!(attached, Ok("{\"a\":[true,null],\"b\":1,\"responses\":[{\"body\":\"x\",\"status\":200}]}".to_string()));
    let replaced = attach_responses("{\"z\":\"k\",\"responses\":7}".to_string(), "{\"responses\":[]}".to_string());
    assert_eq!(replaced, Ok("{\"responses\":[],\"z\":\"k\"}".to_string()));
    let sorted_in = attach_responses("{\"s\":0,\"a\":0}".to_string(), "[]".to_string());
    assert_eq!(sorted_in, Ok("{\"a\":0,\"responses\":[],\"s\":0}".to_string()));
    let escaped = attach_responses("{\"q\\\"k\":\"v\\n\"}".to_string(), "[]".to_string());
    assert_eq!(escaped, Ok("{\"q\\\"k\":\"v\\n\",\"responses\":[]}".to_string()));
}

#[test]
fn what_the_handler_sees_is_what_serde_json_writes() {
    let input = "{\"kind\":\"translate\",\"lines\":[\"a\",\"b\"],\"n\":1.5,\"target\":\"en\"}";
    let responses = "[{\"status\":200,\"body\":\"{}\"}]";
    let attached = attach_responses(input.to_string(), responses.to_string()).unwrap();
    let mut expected: serde_json::Value = serde_json::from_str(input).unwrap();
    let answers: serde_json::Value = serde_json::from_str(responses).unwrap();
    expected.as_object_mut().unwrap().insert("responses".to_string(), answers);
    assert_eq!(attached, expected.to_string());
}
