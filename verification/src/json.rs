//! JSON documents as the ABI glue reads and writes them: serde_json parses
//! a text and writes each top-level field back in its compact form; the
//! library puts an object's fields together again itself.

use vstd::prelude::*;
use vstd::string::StringExecFns;
use serde_json::Value;
use crate::text::{json_quoted, json_string};

verus! {

/// The top-level shape of a JSON document.
#[derive(Clone, Copy, Debug, PartialEq, Eq, Structural)]
pub enum JsonShape {
    Array,
    Object,
    Other,
}

/// A parsed JSON document, as text: its shape, the whole document in
/// compact form, and, for an object, each field's key and its value in
/// compact form, in the order the object keeps them.
pub struct JsonDoc {
    pub shape: JsonShape,
    pub compact: String,
    pub fields: Vec<(String, String)>,
}

/// The fields of a document by their views.
pub open spec fn field_views(fields: Seq<(String, String)>) -> Seq<(Seq<char>, Seq<char>)> {
    fields.map_values(|f: (String, String)| (f.0@, f.1@))
}

/// What `serde_json::from_str::<Value>` makes of `text`: the document's
/// shape, the document written back compactly (`Value::to_string`), and,
/// for an object, its entries in its map's order, each key with its value
/// written compactly (none for anything else); or the text of its error.
pub uninterp spec fn json_parse_outcome(text: Seq<char>) -> Result<(JsonShape, Seq<char>, Seq<(Seq<char>, Seq<char>)>), Seq<char>>;

/// Parses `text` as one JSON document with `serde_json::from_str::<Value>`
/// (its error written out with `Display`), and writes the document and
/// each of an object's field values back with `Value::to_string`. Which
/// texts parse, and how serde_json writes their values, is named here, not
/// stated.
#[verifier::external_body]
pub(crate) fn parse_json(text: &str) -> (r: Result<JsonDoc, String>)
    ensures
        match r {
            Ok(doc) => json_parse_outcome(text@) == Ok::<(JsonShape, Seq<char>, Seq<(Seq<char>, Seq<char>)>), Seq<char>>(
                (doc.shape, doc.compact@, field_views(doc.fields@)),
            ),
            Err(e) => json_parse_outcome(text@) == Err::<(JsonShape, Seq<char>, Seq<(Seq<char>, Seq<char>)>), Seq<char>>(e@),
        },
{
    let value = match serde_json::from_str::<Value>(text) {
        Ok(value) => value,
        Err(error) => return Err(error.to_string()),
    };
    let (shape, fields) = match &value {
        Value::Array(_) => (JsonShape::Array, Vec::new()),
        Value::Object(map) => (JsonShape::Object, map.iter().map(|(k, v)| (k.clone(), v.to_string())).collect()),
        _ => (JsonShape::Other, Vec::new()),
    };
    Ok(JsonDoc { shape, compact: value.to_string(), fields })
}

/// Whether key `a` sorts before key `b`: character by character, a proper
/// prefix first, as Rust orders strings.
pub open spec fn key_less(a: Seq<char>, b: Seq<char>) -> bool
    decreases a.len(),
{
    if a.len() == 0 {
        b.len() > 0
    } else if b.len() == 0 {
        false
    } else if a[0] != b[0] {
        (a[0] as u32) < (b[0] as u32)
    } else {
        key_less(a.drop_first(), b.drop_first())
    }
}

/// Whether key `a` sorts before key `b`.
pub(crate) fn text_less(a: &str, b: &str) -> (r: bool)
    ensures
        r == key_less(a@, b@),
{
    let x = crate::text::chars_of(a);
    let y = crate::text::chars_of(b);
    let mut i: usize = 0;
    assert(x@.skip(0) =~= x@ && y@.skip(0) =~= y@);
    while i < x.len() && i < y.len() && x[i] == y[i]
        invariant
            i <= x@.len(),
            i <= y@.len(),
            key_less(x@, y@) == key_less(x@.skip(i as int), y@.skip(i as int)),
        decreases x@.len() - i,
    {
        proof {
            let (s, t) = (x@.skip(i as int), y@.skip(i as int));
            assert(s.drop_first() =~= x@.skip(i + 1));
            assert(t.drop_first() =~= y@.skip(i + 1));
        }
        i = i + 1;
    }
    proof {
        let (s, t) = (x@.skip(i as int), y@.skip(i as int));
        if i < x@.len() {
            assert(s[0] == x@[i as int]);
        }
        if i < y@.len() {
            assert(t[0] == y@[i as int]);
        }
    }
    if i == x.len() {
        i < y.len()
    } else if i == y.len() {
        false
    } else {
        (x[i] as u32) < (y[i] as u32)
    }
}

/// `fields` with `key` set to `value`, the way serde_json's object map (a
/// map sorted by key) sets a field: a field of that key has its value
/// replaced; otherwise the new field goes before the first key that sorts
/// after it. This is the whole of what setting a field does to an object's
/// entries, so it is stated here and proved of `set_field`.
pub open spec fn with_field(fields: Seq<(Seq<char>, Seq<char>)>, key: Seq<char>, value: Seq<char>) -> Seq<(Seq<char>, Seq<char>)>
    decreases fields.len(),
{
    if fields.len() == 0 {
        seq![(key, value)]
    } else if fields[0].0 == key {
        seq![(key, value)] + fields.drop_first()
    } else if key_less(key, fields[0].0) {
        seq![(key, value)] + fields
    } else {
        seq![fields[0]] + with_field(fields.drop_first(), key, value)
    }
}

/// The value of the first field of `fields` with `key`, if there is one.
pub open spec fn field_value(fields: Seq<(Seq<char>, Seq<char>)>, key: Seq<char>) -> Option<Seq<char>>
    decreases fields.len(),
{
    if fields.len() == 0 {
        None
    } else if fields[0].0 == key {
        Some(fields[0].1)
    } else {
        field_value(fields.drop_first(), key)
    }
}

/// One field as compact JSON: the key's literal, a colon, the value.
pub open spec fn field_text(field: (Seq<char>, Seq<char>)) -> Seq<char> {
    json_quoted(field.0) + seq![':'] + field.1
}

/// Fields as compact JSON, joined by commas, in order.
pub open spec fn fields_text(fields: Seq<(Seq<char>, Seq<char>)>) -> Seq<char>
    decreases fields.len(),
{
    if fields.len() == 0 {
        seq![]
    } else if fields.len() == 1 {
        field_text(fields[0])
    } else {
        fields_text(fields.drop_last()) + seq![','] + field_text(fields.last())
    }
}

/// An object with `fields`, in order, as compact JSON, the way serde_json's
/// compact writer writes one: braces around the fields, each a quoted key,
/// a colon and the value's own compact text, joined by commas.
pub open spec fn object_text(fields: Seq<(Seq<char>, Seq<char>)>) -> Seq<char> {
    seq!['{'] + fields_text(fields) + seq!['}']
}

/// Setting a field keeps every other field and its value, and the key then
/// holds the new value.
pub proof fn lemma_with_field(fields: Seq<(Seq<char>, Seq<char>)>, key: Seq<char>, value: Seq<char>)
    ensures
        field_value(with_field(fields, key, value), key) == Some(value),
        forall|k: Seq<char>| k != key ==> #[trigger] field_value(with_field(fields, key, value), k) == field_value(fields, k),
    decreases fields.len(),
{
    if fields.len() == 0 {
        let w = with_field(fields, key, value);
        assert(w.drop_first() =~= fields);
    } else if fields[0].0 != key && !key_less(key, fields[0].0) {
        lemma_with_field(fields.drop_first(), key, value);
        let w = with_field(fields, key, value);
        assert(w.drop_first() == with_field(fields.drop_first(), key, value));
        assert forall|k: Seq<char>| k != key implies #[trigger] field_value(w, k) == field_value(fields, k) by {
            if fields[0].0 != k {
                assert(field_value(w, k) == field_value(w.drop_first(), k));
            }
        }
    } else {
        let w = with_field(fields, key, value);
        if fields[0].0 == key {
            assert(w.drop_first() == fields.drop_first());
            assert forall|k: Seq<char>| k != key implies #[trigger] field_value(w, k) == field_value(fields, k) by {
                assert(field_value(w, k) == field_value(fields.drop_first(), k));
            }
        } else {
            assert(w.drop_first() == fields);
        }
    }
}

/// The value of `key` among `fields`, if one holds it.
pub(crate) fn find_field(fields: &Vec<(String, String)>, key: &str) -> (r: Option<String>)
    ensures
        match field_value(field_views(fields@), key@) {
            Some(v) => r is Some && r->0@ == v,
            None => r is None,
        },
{
    let ghost all = field_views(fields@);
    let mut i: usize = 0;
    assert(all.skip(0) =~= all);
    while i < fields.len()
        invariant
            i <= fields@.len(),
            all == field_views(fields@),
            field_value(all, key@) == field_value(all.skip(i as int), key@),
        decreases fields@.len() - i,
    {
        proof {
            let ghost rest = all.skip(i as int);
            assert(rest[0] == (fields@[i as int].0@, fields@[i as int].1@));
            assert(rest.drop_first() =~= all.skip(i + 1));
        }
        if crate::text::same_text(fields[i].0.as_str(), key) {
            return Some(fields[i].1.clone());
        }
        i = i + 1;
    }
    None
}

/// `fields` with `key` set to `value`, as an object's sorted map sets it.
pub(crate) fn set_field(fields: Vec<(String, String)>, key: String, value: String) -> (r: Vec<(String, String)>)
    ensures
        field_views(r@) == with_field(field_views(fields@), key@, value@),
{
    let ghost all = field_views(fields@);
    let mut out: Vec<(String, String)> = Vec::new();
    let mut i: usize = 0;
    let n = fields.len();
    assert(all.skip(0) =~= all);
    assert(field_views(out@) =~= Seq::<(Seq<char>, Seq<char>)>::empty());
    while i < n
        invariant
            n == fields@.len(),
            i <= n,
            all == field_views(fields@),
            with_field(all, key@, value@) == field_views(out@) + with_field(all.skip(i as int), key@, value@),
        decreases n - i,
    {
        let ghost rest = all.skip(i as int);
        proof {
            assert(rest[0] == (fields@[i as int].0@, fields@[i as int].1@));
            assert(rest.drop_first() =~= all.skip(i + 1));
        }
        if crate::text::same_text(fields[i].0.as_str(), key.as_str()) {
            let ghost before = out@;
            out.push((key, value));
            proof {
                assert(field_views(out@) =~= field_views(before).push((key@, value@)));
                assert(with_field(rest, key@, value@) == seq![(key@, value@)] + all.skip(i + 1));
                assert(field_views(out@) + all.skip(i + 1) =~= field_views(before) + with_field(rest, key@, value@));
            }
            let mut j = i + 1;
            while j < n
                invariant
                    n == fields@.len(),
                    i < j <= n,
                    all == field_views(fields@),
                    field_views(out@) + all.skip(j as int) == with_field(all, key@, value@),
                decreases n - j,
            {
                proof {
                    assert(all.skip(j as int)[0] == (fields@[j as int].0@, fields@[j as int].1@));
                    assert(all.skip(j as int).drop_first() =~= all.skip(j + 1));
                }
                let ghost o = out@;
                out.push((fields[j].0.clone(), fields[j].1.clone()));
                assert(field_views(out@) =~= field_views(o).push(all[j as int]));
                assert(field_views(out@) + all.skip(j + 1) =~= field_views(o) + all.skip(j as int));
                j = j + 1;
            }
            assert(all.skip(n as int) =~= Seq::<(Seq<char>, Seq<char>)>::empty());
            assert(field_views(out@) =~= field_views(out@) + all.skip(n as int));
            return out;
        }
        if text_less(key.as_str(), fields[i].0.as_str()) {
            let ghost o = out@;
            out.push((key, value));
            proof {
                assert(field_views(out@) =~= field_views(o).push((key@, value@)));
                assert(with_field(rest, key@, value@) == seq![(key@, value@)] + rest);
                assert(field_views(out@) + all.skip(i as int) =~= field_views(o) + with_field(rest, key@, value@));
            }
            let mut j = i;
            while j < n
                invariant
                    n == fields@.len(),
                    i <= j <= n,
                    all == field_views(fields@),
                    field_views(out@) + all.skip(j as int) == with_field(all, key@, value@),
                decreases n - j,
            {
                proof {
                    assert(all.skip(j as int)[0] == (fields@[j as int].0@, fields@[j as int].1@));
                    assert(all.skip(j as int).drop_first() =~= all.skip(j + 1));
                }
                let ghost o2 = out@;
                out.push((fields[j].0.clone(), fields[j].1.clone()));
                assert(field_views(out@) =~= field_views(o2).push(all[j as int]));
                assert(field_views(out@) + all.skip(j + 1) =~= field_views(o2) + all.skip(j as int));
                j = j + 1;
            }
            assert(field_views(out@) =~= field_views(out@) + all.skip(n as int));
            return out;
        }
        let ghost o = out@;
        out.push((fields[i].0.clone(), fields[i].1.clone()));
        proof {
            assert(field_views(out@) =~= field_views(o).push(all[i as int]));
            assert(with_field(rest, key@, value@) == seq![rest[0]] + with_field(all.skip(i + 1), key@, value@));
            assert(field_views(out@) + with_field(all.skip(i + 1), key@, value@)
                =~= field_views(o) + with_field(rest, key@, value@));
        }
        i = i + 1;
    }
    let ghost o = out@;
    out.push((key, value));
    proof {
        assert(all.skip(n as int) =~= Seq::<(Seq<char>, Seq<char>)>::empty());
        assert(field_views(out@) =~= field_views(o).push((key@, value@)));
    }
    out
}

/// An object with `fields`, in order, written as compact JSON.
pub(crate) fn write_object(fields: &Vec<(String, String)>) -> (r: String)
    ensures
        r@ == object_text(field_views(fields@)),
{
    let ghost all = field_views(fields@);
    let mut body = String::new();
    let mut i: usize = 0;
    while i < fields.len()
        invariant
            i <= fields@.len(),
            all == field_views(fields@),
            body@ == fields_text(all.take(i as int)),
        decreases fields@.len() - i,
    {
        let ghost t = all.take(i + 1);
        proof {
            reveal_strlit(",");
            reveal_strlit(":");
            assert(t.drop_last() =~= all.take(i as int));
            assert(t.last() == (fields@[i as int].0@, fields@[i as int].1@));
        }
        if i > 0 {
            body.append(",");
        }
        body.append(json_string(fields[i].0.as_str()).as_str());
        body.append(":");
        body.append(fields[i].1.as_str());
        proof {
            if i == 0 {
                assert(t =~= seq![t.last()]);
            }
        }
        i = i + 1;
    }
    assert(all.take(fields@.len() as int) =~= all);
    let mut r = String::from_str("{");
    proof {
        reveal_strlit("{");
        reveal_strlit("}");
    }
    r.append(body.as_str());
    r.append("}");
    r
}

} // verus!
