//! The JSON document validator: a generic parse first, then a strict decode
//! of the user-record schema with a graceful fallback to key listing.

use vstd::prelude::*;
use crate::json::JsonValue;
use crate::json::find_field;
use crate::json::lookup;
use crate::records::UserRecord;
use crate::records::UserView;
use crate::records::views_of;
use crate::text::all_digits;
use crate::text::dec_str;
use crate::text::lemma_dec_str_val;
use crate::text::dec_val;
use crate::text::parse_u32;

verus! {

#[verifier::external_type_specification]
#[verifier::external_body]
pub struct ExValue(serde_json::Value);

/// What a parsed JSON value holds, carried over to the library's model.
pub uninterp spec fn model_of(v: serde_json::Value) -> JsonValue;

/// What parsing a text as JSON yields: the model of the document, or nothing
/// when the text is not syntactically valid JSON.
pub uninterp spec fn doc_of_text(s: Seq<char>) -> Option<JsonValue>;

/// Relies on serde_json's `from_str::<Value>`: whether it succeeds, and
/// what it yields, is a function of the text alone. The error text is the
/// parser's message.
#[verifier::external_body]
fn parse_value(text: &str) -> (r: Result<serde_json::Value, String>)
    ensures
        r is Ok <==> doc_of_text(text@) is Some,
        r matches Ok(v) ==> doc_of_text(text@) == Some(model_of(v)),
{
    match serde_json::from_str::<serde_json::Value>(text) {
        Ok(v) => Ok(v),
        Err(e) => Err(e.to_string()),
    }
}

/// Relies on serde_json's `Value` enum: each variant is carried over to the
/// library's model one for one. Object entries come in the order of the
/// map's iterator (sorted by key, as the map is a `BTreeMap`); a number is
/// kept as its decimal rendering.
#[verifier::external_body]
fn value_model(v: serde_json::Value) -> (r: JsonValue)
    ensures
        r == model_of(v),
{
    match v {
        serde_json::Value::Null => JsonValue::Null,
        serde_json::Value::Bool(b) => JsonValue::Bool(b),
        serde_json::Value::Number(n) => JsonValue::Num(n.to_string()),
        serde_json::Value::String(s) => JsonValue::Text(s),
        serde_json::Value::Array(a) => JsonValue::Arr(a.into_iter().map(value_model).collect()),
        serde_json::Value::Object(m) => JsonValue::Obj(
            m.into_iter().map(|(k, w)| (k, value_model(w))).collect(),
        ),
    }
}

/// Parses a text as JSON into the library's model of the document.
pub fn parse_document(text: &str) -> (r: Result<JsonValue, String>)
    ensures
        r is Ok <==> doc_of_text(text@) is Some,
        r matches Ok(d) ==> doc_of_text(text@) == Some(d),
{
    match parse_value(text) {
        Ok(v) => Ok(value_model(v)),
        Err(e) => Err(e),
    }
}

/// The text under `key`, when the entry is there and is a string.
pub open spec fn field_text(es: Seq<(String, JsonValue)>, key: Seq<char>) -> Option<Seq<char>> {
    match lookup(es, key) {
        Some(JsonValue::Text(s)) => Some(s@),
        _ => None,
    }
}

/// The number under `key`, when the entry is there, is a number whose lexeme
/// is a plain decimal numeral, and its value fits in a `u32`.
pub open spec fn field_u32(es: Seq<(String, JsonValue)>, key: Seq<char>) -> Option<u32> {
    match lookup(es, key) {
        Some(JsonValue::Num(lex)) => if lex@.len() > 0 && all_digits(lex@) && dec_val(lex@)
            <= u32::MAX {
            Some(dec_val(lex@) as u32)
        } else {
            None
        },
        _ => None,
    }
}

/// The strict decode of one record: an object holding at least the five
/// schema fields with their demanded types. Other entries are ignored.
pub open spec fn decode_user(v: JsonValue) -> Option<UserView> {
    match v {
        JsonValue::Obj(entries) => {
            let es = entries@;
            if field_u32(es, "id"@) is Some && field_text(es, "name"@) is Some && field_text(
                es,
                "email"@,
            ) is Some && field_text(es, "created_at"@) is Some && field_text(es, "uuid"@)
                is Some {
                Some(
                    UserView {
                        id: field_u32(es, "id"@)->Some_0,
                        name: field_text(es, "name"@)->Some_0,
                        email: field_text(es, "email"@)->Some_0,
                        created_at: field_text(es, "created_at"@)->Some_0,
                        uuid: field_text(es, "uuid"@)->Some_0,
                    },
                )
            } else {
                None
            }
        },
        _ => None,
    }
}

/// The strict decode of a record list: every element must decode.
pub open spec fn decode_list(items: Seq<JsonValue>) -> Option<Seq<UserView>>
    decreases items.len(),
{
    if items.len() == 0 {
        Some(Seq::empty())
    } else {
        match decode_user(items[0]) {
            Some(u) => match decode_list(items.skip(1)) {
                Some(rest) => Some(seq![u] + rest),
                None => None,
            },
            None => None,
        }
    }
}

/// The strict decode of a whole document: an array of records.
pub open spec fn decode_users_doc(d: JsonValue) -> Option<Seq<UserView>> {
    match d {
        JsonValue::Arr(items) => decode_list(items@),
        _ => None,
    }
}

fn decode_user_exec(v: &JsonValue) -> (r: Option<UserRecord>)
    ensures
        r is Some <==> decode_user(*v) is Some,
        r matches Some(u) ==> decode_user(*v) == Some(u@),
{
    match v {
        JsonValue::Obj(entries) => {
            let id = match find_field(entries, "id") {
                Some(JsonValue::Num(lex)) => match parse_u32(lex.as_str()) {
                    Some(n) => n,
                    None => {
                        return None;
                    },
                },
                _ => {
                    return None;
                },
            };
            let name = match find_field(entries, "name") {
                Some(JsonValue::Text(s)) => s.clone(),
                _ => {
                    return None;
                },
            };
            let email = match find_field(entries, "email") {
                Some(JsonValue::Text(s)) => s.clone(),
                _ => {
                    return None;
                },
            };
            let created_at = match find_field(entries, "created_at") {
                Some(JsonValue::Text(s)) => s.clone(),
                _ => {
                    return None;
                },
            };
            let uuid = match find_field(entries, "uuid") {
                Some(JsonValue::Text(s)) => s.clone(),
                _ => {
                    return None;
                },
            };
            Some(UserRecord { id, name, email, created_at, uuid })
        },
        _ => None,
    }
}

/// Strictly decodes a document as a record list, exactly as
/// `decode_users_doc` says.
pub fn decode_users(d: &JsonValue) -> (r: Option<Vec<UserRecord>>)
    ensures
        r is Some <==> decode_users_doc(*d) is Some,
        r matches Some(us) ==> decode_users_doc(*d) == Some(views_of(us@)),
{
    match d {
        JsonValue::Arr(items) => {
            let n = items.len();
            let mut out: Vec<UserRecord> = Vec::new();
            let mut i: usize = 0;
            proof {
                assert(d is Arr && d->Arr_0 == *items);
                assert(items@.skip(0) =~= items@);
                assert(views_of(out@) =~= Seq::<UserView>::empty());
            }
            while i < n
                invariant
                    d is Arr && d->Arr_0 == *items,
                    0 <= i <= n,
                    n == items@.len(),
                    out@.len() == i,
                    decode_list(items@) is Some <==> decode_list(items@.skip(i as int)) is Some,
                    decode_list(items@.skip(i as int)) matches Some(rest) ==> decode_list(items@)
                        == Some(views_of(out@) + rest),
                decreases n - i,
            {
                proof {
                    assert(items@.skip(i as int)[0] == items@[i as int]);
                    assert(items@.skip(i as int).skip(1) =~= items@.skip(i as int + 1));
                }
                match decode_user_exec(&items[i]) {
                    Some(u) => {
                        proof {
                            let ghost prev = out@;
                            assert(views_of(prev.push(u)) =~= views_of(prev) + seq![u@]);
                        }
                        let ghost prev = out@;
                        out.push(u);
                        proof {
                            assert(out@ == prev.push(u));
                            if decode_list(items@.skip(i as int + 1)) is Some {
                                let rest = decode_list(items@.skip(i as int + 1))->Some_0;
                                assert(decode_list(items@.skip(i as int)) == Some(
                                    seq![u@] + rest,
                                ));
                                assert(views_of(prev) + (seq![u@] + rest) =~= views_of(out@)
                                    + rest);
                            }
                        }
                    },
                    None => {
                        proof {
                            assert(decode_user(items@[i as int]) is None);
                            assert(decode_list(items@.skip(i as int)) is None);
                            assert(decode_list(items@) is None);
                            assert(decode_users_doc(*d) is None);
                        }
                        return None;
                    },
                }
                i = i + 1;
            }
            proof {
                assert(items@.skip(n as int) =~= Seq::<JsonValue>::empty());
                assert(decode_list(items@.skip(n as int)) == Some(Seq::<UserView>::empty()));
                assert(views_of(out@) + Seq::<UserView>::empty() =~= views_of(out@));
            }
            Some(out)
        },
        _ => None,
    }
}

/// `v` is a parsed object carrying exactly the record `u`: the five schema
/// fields are present with the record's values, the id as its canonical
/// decimal numeral.
pub open spec fn models_record(v: JsonValue, u: UserView) -> bool {
    v matches JsonValue::Obj(entries) && {
        let es = entries@;
        &&& lookup(es, "id"@) matches Some(JsonValue::Num(lex)) && lex@ == dec_str(u.id as nat)
        &&& lookup(es, "name"@) matches Some(JsonValue::Text(s)) && s@ == u.name
        &&& lookup(es, "email"@) matches Some(JsonValue::Text(s)) && s@ == u.email
        &&& lookup(es, "created_at"@) matches Some(JsonValue::Text(s)) && s@ == u.created_at
        &&& lookup(es, "uuid"@) matches Some(JsonValue::Text(s)) && s@ == u.uuid
    }
}

/// An object carrying exactly a record's fields decodes back to that record.
pub proof fn lemma_record_round_trip(v: JsonValue, u: UserView)
    requires
        models_record(v, u),
    ensures
        decode_user(v) == Some(u),
{
    lemma_dec_str_val(u.id as nat);
}

/// Each object of the array carries the record at its position.
pub open spec fn models_batch(items: Seq<JsonValue>, us: Seq<UserView>) -> bool {
    items.len() == us.len() && forall|i: int|
        0 <= i < items.len() ==> models_record(#[trigger] items[i], us[i])
}

/// The typed half of the generator/validator round trip: a parsed array
/// whose objects carry exactly a batch's records decodes strictly back to
/// that batch — such a document never falls back to the generic report, and
/// the reported count is the batch's length.
pub proof fn lemma_batch_round_trip(items: Seq<JsonValue>, us: Seq<UserView>)
    requires
        models_batch(items, us),
    ensures
        decode_list(items) == Some(us),
    decreases items.len(),
{
    if items.len() == 0 {
        assert(us =~= Seq::<UserView>::empty());
    } else {
        lemma_record_round_trip(items[0], us[0]);
        lemma_batch_round_trip(items.skip(1), us.skip(1));
        assert(seq![us[0]] + us.skip(1) =~= us);
    }
}

/// The round-trip law at the document level: when the parsed model of a
/// text is an array carrying a batch, the strict decode of that document
/// yields exactly the batch.
pub proof fn lemma_document_round_trip(d: JsonValue, us: Seq<UserView>)
    requires
        d matches JsonValue::Arr(items) && models_batch(items@, us),
    ensures
        decode_users_doc(d) == Some(us),
{
    match d {
        JsonValue::Arr(items) => lemma_batch_round_trip(items@, us),
        _ => (),
    }
}

/// What the validator reports of a document.
pub enum ValidationReport {
    /// The text is not syntactically valid JSON; the field is the parser's
    /// message. Nothing further is attempted.
    ParseError(String),
    /// The document is an array of records: the full count, the first three
    /// records' name and email, and how many were left unlisted.
    UserList { count: usize, sample: Vec<(String, String)>, remaining: usize },
    /// Not a record array, but an object: up to its first five keys.
    ObjectKeys(Vec<String>),
    /// Not a record array and not an object: nothing to enumerate.
    Unstructured,
}

/// The views of listed (name, email) pairs.
pub open spec fn pairs_view(v: Seq<(String, String)>) -> Seq<(Seq<char>, Seq<char>)> {
    v.map_values(|p: (String, String)| (p.0@, p.1@))
}

/// The views of listed keys.
pub open spec fn keys_view(v: Seq<String>) -> Seq<Seq<char>> {
    v.map_values(|s: String| s@)
}

/// The first three records' (name, email) pairs.
pub open spec fn sample_of(us: Seq<UserView>) -> Seq<(Seq<char>, Seq<char>)> {
    us.take(if us.len() < 3 { us.len() as int } else { 3 }).map_values(
        |u: UserView| (u.name, u.email),
    )
}

/// The first five keys of an object.
pub open spec fn keys_of(es: Seq<(String, JsonValue)>) -> Seq<Seq<char>> {
    es.take(if es.len() < 5 { es.len() as int } else { 5 }).map_values(
        |e: (String, JsonValue)| e.0@,
    )
}

/// Lists the first three records' (name, email) pairs, exactly as
/// `sample_of` says.
pub fn sample_pairs(users: &Vec<UserRecord>) -> (r: Vec<(String, String)>)
    ensures
        pairs_view(r@) == sample_of(views_of(users@)),
{
    let ghost us = views_of(users@);
    let count = users.len();
    let limit: usize = if count < 3 {
        count
    } else {
        3
    };
    let mut sample: Vec<(String, String)> = Vec::new();
    let mut i: usize = 0;
    while i < limit
        invariant
            0 <= i <= limit,
            limit <= users@.len(),
            us == views_of(users@),
            sample@.len() == i,
            forall|j: int|
                0 <= j < i ==> (#[trigger] sample@[j]).0@ == us[j].name && sample@[j].1@
                    == us[j].email,
        decreases limit - i,
    {
        sample.push((users[i].name.clone(), users[i].email.clone()));
        i = i + 1;
    }
    proof {
        assert(pairs_view(sample@) =~= sample_of(us));
    }
    sample
}

/// Validates a text: a parse error is terminal; a record array is reported
/// with its count, its first three records and the remaining count; any
/// other object is reported by its first five keys; anything else is
/// reported as unstructured.
pub fn validate_text(text: &str) -> (r: ValidationReport)
    ensures
        r is ParseError <==> doc_of_text(text@) is None,
        doc_of_text(text@) matches Some(d) ==> decode_users_doc(d) matches Some(us) ==> (
        r matches ValidationReport::UserList { count, sample, remaining } && count == us.len()
            && pairs_view(sample@) == sample_of(us) && remaining as int == (if us.len() > 3 {
            us.len() - 3
        } else {
            0
        })),
        doc_of_text(text@) matches Some(d) ==> ((decode_users_doc(d) is None && d is Obj) ==> (d
            matches JsonValue::Obj(es) && r matches ValidationReport::ObjectKeys(ks) && keys_view(
            ks@,
        ) == keys_of(es@))),
        doc_of_text(text@) matches Some(d) ==> (decode_users_doc(d) is None && !(d is Obj)) ==> r
            is Unstructured,
{
    let doc = match parse_document(text) {
        Ok(d) => d,
        Err(e) => {
            return ValidationReport::ParseError(e);
        },
    };
    match decode_users(&doc) {
        Some(users) => {
            let count = users.len();
            let sample = sample_pairs(&users);
            let remaining: usize = if count > 3 {
                count - 3
            } else {
                0
            };
            ValidationReport::UserList { count, sample, remaining }
        },
        None => {
            match &doc {
                JsonValue::Obj(es) => {
                    let m = es.len();
                    let limit: usize = if m < 5 {
                        m
                    } else {
                        5
                    };
                    let mut keys: Vec<String> = Vec::new();
                    let mut i: usize = 0;
                    while i < limit
                        invariant
                            0 <= i <= limit,
                            limit <= es@.len(),
                            keys@.len() == i,
                            forall|j: int|
                                0 <= j < i ==> (#[trigger] keys@[j])@ == es@[j].0@,
                        decreases limit - i,
                    {
                        keys.push(es[i].0.clone());
                        i = i + 1;
                    }
                    proof {
                        assert(keys_view(keys@) =~= keys_of(es@));
                    }
                    ValidationReport::ObjectKeys(keys)
                },
                _ => ValidationReport::Unstructured,
            }
        },
    }
}

} // verus!
