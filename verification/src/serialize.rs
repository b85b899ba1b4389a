//! The pretty-printed JSON encoding of a batch of user records.

use vstd::prelude::*;
use vstd::string::StringExecFns;
use crate::json::json_quote;
use crate::json::json_quote_exec;
use crate::records::UserRecord;
use crate::records::UserView;
use crate::records::batch_ok;
use crate::records::generate_records;
use crate::records::views_of;
use crate::text::dec_str;
use crate::text::u32_to_string;

verus! {

/// The text of one record inside the array: an object of the five fields,
/// in schema order, indented by two levels of two spaces.
pub open spec fn obj_text(u: UserView) -> Seq<char> {
    "  {\n    \"id\": "@ + dec_str(u.id as nat) + ",\n    \"name\": "@ + json_quote(u.name)
        + ",\n    \"email\": "@ + json_quote(u.email) + ",\n    \"created_at\": "@ + json_quote(
        u.created_at,
    ) + ",\n    \"uuid\": "@ + json_quote(u.uuid) + "\n  }"@
}

/// The records' objects joined by a comma and a line break.
pub open spec fn entries_text(us: Seq<UserView>) -> Seq<char>
    decreases us.len(),
{
    if us.len() == 0 {
        Seq::empty()
    } else if us.len() == 1 {
        obj_text(us[0])
    } else {
        entries_text(us.drop_last()) + ",\n"@ + obj_text(us.last())
    }
}

/// The whole document: `[]` for an empty batch, else the entries between
/// bracket lines.
pub open spec fn users_json(us: Seq<UserView>) -> Seq<char> {
    if us.len() == 0 {
        "[]"@
    } else {
        "[\n"@ + entries_text(us) + "\n]"@
    }
}

fn append_obj(out: &mut String, u: &UserRecord)
    ensures
        final(out)@ == old(out)@ + obj_text(u@),
{
    out.append("  {\n    \"id\": ");
    let digits = u32_to_string(u.id);
    out.append(digits.as_str());
    out.append(",\n    \"name\": ");
    let q_name = json_quote_exec(u.name.as_str());
    out.append(q_name.as_str());
    out.append(",\n    \"email\": ");
    let q_email = json_quote_exec(u.email.as_str());
    out.append(q_email.as_str());
    out.append(",\n    \"created_at\": ");
    let q_created = json_quote_exec(u.created_at.as_str());
    out.append(q_created.as_str());
    out.append(",\n    \"uuid\": ");
    let q_uuid = json_quote_exec(u.uuid.as_str());
    out.append(q_uuid.as_str());
    out.append("\n  }");
    proof {
        assert(out@ =~= old(out)@ + obj_text(u@));
    }
}

/// Renders the batch as a pretty-printed JSON array, exactly as `users_json`
/// says: an empty batch becomes the two characters `[]`.
pub fn users_to_json(users: &Vec<UserRecord>) -> (r: String)
    ensures
        r@ == users_json(views_of(users@)),
{
    let n = users.len();
    if n == 0 {
        let r = String::from_str("[]");
        return r;
    }
    let mut out = String::from_str("[\n");
    let mut i: usize = 0;
    while i < n
        invariant
            0 <= i <= n,
            n == users@.len(),
            n >= 1,
            out@ == "[\n"@ + entries_text(views_of(users@).take(i as int)),
        decreases n - i,
    {
        if i > 0 {
            out.append(",\n");
        }
        append_obj(&mut out, &users[i]);
        proof {
            let vs = views_of(users@);
            assert(vs[i as int] == users@[i as int]@);
            assert(vs.take(i + 1).drop_last() =~= vs.take(i as int));
            assert(vs.take(i + 1).last() == vs[i as int]);
            if i == 0 {
                assert(vs.take(0) =~= Seq::<UserView>::empty());
                assert(entries_text(vs.take(0)) == Seq::<char>::empty());
                assert(out@ =~= "[\n"@ + entries_text(vs.take(1)));
            } else {
                assert(entries_text(vs.take(i + 1)) == entries_text(vs.take(i as int)) + ",\n"@
                    + obj_text(vs[i as int]));
                assert(out@ =~= "[\n"@ + entries_text(vs.take(i + 1)));
            }
        }
        i = i + 1;
    }
    out.append("\n]");
    proof {
        assert(views_of(users@).take(n as int) =~= views_of(users@));
        assert(out@ =~= users_json(views_of(users@)));
    }
    out
}

/// Builds a fresh batch of `count` records and its JSON document, ready to
/// be written to a file.
pub fn generate_users_document(count: u32) -> (r: (Vec<UserRecord>, String))
    ensures
        batch_ok(r.0@, count),
        r.1@ == users_json(views_of(r.0@)),
{
    let recs = generate_records(count);
    let text = users_to_json(&recs);
    (recs, text)
}

} // verus!
