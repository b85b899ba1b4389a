//! The synthetic user-record schema and the deterministic generator.

use vstd::prelude::*;
use vstd::string::StringExecFns;
use crate::text::dec_str;
use crate::text::u32_to_string;

verus! {

/// One synthetic user record, as it is written to and read from a file.
pub struct UserRecord {
    pub id: u32,
    pub name: String,
    pub email: String,
    pub created_at: String,
    pub uuid: String,
}

/// The mathematical image of a record: the same fields as character
/// sequences.
pub struct UserView {
    pub id: u32,
    pub name: Seq<char>,
    pub email: Seq<char>,
    pub created_at: Seq<char>,
    pub uuid: Seq<char>,
}

impl View for UserRecord {
    type V = UserView;

    open spec fn view(&self) -> UserView {
        UserView {
            id: self.id,
            name: self.name@,
            email: self.email@,
            created_at: self.created_at@,
            uuid: self.uuid@,
        }
    }
}

/// The views of a batch of records.
pub open spec fn views_of(us: Seq<UserRecord>) -> Seq<UserView> {
    us.map_values(|u: UserRecord| u@)
}

/// The fixed ordered pool of sixteen placeholder names.
pub open spec fn pool_name(k: int) -> Seq<char> {
    if k == 0 {
        "Aaliyah"@
    } else if k == 1 {
        "Bjorn"@
    } else if k == 2 {
        "Chen"@
    } else if k == 3 {
        "Dimitri"@
    } else if k == 4 {
        "Esperanza"@
    } else if k == 5 {
        "Farid"@
    } else if k == 6 {
        "Giulia"@
    } else if k == 7 {
        "Hiroshi"@
    } else if k == 8 {
        "Ingrid"@
    } else if k == 9 {
        "Jamal"@
    } else if k == 10 {
        "Katya"@
    } else if k == 11 {
        "Liam"@
    } else if k == 12 {
        "Mei"@
    } else if k == 13 {
        "Nadia"@
    } else if k == 14 {
        "Omar"@
    } else {
        "Priya"@
    }
}

/// The pool entry at `k`, as executable code.
pub fn pool_name_exec(k: u32) -> (r: &'static str)
    requires
        k < 16,
    ensures
        r@ == pool_name(k as int),
{
    if k == 0 {
        "Aaliyah"
    } else if k == 1 {
        "Bjorn"
    } else if k == 2 {
        "Chen"
    } else if k == 3 {
        "Dimitri"
    } else if k == 4 {
        "Esperanza"
    } else if k == 5 {
        "Farid"
    } else if k == 6 {
        "Giulia"
    } else if k == 7 {
        "Hiroshi"
    } else if k == 8 {
        "Ingrid"
    } else if k == 9 {
        "Jamal"
    } else if k == 10 {
        "Katya"
    } else if k == 11 {
        "Liam"
    } else if k == 12 {
        "Mei"
    } else if k == 13 {
        "Nadia"
    } else if k == 14 {
        "Omar"
    } else {
        "Priya"
    }
}

/// The name owed to the record with this id: the pool entry at
/// `(id - 1) mod 16` followed by the decimal id.
pub open spec fn spec_user_name(id: u32) -> Seq<char>
    recommends
        id >= 1,
{
    pool_name((id - 1) % 16) + dec_str(id as nat)
}

/// The email owed to the record with this id: `user<id>@example.com`.
pub open spec fn spec_user_email(id: u32) -> Seq<char> {
    "user"@ + dec_str(id as nat) + "@example.com"@
}

fn build_name(id: u32) -> (r: String)
    requires
        id >= 1,
    ensures
        r@ == spec_user_name(id),
{
    let k = (id - 1) % 16;
    let mut s = String::from_str(pool_name_exec(k));
    let digits = u32_to_string(id);
    s.append(digits.as_str());
    s
}

fn build_email(id: u32) -> (r: String)
    ensures
        r@ == spec_user_email(id),
{
    let mut s = String::from_str("user");
    let digits = u32_to_string(id);
    s.append(digits.as_str());
    s.append("@example.com");
    proof {
        assert(s@ =~= spec_user_email(id));
    }
    s
}

/// Relies on uuid's `Uuid::new_v4` and its `Display` form: a fresh random
/// identifier, rendered as the hyphenated form of exactly 36 characters.
#[verifier::external_body]
pub fn fresh_token() -> (r: String)
    ensures
        r@.len() == 36,
{
    uuid::Uuid::new_v4().to_string()
}

/// Relies on chrono's `Utc::now` and `DateTime::to_rfc3339_opts`: the moment
/// of the call, rendered as an RFC 3339 timestamp in UTC. Nothing is claimed
/// of the result, which depends on the clock.
#[verifier::external_body]
pub fn now_timestamp() -> (r: String) {
    chrono::Utc::now().to_rfc3339_opts(chrono::SecondsFormat::Micros, true)
}

/// A batch of exactly `count` records with ids `1..count` ascending, each
/// named and addressed as the id demands.
pub open spec fn batch_ok(us: Seq<UserRecord>, count: u32) -> bool {
    &&& us.len() == count
    &&& forall|i: int|
        0 <= i < us.len() ==> {
            &&& (#[trigger] us[i])@.id == i + 1
            &&& us[i]@.name == spec_user_name((i + 1) as u32)
            &&& us[i]@.email == spec_user_email((i + 1) as u32)
        }
}

/// The ids of a well-formed batch are strictly increasing: unique within
/// the batch and in ascending order.
pub proof fn lemma_batch_ids_strictly_increasing(us: Seq<UserRecord>, count: u32)
    requires
        batch_ok(us, count),
    ensures
        forall|i: int, j: int|
            0 <= i < j < us.len() ==> (#[trigger] us[i])@.id < (#[trigger] us[j])@.id,
{
}

/// Produces exactly `count` records with ids `1..count`, strictly
/// increasing; each name is built from the pool and the id, each email is
/// `user<id>@example.com`. The timestamp and the token are fresh per record.
pub fn generate_records(count: u32) -> (r: Vec<UserRecord>)
    ensures
        r@.len() == count,
        batch_ok(r@, count),
{
    let mut out: Vec<UserRecord> = Vec::new();
    let mut i: u32 = 0;
    while i < count
        invariant
            0 <= i <= count,
            out@.len() == i,
            batch_ok(out@, i),
        decreases count - i,
    {
        let id = i + 1;
        let u = UserRecord {
            id,
            name: build_name(id),
            email: build_email(id),
            created_at: now_timestamp(),
            uuid: fresh_token(),
        };
        out.push(u);
        i = i + 1;
    }
    out
}

} // verus!
