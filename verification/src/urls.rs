//! Best-effort URL normalization for the API prober.

use vstd::prelude::*;
use vstd::string::StringExecFns;
use crate::text::contains_str;
use crate::text::ends_with_str;
use crate::text::seq_contains_pat;
use crate::text::seq_ends_with;
use crate::text::seq_matches_at;

verus! {

/// The health endpoint: a base that already ends with `/health` is kept;
/// anything else gets `/api/health` appended.
pub open spec fn spec_health_url(base: Seq<char>) -> Seq<char> {
    if seq_ends_with(base, "/health"@) {
        base
    } else {
        base + "/api/health"@
    }
}

/// The users endpoint: a base that already holds `/api/users` anywhere is
/// kept; anything else gets `/api/users` appended.
pub open spec fn spec_users_url(base: Seq<char>) -> Seq<char> {
    if seq_contains_pat(base, "/api/users"@) {
        base
    } else {
        base + "/api/users"@
    }
}

/// Normalizes a base URL to the health endpoint, exactly as
/// `spec_health_url` says.
pub fn normalize_health_url(base: &str) -> (r: String)
    ensures
        r@ == spec_health_url(base@),
{
    if ends_with_str(base, "/health") {
        base.to_owned()
    } else {
        let s = base.to_owned();
        s.concat("/api/health")
    }
}

/// Normalizes a base URL to the users endpoint, exactly as `spec_users_url`
/// says.
pub fn normalize_users_url(base: &str) -> (r: String)
    ensures
        r@ == spec_users_url(base@),
{
    if contains_str(base, "/api/users") {
        base.to_owned()
    } else {
        let s = base.to_owned();
        s.concat("/api/users")
    }
}

/// A normalized health URL always ends with `/health`.
pub proof fn lemma_health_url_suffix(base: Seq<char>)
    ensures
        seq_ends_with(spec_health_url(base), "/health"@),
{
    reveal_strlit("/health");
    reveal_strlit("/api/health");
    if !seq_ends_with(base, "/health"@) {
        let r = base + "/api/health"@;
        assert(r.skip(r.len() - 7) =~= "/health"@);
    }
}

/// Normalizing a health URL twice is the same as normalizing it once.
pub proof fn lemma_health_url_idempotent(base: Seq<char>)
    ensures
        spec_health_url(spec_health_url(base)) == spec_health_url(base),
{
    lemma_health_url_suffix(base);
}

/// A normalized users URL always holds `/api/users`.
pub proof fn lemma_users_url_present(base: Seq<char>)
    ensures
        seq_contains_pat(spec_users_url(base), "/api/users"@),
{
    if !seq_contains_pat(base, "/api/users"@) {
        let r = base + "/api/users"@;
        assert(r.subrange(base.len() as int, (base.len() + "/api/users"@.len()) as int) =~= "/api/users"@);
        assert(seq_matches_at(r, "/api/users"@, base.len() as int));
    }
}

/// Normalizing a users URL twice is the same as normalizing it once.
pub proof fn lemma_users_url_idempotent(base: Seq<char>)
    ensures
        spec_users_url(spec_users_url(base)) == spec_users_url(base),
{
    lemma_users_url_present(base);
}

} // verus!
