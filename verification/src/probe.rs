//! The decision logic of the API prober: how an observed HTTP outcome is
//! classified, and the two-step users test that never short-circuits.

use vstd::prelude::*;
use vstd::string::StringExecFns;
use crate::records::views_of;
use crate::validate::decode_users;
use crate::validate::decode_users_doc;
use crate::validate::doc_of_text;
use crate::validate::pairs_view;
use crate::validate::parse_document;
use crate::validate::sample_of;
use crate::validate::sample_pairs;

verus! {

/// The outcome of one HTTP exchange, as the caller observed it: either the
/// transport failed before any response arrived, or a response arrived with
/// a status code and a body that could or could not be read as text.
pub enum FetchOutcome {
    Transport(String),
    Http { status: u16, body: Option<String> },
}

/// A status code of the success class.
pub open spec fn is_success_status(s: u16) -> bool {
    200 <= s < 300
}

/// What a health check reports.
pub enum HealthReport {
    /// The transport failed: the error, and a hint naming the service
    /// address. Terminal — nothing is retried.
    Unreachable { error: String, hint: String },
    /// A success status arrived and the body was read: reported verbatim.
    Healthy { status: u16, body: String },
    /// A success status arrived but the body could not be read: a warning,
    /// not a failure of the check.
    BodyUnreadable { status: u16 },
    /// A response arrived with a non-success status; its body is not
    /// interpreted.
    Unhealthy { status: u16 },
}

/// The hint that goes with a transport failure.
pub open spec fn spec_hint(base: Seq<char>) -> Seq<char> {
    "make sure the backend service is running at "@ + base
}

/// Builds the transport-failure hint for a base URL.
pub fn connection_hint(base: &str) -> (r: String)
    ensures
        r@ == spec_hint(base@),
{
    let s = String::from_str("make sure the backend service is running at ");
    s.concat(base)
}

/// Classifies a health-check outcome: a transport failure is terminal and
/// carries the hint; a success status reports the body verbatim when it
/// could be read and a warning when not; any other status is a failure by
/// its code alone.
pub fn health_report(base: &str, outcome: FetchOutcome) -> (r: HealthReport)
    ensures
        outcome matches FetchOutcome::Transport(e) ==> (r matches HealthReport::Unreachable {
            error,
            hint,
        } && error == e && hint@ == spec_hint(base@)),
        outcome matches FetchOutcome::Http { status, body } ==> {
            &&& (is_success_status(status) && body is Some) ==> r == (HealthReport::Healthy {
                status,
                body: body->Some_0,
            })
            &&& (is_success_status(status) && body is None) ==> r == (HealthReport::BodyUnreadable {
                status,
            })
            &&& !is_success_status(status) ==> r == (HealthReport::Unhealthy { status })
        },
{
    match outcome {
        FetchOutcome::Transport(e) => HealthReport::Unreachable {
            error: e,
            hint: connection_hint(base),
        },
        FetchOutcome::Http { status, body } => {
            if 200 <= status && status < 300 {
                match body {
                    Some(b) => HealthReport::Healthy { status, body: b },
                    None => HealthReport::BodyUnreadable { status },
                }
            } else {
                HealthReport::Unhealthy { status }
            }
        },
    }
}

/// What one sub-step of the users test reports.
pub enum StepReport {
    /// The transport failed; the exchange never completed.
    Transport(String),
    /// A non-success status arrived: reported by its code alone.
    StatusFail(u16),
    /// A success status arrived but the body could not be read.
    BodyUnreadable(u16),
    /// A success status arrived and the body was read, but it is not a
    /// record array: reported verbatim.
    Body { status: u16, text: String },
    /// A success status arrived and the body decoded as records: the count
    /// and the first three records' name and email.
    Records { status: u16, count: usize, sample: Vec<(String, String)> },
}

/// The records in a body text, when it parses as JSON and decodes strictly.
pub open spec fn typed_records_of(s: Seq<char>) -> Option<Seq<crate::records::UserView>> {
    match doc_of_text(s) {
        Some(d) => decode_users_doc(d),
        None => None,
    }
}

/// What the GET sub-step must report of its outcome.
pub open spec fn get_step_ok(outcome: FetchOutcome, r: StepReport) -> bool {
    match outcome {
        FetchOutcome::Transport(e) => r == StepReport::Transport(e),
        FetchOutcome::Http { status, body } => {
            if !is_success_status(status) {
                r == StepReport::StatusFail(status)
            } else {
                match body {
                    None => r == StepReport::BodyUnreadable(status),
                    Some(b) => match typed_records_of(b@) {
                        Some(us) => r matches StepReport::Records { status: st, count, sample }
                            && st == status && count == us.len() && pairs_view(sample@)
                            == sample_of(us),
                        None => r == (StepReport::Body { status, text: b }),
                    },
                }
            }
        },
    }
}

/// What the POST sub-step must report of its outcome: as the GET, but the
/// body is never decoded as records.
pub open spec fn post_step_ok(outcome: FetchOutcome, r: StepReport) -> bool {
    match outcome {
        FetchOutcome::Transport(e) => r == StepReport::Transport(e),
        FetchOutcome::Http { status, body } => {
            if !is_success_status(status) {
                r == StepReport::StatusFail(status)
            } else {
                match body {
                    None => r == StepReport::BodyUnreadable(status),
                    Some(b) => r == (StepReport::Body { status, text: b }),
                }
            }
        },
    }
}

fn users_get_report(outcome: FetchOutcome) -> (r: StepReport)
    ensures
        get_step_ok(outcome, r),
{
    match outcome {
        FetchOutcome::Transport(e) => StepReport::Transport(e),
        FetchOutcome::Http { status, body } => {
            if !(200 <= status && status < 300) {
                StepReport::StatusFail(status)
            } else {
                match body {
                    None => StepReport::BodyUnreadable(status),
                    Some(b) => {
                        match parse_document(b.as_str()) {
                            Ok(doc) => match decode_users(&doc) {
                                Some(users) => {
                                    let count = users.len();
                                    let sample = sample_pairs(&users);
                                    StepReport::Records { status, count, sample }
                                },
                                None => StepReport::Body { status, text: b },
                            },
                            Err(_) => StepReport::Body { status, text: b },
                        }
                    },
                }
            }
        },
    }
}

fn users_post_report(outcome: FetchOutcome) -> (r: StepReport)
    ensures
        post_step_ok(outcome, r),
{
    match outcome {
        FetchOutcome::Transport(e) => StepReport::Transport(e),
        FetchOutcome::Http { status, body } => {
            if !(200 <= status && status < 300) {
                StepReport::StatusFail(status)
            } else {
                match body {
                    None => StepReport::BodyUnreadable(status),
                    Some(b) => StepReport::Body { status, text: b },
                }
            }
        },
    }
}

/// Where the users-API test stands: the GET sub-step is owed, then the POST
/// sub-step is owed, then both reports are in hand.
pub enum UsersProbeState {
    GetPending,
    PostPending { get: StepReport },
    Complete { get: StepReport, post: StepReport },
}

/// Starts the users-API test: the GET sub-step is owed first.
pub fn users_probe_start() -> (s: UsersProbeState)
    ensures
        s is GetPending,
{
    UsersProbeState::GetPending
}

/// Takes the GET outcome. Whatever it was — a transport failure, a bad
/// status or a good response — the next state owes the POST sub-step: the
/// test never short-circuits.
pub fn users_probe_on_get(outcome: FetchOutcome) -> (s: UsersProbeState)
    ensures
        s is PostPending,
        s matches UsersProbeState::PostPending { get } ==> get_step_ok(outcome, get),
{
    UsersProbeState::PostPending { get: users_get_report(outcome) }
}

/// Takes the POST outcome and completes the test, keeping the GET report.
pub fn users_probe_on_post(get: StepReport, outcome: FetchOutcome) -> (s: UsersProbeState)
    ensures
        s is Complete,
        s matches UsersProbeState::Complete { get: g, post } ==> g == get && post_step_ok(
            outcome,
            post,
        ),
{
    UsersProbeState::Complete { get, post: users_post_report(outcome) }
}

/// The fixed JSON payload of the POST sub-step: an object of exactly the two
/// string fields `name` and `email`.
pub open spec fn spec_post_payload() -> Seq<char> {
    "{\"name\":\"Test User\",\"email\":\"test@example.com\"}"@
}

/// The POST payload, ready to be sent as a JSON body.
pub fn users_post_payload() -> (r: String)
    ensures
        r@ == spec_post_payload(),
{
    String::from_str("{\"name\":\"Test User\",\"email\":\"test@example.com\"}")
}

} // verus!
