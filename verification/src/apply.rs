//! The request handler's decision logic: the credential check and the
//! mapping from a trigger outcome to the HTTP response.
//!
//! Reading the header, running the commands and serialising the body are
//! I/O and happen outside the library; the caller hands in the header value
//! and the reduced [`CommandOutcome`] and gets back the status code and the
//! response envelope as plain values.

use vstd::prelude::*;
use vstd::string::StrSliceExecFns;

use crate::response::ApiResponse;
use crate::text::str_eq;
use crate::trigger::{
    combined_outcome, prev_err_sep, spawn_error_prefix, CommandOutcome, OutcomeModel,
};

verus! {

/// Payload carried by the response envelope for the apply endpoint:
/// a status keyword and the relevant captured output stream.
pub struct ApplyData {
    pub status: String,
    pub response: String,
}

/// Named fields of an apply outcome, for callers that prefer a record to
/// the envelope's free-form payload.
pub struct ApplyResult {
    pub message: String,
    pub stdout: String,
    pub stderr: String,
}

/// The scheme prefix of a `Bearer` credential.
pub open spec fn bearer_prefix() -> Seq<char> {
    "Bearer "@
}

/// A request is authorized exactly when it carries an `Authorization`
/// header whose value is the configured secret itself, or the secret
/// behind a `Bearer ` prefix. A missing header never authorizes.
pub open spec fn authorized_spec(header: Option<Seq<char>>, password: Seq<char>) -> bool {
    match header {
        Some(h) => h == password || h == bearer_prefix() + password,
        None => false,
    }
}

/// The view of an optional header value.
pub open spec fn header_view(header: Option<&str>) -> Option<Seq<char>> {
    match header {
        Some(h) => Some(h@),
        None => None,
    }
}

/// Decide whether the given `Authorization` header value (if any)
/// authorizes the request against the configured secret.
pub fn authorize(header: Option<&str>, password: &str) -> (r: bool)
    ensures
        r == authorized_spec(header_view(header), password@),
{
    match header {
        None => false,
        Some(h) => {
            if str_eq(h, password) {
                return true;
            }
            let hlen = h.unicode_len();
            proof {
                reveal_strlit("Bearer ");
            }
            if hlen < 7 {
                return false;
            }
            let pre = h.substring_char(0, 7);
            let rest = h.substring_char(7, hlen);
            if str_eq(pre, "Bearer ") && str_eq(rest, password) {
                proof {
                    assert(h@ =~= bearer_prefix() + password@);
                }
                true
            } else {
                proof {
                    if h@ == bearer_prefix() + password@ {
                        assert(h@.subrange(0, 7) =~= bearer_prefix());
                        assert(h@.subrange(7, h@.len() as int) =~= password@);
                    }
                }
                false
            }
        },
    }
}

/// HTTP status of the plain-text reply to an unauthorized request.
pub open spec fn unauthorized_status() -> int {
    401
}

/// The plain-text reply to an unauthorized request: HTTP 401 with the body
/// "unauthorized" and no JSON envelope.
pub fn unauthorized_reply() -> (r: (u16, String))
    ensures
        r.0 == unauthorized_status(),
        r.1@ == "unauthorized"@,
{
    (401, "unauthorized".to_owned())
}

/// HTTP status reported for a trigger outcome.
pub open spec fn apply_status(success: bool) -> int {
    if success {
        200
    } else {
        500
    }
}

/// Envelope code reported for a trigger outcome.
pub open spec fn apply_code(success: bool) -> int {
    if success {
        0
    } else {
        -1
    }
}

/// Envelope message reported for a trigger outcome.
pub open spec fn apply_msg(success: bool) -> Seq<char> {
    if success {
        "ok"@
    } else {
        "apply_failed"@
    }
}

/// Status keyword placed in the payload for a trigger outcome.
pub open spec fn apply_data_status(success: bool) -> Seq<char> {
    if success {
        "success"@
    } else {
        "failed"@
    }
}

/// Output stream placed in the payload for a trigger outcome: stdout on
/// success, stderr on failure.
pub open spec fn apply_data_response(o: OutcomeModel) -> Seq<char> {
    if o.success {
        o.stdout
    } else {
        o.stderr
    }
}

/// Map the trigger's reduced outcome to the HTTP status and response
/// envelope for the apply endpoint.
pub fn apply_response(outcome: CommandOutcome) -> (r: (u16, ApiResponse<ApplyData>))
    ensures
        r.0 == apply_status(outcome@.success),
        r.1.code == apply_code(outcome@.success),
        r.1.msg@ == apply_msg(outcome@.success),
        r.1.data.status@ == apply_data_status(outcome@.success),
        r.1.data.response@ == apply_data_response(outcome@),
{
    if outcome.success {
        let data = ApplyData { status: "success".to_owned(), response: outcome.stdout };
        (200, ApiResponse::success(data))
    } else {
        let data = ApplyData { status: "failed".to_owned(), response: outcome.stderr };
        (500, ApiResponse::error("apply_failed", data))
    }
}

/// If the primary command fails to spawn and the fallback spawns and
/// succeeds, the reported response is HTTP 200 with the fallback's stdout.
pub proof fn lemma_spawn_fail_fallback_success(e: String, f: CommandOutcome)
    requires
        f@.success,
    ensures
        ({
            let o = combined_outcome(Err(e), Some(Ok(f)));
            o == f@ && apply_status(o.success) == 200 && apply_data_response(o) == f@.stdout
        }),
{
}

/// If the primary command spawns and fails and the fallback spawns and
/// fails too, the reported response is HTTP 500 with the fallback's stderr
/// followed by the separator and the primary's stderr.
pub proof fn lemma_both_run_and_fail(p: CommandOutcome, f: CommandOutcome)
    requires
        !p@.success,
        !f@.success,
    ensures
        ({
            let o = combined_outcome(Ok(p), Some(Ok(f)));
            !o.success && apply_status(o.success) == 500 && apply_data_response(o) == f@.stderr
                + prev_err_sep() + p@.stderr
        }),
{
}

/// If both the primary and the fallback command fail to spawn, the
/// reported response is HTTP 500 with a spawn-error message naming the
/// primary's spawn error, and no captured output.
pub proof fn lemma_both_spawn_fail(e_primary: String, e_fallback: String)
    ensures
        ({
            let o = combined_outcome(Err(e_primary), Some(Err(e_fallback)));
            !o.success && apply_status(o.success) == 500 && apply_data_response(o)
                == spawn_error_prefix() + e_primary@ && o.stdout == Seq::<char>::empty()
        }),
{
}

/// Envelope invariant: for every response this handler produces, the code
/// is 0 exactly when the message is "ok", exactly when the HTTP status
/// is 200.
pub proof fn lemma_envelope_invariant(success: bool)
    ensures
        apply_code(success) == 0 <==> apply_msg(success) == "ok"@,
        apply_code(success) == 0 <==> apply_status(success) == 200,
{
    reveal_strlit("ok");
    reveal_strlit("apply_failed");
    if !success {
        assert(apply_msg(success).len() != "ok"@.len());
    }
}

} // verus!
