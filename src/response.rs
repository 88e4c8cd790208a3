//! HTTP-shaped replies: 200 with the success value, 500 with `{"error": ...}`.

use vstd::prelude::*;
use crate::error::GatewayError;
use crate::json::{json_quoted, quote};
use crate::storage::UploadResult;

verus! {

/// The content type of every reply.
pub const JSON_CONTENT_TYPE: &'static str = "application/json";

/// A status code and a JSON body.
#[derive(Debug)]
pub struct HttpReply {
    pub status: u16,
    pub body: String,
}

pub open spec fn error_body(message: Seq<char>) -> Seq<char> {
    "{\"error\":"@ + json_quoted(message) + "}"@
}

pub open spec fn flag_text(b: bool) -> Seq<char> {
    if b {
        "true"@
    } else {
        "false"@
    }
}

pub open spec fn upload_body(success: bool, url: Seq<char>, key: Seq<char>) -> Seq<char> {
    "{\"key\":"@ + json_quoted(key) + ",\"success\":"@ + flag_text(success) + ",\"url\":"@
        + json_quoted(url) + "}"@
}

/// The reply for any failure: status 500 and the error's message.
pub fn error_reply(e: &GatewayError) -> (r: HttpReply)
    ensures
        r.status == 500,
        r.body@ == error_body(e.message_view()),
{
    let message = e.message();
    let body = String::from_str("{\"error\":").concat(quote(message.as_str()).as_str()).concat("}");
    HttpReply { status: 500, body }
}

/// The reply for a JSON value already written out: status 200, body unchanged.
pub fn json_reply(body: String) -> (r: HttpReply)
    ensures
        r.status == 200,
        r.body == body,
{
    HttpReply { status: 200, body }
}

/// The reply for a stored image.
pub fn upload_reply(result: &UploadResult) -> (r: HttpReply)
    ensures
        r.status == 200,
        r.body@ == upload_body(result.success, result.url@, result.key@),
{
    let flag = if result.success {
        "true"
    } else {
        "false"
    };
    let body = String::from_str("{\"key\":").concat(quote(result.key.as_str()).as_str()).concat(
        ",\"success\":",
    ).concat(flag).concat(",\"url\":").concat(quote(result.url.as_str()).as_str()).concat("}");
    HttpReply { status: 200, body }
}

/// The reply for the outcome of an upload.
pub fn upload_outcome_reply(outcome: &Result<UploadResult, GatewayError>) -> (r: HttpReply)
    ensures
        outcome matches Ok(u) ==> r.status == 200 && r.body@ == upload_body(u.success, u.url@, u.key@),
        outcome matches Err(e) ==> r.status == 500 && r.body@ == error_body(e.message_view()),
{
    match outcome {
        Ok(u) => upload_reply(u),
        Err(e) => error_reply(e),
    }
}

} // verus!
