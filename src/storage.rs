//! The upload gateway: decoding the image, naming the object, and the URL
//! under which the stored object is published.

use vstd::prelude::*;
use base64::Engine;
use crate::error::GatewayError;
use crate::json::object_members;
use crate::naming::{key_of, resolve, StorageKey};
use crate::request::{decode_upload_request, optional_str, upload_request_of};

verus! {

/// The bytes that standard base64 (with padding) decodes a text to, or `None`
/// when the text is not valid base64.
pub uninterp spec fn base64_decoded(text: Seq<char>) -> Option<Seq<u8>>;

/// The region used when none is configured.
pub const FALLBACK_REGION: &'static str = "us-east-1";

/// The content type every stored image is given.
pub const IMAGE_CONTENT_TYPE: &'static str = "image/jpeg";

/// The virtual-hosted-style URL of an object.
pub open spec fn url_of(bucket: Seq<char>, region: Seq<char>, key: Seq<char>) -> Seq<char> {
    "https://"@ + bucket + ".s3."@ + region + ".amazonaws.com/"@ + key
}

/// The key an upload request is stored under at a given time.
pub open spec fn request_key(
    q: (Seq<char>, Seq<char>, Option<Seq<char>>, Option<Seq<char>>),
    timestamp_ms: int,
) -> Seq<char> {
    key_of(q.2, q.3, q.1, timestamp_ms)
}

/// Relies on base64's `STANDARD` engine `decode`: the bytes a text decodes to,
/// or an error (kept as its message) when it is not valid base64.
#[verifier::external_body]
fn decode_base64(text: &str) -> (r: Result<Vec<u8>, String>)
    ensures
        r is Ok <==> base64_decoded(text@) is Some,
        r matches Ok(bytes) ==> bytes@ == base64_decoded(text@)->Some_0,
{
    base64::engine::general_purpose::STANDARD.decode(text).map_err(|e| e.to_string())
}

/// Relies on chrono's `Utc::now().timestamp_millis()`: the current time in
/// milliseconds since the epoch. Nothing is known of its value.
#[verifier::external_body]
fn now_millis() -> (r: i64) {
    chrono::Utc::now().timestamp_millis()
}

/// The one put operation of an upload.
#[derive(Debug)]
pub struct UploadPlan {
    pub bucket: String,
    pub key: StorageKey,
    pub content_type: String,
    pub body: Vec<u8>,
}

/// What a successful upload reports.
#[derive(Debug)]
pub struct UploadResult {
    pub success: bool,
    pub url: String,
    pub key: String,
}

/// The image bytes of a base64 payload.
pub fn decode_payload(text: &str) -> (r: Result<Vec<u8>, GatewayError>)
    ensures
        r is Ok <==> base64_decoded(text@) is Some,
        r matches Ok(bytes) ==> bytes@ == base64_decoded(text@)->Some_0,
        r matches Err(e) ==> e is InvalidPayload,
{
    match decode_base64(text) {
        Ok(bytes) => Ok(bytes),
        Err(m) => Err(GatewayError::InvalidPayload(m)),
    }
}

/// The region to use: the configured one, or else the fallback.
pub fn region_or_default(configured: Option<String>) -> (r: String)
    ensures
        r@ == match configured {
            Some(c) => c@,
            None => FALLBACK_REGION@,
        },
{
    match configured {
        Some(c) => c,
        None => String::from_str(FALLBACK_REGION),
    }
}

/// The public URL of an object.
pub fn object_url(bucket: &str, region: &str, key: &str) -> (r: String)
    ensures
        r@ == url_of(bucket@, region@, key@),
{
    String::from_str("https://").concat(bucket).concat(".s3.").concat(region).concat(
        ".amazonaws.com/",
    ).concat(key)
}

/// What is reported once the put of `key` into `bucket` in `region` succeeded.
pub fn upload_result(bucket: &str, region: &str, key: &str) -> (r: UploadResult)
    ensures
        r.success,
        r.url@ == url_of(bucket@, region@, key@),
        r.key@ == key@,
{
    UploadResult { success: true, url: object_url(bucket, region, key), key: String::from_str(key) }
}

/// The outcome of a planned put: a failed put is a storage error carrying its
/// message; otherwise the object is published in the region in effect.
pub fn finish_upload(plan: &UploadPlan, region: Option<String>, put_failure: Option<String>) -> (r:
    Result<UploadResult, GatewayError>)
    ensures
        put_failure matches Some(m) ==> (r matches Err(GatewayError::Storage(e)) && e@ == m@),
        put_failure is None ==> (r matches Ok(u) && u.success && u.key@ == plan.key.key@ && u.url@
            == url_of(
            plan.bucket@,
            match region {
                Some(c) => c@,
                None => FALLBACK_REGION@,
            },
            plan.key.key@,
        )),
{
    match put_failure {
        Some(m) => Err(GatewayError::Storage(m)),
        None => {
            let region = region_or_default(region);
            Ok(upload_result(plan.bucket.as_str(), region.as_str(), plan.key.key.as_str()))
        },
    }
}

/// Decides the put for a request body at a given time, given the bucket if
/// one is configured. No put is planned when the bucket is missing, the body
/// cannot be read, or the image is not valid base64.
pub fn plan_upload(bucket: Option<String>, body: &[u8], timestamp_ms: i64) -> (r: Result<
    UploadPlan,
    GatewayError,
>)
    ensures
        bucket is None ==> (r matches Err(e) && e is Configuration),
        bucket is Some ==> (r is Ok <==> object_members(body@) is Some && upload_request_of(
            object_members(body@)->Some_0,
        ) is Some && base64_decoded(
            upload_request_of(object_members(body@)->Some_0)->Some_0.0,
        ) is Some),
        bucket is Some && !(object_members(body@) is Some && upload_request_of(
            object_members(body@)->Some_0,
        ) is Some) ==> (r matches Err(e) && e is MalformedRequest),
        bucket is Some && object_members(body@) is Some && upload_request_of(
            object_members(body@)->Some_0,
        ) is Some && base64_decoded(
            upload_request_of(object_members(body@)->Some_0)->Some_0.0,
        ) is None ==> (r matches Err(e) && e is InvalidPayload),
        r matches Ok(p) ==> {
            let q = upload_request_of(object_members(body@)->Some_0)->Some_0;
            &&& bucket == Some(p.bucket)
            &&& p.key.key@ == request_key(q, timestamp_ms as int)
            &&& p.body@ == base64_decoded(q.0)->Some_0
            &&& p.content_type@ == IMAGE_CONTENT_TYPE@
        },
{
    let bucket = match bucket {
        Some(b) => b,
        None => {
            return Err(
                GatewayError::Configuration(String::from_str("S3_BUCKET environment variable not set")),
            );
        },
    };
    let request = decode_upload_request(body)?;
    let bytes = decode_payload(request.image_data_base64.as_str())?;
    let key = resolve(
        optional_str(&request.mode),
        optional_str(&request.image_name),
        request.user_id.as_str(),
        timestamp_ms,
    );
    Ok(UploadPlan { bucket, key, content_type: String::from_str(IMAGE_CONTENT_TYPE), body: bytes })
}

/// As `plan_upload`, at the current time.
pub fn plan_upload_now(bucket: Option<String>, body: &[u8]) -> (r: Result<UploadPlan, GatewayError>)
    ensures
        bucket is None ==> (r matches Err(e) && e is Configuration),
        bucket is Some ==> (r is Ok <==> object_members(body@) is Some && upload_request_of(
            object_members(body@)->Some_0,
        ) is Some && base64_decoded(
            upload_request_of(object_members(body@)->Some_0)->Some_0.0,
        ) is Some),
        r matches Ok(p) ==> {
            let q = upload_request_of(object_members(body@)->Some_0)->Some_0;
            &&& bucket == Some(p.bucket)
            &&& exists|t: i64| p.key.key@ == request_key(q, t as int)
            &&& p.body@ == base64_decoded(q.0)->Some_0
            &&& p.content_type@ == IMAGE_CONTENT_TYPE@
        },
{
    let now = now_millis();
    plan_upload(bucket, body, now)
}

} // verus!
