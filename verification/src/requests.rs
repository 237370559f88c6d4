//! The upstream protocol: decoding mining-info and submit-nonce responses
//! out of JSON bodies, building the query paths for both requests, and the
//! bounded-retry decision for submissions. The JSON tree itself comes from
//! serde_json behind trusted wrappers; every decision over the extracted
//! fields is verified.

use crate::digits::dec_chars;
use crate::digits::parse_u64;
use crate::digits::spec_parse_u64;
use crate::digits::lemma_parse_u64_roundtrip;
use crate::digits::u64_to_string;
use vstd::prelude::*;
use vstd::string::StrSliceExecFns;
use vstd::string::StringExecFns;

verus! {

/// One round's descriptor as the upstream announces it.
pub struct MiningInfo {
    pub generation_signature: String,
    pub base_target: u64,
    pub height: u64,
    pub target_deadline: u64,
}

/// The deadline a pool confirms for an accepted nonce.
pub struct SubmitNonceResonse {
    pub deadline: u64,
}

/// A structured rejection from the pool.
pub struct PoolError {
    pub code: i32,
    pub message: String,
}

/// Why a request yielded no usable response.
pub enum FetchError {
    /// The transport failed before a response arrived.
    Http(String),
    /// The pool answered with a structured rejection.
    Pool(PoolError),
    /// The configured timeout won the race against the response.
    Timeout(String),
}

/// The `target_deadline` a round gets when the upstream announces none.
pub fn default_target_deadline() -> (r: u64)
    ensures
        r == u64::MAX,
{
    u64::MAX
}

/// A JSON field as the protocol's union decoding sees it: an unsigned
/// integer, a string, or anything else.
pub enum JsonScalar {
    Uint(u64),
    Text(String),
    Other,
}

/// What the union decoding yields: the integer itself, the value of a
/// string spelling a `u64` numeral, and nothing for anything else.
pub open spec fn spec_from_str_or_int(v: JsonScalar) -> Option<u64> {
    match v {
        JsonScalar::Uint(u) => Some(u),
        JsonScalar::Text(t) => spec_parse_u64(t@),
        JsonScalar::Other => None,
    }
}

/// Union decoding of a numeric field the upstream may send as a JSON
/// integer or as a decimal string.
pub fn from_str_or_int(v: JsonScalar) -> (r: Option<u64>)
    ensures
        r == spec_from_str_or_int(v),
{
    match v {
        JsonScalar::Uint(u) => Some(u),
        JsonScalar::Text(t) => parse_u64(t.as_str()),
        JsonScalar::Other => None,
    }
}

/// A numeral sent as a string decodes to exactly the integer it spells:
/// the union decoding cannot tell `"12345"` from `12345`.
pub proof fn lemma_str_or_int_agree(n: u64, t: String)
    requires
        t@ == dec_chars(n as nat),
    ensures
        spec_from_str_or_int(JsonScalar::Text(t)) == spec_from_str_or_int(JsonScalar::Uint(n)),
        spec_from_str_or_int(JsonScalar::Text(t)) == Some(n),
{
    lemma_parse_u64_roundtrip(n);
}

/// What a mining-info body's fields combine to. The signature must be a
/// string; `baseTarget` and `height` take the union decoding; a missing
/// `targetDeadline` means no cap — `u64::MAX` — while a present one must
/// be a JSON integer.
pub open spec fn spec_mining_info_from_fields(
    gensig: Option<String>,
    base: Option<JsonScalar>,
    height: Option<JsonScalar>,
    tdl: Option<JsonScalar>,
) -> Option<MiningInfo> {
    match (gensig, base, height) {
        (Some(g), Some(b), Some(h)) => match (spec_from_str_or_int(b), spec_from_str_or_int(h)) {
            (Some(bt), Some(ht)) => match tdl {
                None => Some(
                    MiningInfo {
                        generation_signature: g,
                        base_target: bt,
                        height: ht,
                        target_deadline: u64::MAX,
                    },
                ),
                Some(JsonScalar::Uint(t)) => Some(
                    MiningInfo {
                        generation_signature: g,
                        base_target: bt,
                        height: ht,
                        target_deadline: t,
                    },
                ),
                Some(_) => None,
            },
            _ => None,
        },
        _ => None,
    }
}

/// Combines the extracted fields of a mining-info body into the round
/// descriptor, exactly as `spec_mining_info_from_fields` states.
pub fn mining_info_from_fields(
    gensig: Option<String>,
    base: Option<JsonScalar>,
    height: Option<JsonScalar>,
    tdl: Option<JsonScalar>,
) -> (r: Option<MiningInfo>)
    ensures
        r == spec_mining_info_from_fields(gensig, base, height, tdl),
{
    let g = match gensig {
        Some(g) => g,
        None => {
            return None;
        },
    };
    let b = match base {
        Some(b) => b,
        None => {
            return None;
        },
    };
    let h = match height {
        Some(h) => h,
        None => {
            return None;
        },
    };
    let bt = match from_str_or_int(b) {
        Some(v) => v,
        None => {
            return None;
        },
    };
    let ht = match from_str_or_int(h) {
        Some(v) => v,
        None => {
            return None;
        },
    };
    let td = match tdl {
        None => default_target_deadline(),
        Some(JsonScalar::Uint(t)) => t,
        Some(_) => {
            return None;
        },
    };
    Some(
        MiningInfo {
            generation_signature: g,
            base_target: bt,
            height: ht,
            target_deadline: td,
        },
    )
}

/// The characters `String::from_utf8_lossy` reads out of the given bytes.
pub uninterp spec fn utf8_lossy_of(b: Seq<u8>) -> Seq<char>;

/// Relies on String::from_utf8_lossy: decodes the bytes as UTF-8 with
/// replacement characters for invalid sequences; the result depends on
/// the bytes alone.
#[verifier::external_body]
fn utf8_lossy(b: &[u8]) -> (r: String)
    ensures
        r@ == utf8_lossy_of(b@),
{
    String::from_utf8_lossy(b).into_owned()
}

/// What the JSON document in `b` holds under `key`, read as the
/// protocol's scalar union; `None` when `b` is no JSON document or the
/// key is absent from its top-level object.
pub uninterp spec fn json_scalar_field(b: Seq<u8>, key: Seq<char>) -> Option<JsonScalar>;

/// Relies on serde_json (from_slice, Value::get, Value::as_u64,
/// Value::as_str): the top-level field under `key`, as an unsigned
/// integer first, then as a string, anything else opaque; `None` when the
/// bytes are no JSON document or the key is absent. The composition is a
/// function of the bytes and the key alone.
#[verifier::external_body]
fn json_scalar_field_of(b: &[u8], key: &str) -> (r: Option<JsonScalar>)
    ensures
        r == json_scalar_field(b@, key@),
{
    let v: serde_json::Value = match serde_json::from_slice(b) {
        Ok(v) => v,
        Err(_) => return None,
    };
    v.get(key).map(|f| match f.as_u64() {
        Some(u) => JsonScalar::Uint(u),
        None => match f.as_str() {
            Some(s) => JsonScalar::Text(s.to_owned()),
            None => JsonScalar::Other,
        },
    })
}

/// The string the JSON document in `b` holds under `key`; `None` when `b`
/// is no JSON document, the key is absent, or the field is no string.
pub uninterp spec fn json_string_field(b: Seq<u8>, key: Seq<char>) -> Option<String>;

/// Relies on serde_json (from_slice, Value::get, Value::as_str): the
/// top-level string field under `key`; a function of the bytes and the
/// key alone.
#[verifier::external_body]
fn json_string_field_of(b: &[u8], key: &str) -> (r: Option<String>)
    ensures
        r == json_string_field(b@, key@),
{
    match serde_json::from_slice::<serde_json::Value>(b) {
        Ok(v) => v.get(key).and_then(|f| f.as_str()).map(|s| s.to_owned()),
        Err(_) => None,
    }
}

/// The `u64` the JSON document in `b` holds under `key`; `None` when `b`
/// is no JSON document, the key is absent, or the field is no integer in
/// `u64` range.
pub uninterp spec fn json_u64_field(b: Seq<u8>, key: Seq<char>) -> Option<u64>;

/// Relies on serde_json (from_slice, Value::get, Value::as_u64): the
/// top-level unsigned integer field under `key`; a function of the bytes
/// and the key alone.
#[verifier::external_body]
fn json_u64_field_of(b: &[u8], key: &str) -> (r: Option<u64>)
    ensures
        r == json_u64_field(b@, key@),
{
    match serde_json::from_slice::<serde_json::Value>(b) {
        Ok(v) => v.get(key).and_then(|f| f.as_u64()),
        Err(_) => None,
    }
}

/// The `i64` the JSON document in `b` holds under `key`; `None` when `b`
/// is no JSON document, the key is absent, or the field is no integer in
/// `i64` range.
pub uninterp spec fn json_i64_field(b: Seq<u8>, key: Seq<char>) -> Option<i64>;

/// Relies on serde_json (from_slice, Value::get, Value::as_i64): the
/// top-level signed integer field under `key`; a function of the bytes
/// and the key alone.
#[verifier::external_body]
fn json_i64_field_of(b: &[u8], key: &str) -> (r: Option<i64>)
    ensures
        r == json_i64_field(b@, key@),
{
    match serde_json::from_slice::<serde_json::Value>(b) {
        Ok(v) => v.get(key).and_then(|f| f.as_i64()),
        Err(_) => None,
    }
}

/// The code of a nested `{"error": {"code", "message"}}` rejection in
/// `b`; `None` when that path is absent or no `i64` integer.
pub uninterp spec fn json_error_code_field(b: Seq<u8>) -> Option<i64>;

/// Relies on serde_json (from_slice, Value::get, Value::as_i64): the
/// integer under `error.code`; a function of the bytes alone.
#[verifier::external_body]
fn json_error_code_field_of(b: &[u8]) -> (r: Option<i64>)
    ensures
        r == json_error_code_field(b@),
{
    match serde_json::from_slice::<serde_json::Value>(b) {
        Ok(v) => v.get("error").and_then(|e| e.get("code")).and_then(|c| c.as_i64()),
        Err(_) => None,
    }
}

/// The message of a nested `{"error": {"code", "message"}}` rejection in
/// `b`; `None` when that path is absent or no string.
pub uninterp spec fn json_error_message_field(b: Seq<u8>) -> Option<String>;

/// Relies on serde_json (from_slice, Value::get, Value::as_str): the
/// string under `error.message`; a function of the bytes alone.
#[verifier::external_body]
fn json_error_message_field_of(b: &[u8]) -> (r: Option<String>)
    ensures
        r == json_error_message_field(b@),
{
    match serde_json::from_slice::<serde_json::Value>(b) {
        Ok(v) => v.get("error").and_then(|e| e.get("message")).and_then(|m| m.as_str()).map(
            |s| s.to_owned(),
        ),
        Err(_) => None,
    }
}

/// The rejection used when a body holds neither error shape: code 0 and
/// the body itself, decoded lossily, as the message.
pub open spec fn spec_fallback_pool_error(b: Seq<u8>, e: PoolError) -> bool {
    e.code == 0 && e.message@ == utf8_lossy_of(b)
}

/// The flat rejection shape `{"errorCode", "errorDescription"}` the
/// upstream protocol uses; a code outside `i32` or a missing field falls
/// back to the lossy reading.
pub open spec fn spec_flat_pool_error(b: Seq<u8>, e: PoolError) -> bool {
    match (json_i64_field(b, "errorCode"@), json_string_field(b, "errorDescription"@)) {
        (Some(c), Some(m)) => if i32::MIN <= c && c <= i32::MAX {
            e.code == c && e.message == m
        } else {
            spec_fallback_pool_error(b, e)
        },
        _ => spec_fallback_pool_error(b, e),
    }
}

/// The pool-error reading of a body: the nested `{"error": {"code",
/// "message"}}` wrapper first, then the flat `{"errorCode",
/// "errorDescription"}` shape, and otherwise code 0 with the lossily
/// decoded body as the message.
pub open spec fn spec_pool_error(b: Seq<u8>, e: PoolError) -> bool {
    match (json_error_code_field(b), json_error_message_field(b)) {
        (Some(c), Some(m)) => if i32::MIN <= c && c <= i32::MAX {
            e.code == c && e.message == m
        } else {
            spec_flat_pool_error(b, e)
        },
        _ => spec_flat_pool_error(b, e),
    }
}

/// Code 0 with the lossily decoded body as the message.
fn fallback_pool_error(body: &[u8]) -> (e: PoolError)
    ensures
        spec_fallback_pool_error(body@, e),
{
    PoolError { code: 0, message: utf8_lossy(body) }
}

/// Reads the flat `{"errorCode", "errorDescription"}` rejection shape.
fn flat_pool_error(body: &[u8]) -> (e: PoolError)
    ensures
        spec_flat_pool_error(body@, e),
{
    let code = json_i64_field_of(body, "errorCode");
    let message = json_string_field_of(body, "errorDescription");
    match (code, message) {
        (Some(c), Some(m)) => {
            if i32::MIN as i64 <= c && c <= i32::MAX as i64 {
                PoolError { code: c as i32, message: m }
            } else {
                fallback_pool_error(body)
            }
        },
        _ => fallback_pool_error(body),
    }
}

/// Reads a rejection out of a body, exactly as `spec_pool_error` states:
/// the nested wrapper shape first, then the flat protocol shape, then the
/// lossy fallback.
fn pool_error_of(body: &[u8]) -> (e: PoolError)
    ensures
        spec_pool_error(body@, e),
{
    let code = json_error_code_field_of(body);
    let message = json_error_message_field_of(body);
    match (code, message) {
        (Some(c), Some(m)) => {
            if i32::MIN as i64 <= c && c <= i32::MAX as i64 {
                PoolError { code: c as i32, message: m }
            } else {
                flat_pool_error(body)
            }
        },
        _ => flat_pool_error(body),
    }
}

/// Decodes a mining-info body: `Ok` exactly when the extracted
/// `generationSignature`, `baseTarget`, `height` and `targetDeadline`
/// fields combine per `spec_mining_info_from_fields`; any other body
/// yields its pool-error reading.
pub fn parse_mining_info(body: &[u8]) -> (r: Result<MiningInfo, PoolError>)
    ensures
        ({
            let fields = spec_mining_info_from_fields(
                json_string_field(body@, "generationSignature"@),
                json_scalar_field(body@, "baseTarget"@),
                json_scalar_field(body@, "height"@),
                json_scalar_field(body@, "targetDeadline"@),
            );
            match r {
                Ok(mi) => fields == Some(mi),
                Err(e) => fields is None && spec_pool_error(body@, e),
            }
        }),
{
    let gensig = json_string_field_of(body, "generationSignature");
    let base = json_scalar_field_of(body, "baseTarget");
    let height = json_scalar_field_of(body, "height");
    let tdl = json_scalar_field_of(body, "targetDeadline");
    match mining_info_from_fields(gensig, base, height, tdl) {
        Some(mi) => Ok(mi),
        None => Err(pool_error_of(body)),
    }
}

/// Decodes a submit-nonce response body: `Ok` exactly when the body's
/// `deadline` field is a `u64` integer, carrying that value; any other
/// body yields its pool-error reading.
pub fn parse_submit_response(body: &[u8]) -> (r: Result<SubmitNonceResonse, PoolError>)
    ensures
        match r {
            Ok(resp) => json_u64_field(body@, "deadline"@) == Some(resp.deadline),
            Err(e) => json_u64_field(body@, "deadline"@) is None && spec_pool_error(body@, e),
        },
{
    match json_u64_field_of(body, "deadline") {
        Some(d) => Ok(SubmitNonceResonse { deadline: d }),
        None => Err(pool_error_of(body)),
    }
}

/// What a finished submission attempt calls for.
pub enum SubmitAction {
    /// The pool confirmed the submitted deadline; nothing to do.
    Done,
    /// The pool confirmed another deadline: log the mismatch, no retry.
    DeadlineMismatch { submitted: u64, returned: u64 },
    /// The pool rejected the nonce: log it, authoritative, no retry.
    PoolRejection(PoolError),
    /// The transport failed and retries remain: send again.
    Retry,
    /// The transport failed on the last permitted attempt: log exhaustion.
    RetriesExhausted,
}

/// The submitter's decision after one attempt: confirmations end the
/// submission (mismatched deadlines are only warned about), a structured
/// pool rejection is authoritative and never retried, and a transport or
/// timeout failure is retried until the fourth attempt fails.
pub open spec fn spec_submit_action(
    retried: i32,
    submitted_deadline: u64,
    result: Result<SubmitNonceResonse, FetchError>,
) -> SubmitAction {
    match result {
        Ok(resp) => if resp.deadline == submitted_deadline {
            SubmitAction::Done
        } else {
            SubmitAction::DeadlineMismatch {
                submitted: submitted_deadline,
                returned: resp.deadline,
            }
        },
        Err(FetchError::Pool(e)) => SubmitAction::PoolRejection(e),
        Err(_) => if retried < 3 {
            SubmitAction::Retry
        } else {
            SubmitAction::RetriesExhausted
        },
    }
}

/// Decides what one submission attempt's outcome calls for, with
/// `retried` attempts already behind it.
pub fn on_submit_response(
    retried: i32,
    submitted_deadline: u64,
    result: Result<SubmitNonceResonse, FetchError>,
) -> (a: SubmitAction)
    ensures
        a == spec_submit_action(retried, submitted_deadline, result),
{
    match result {
        Ok(resp) => {
            if resp.deadline == submitted_deadline {
                SubmitAction::Done
            } else {
                SubmitAction::DeadlineMismatch {
                    submitted: submitted_deadline,
                    returned: resp.deadline,
                }
            }
        },
        Err(FetchError::Pool(e)) => SubmitAction::PoolRejection(e),
        Err(_) => {
            if retried < 3 {
                SubmitAction::Retry
            } else {
                SubmitAction::RetriesExhausted
            }
        },
    }
}

/// The characters `url::form_urlencoded::byte_serialize` yields for the
/// given input characters' UTF-8 bytes.
pub uninterp spec fn url_byte_serialized(s: Seq<char>) -> Seq<char>;

/// Relies on url::form_urlencoded::byte_serialize: percent-encodes the
/// string's bytes for a query component. The result depends on the input
/// alone, and every input byte yields at least one character, so the
/// result is empty exactly for the empty input.
#[verifier::external_body]
fn byte_serialize_str(s: &str) -> (r: String)
    ensures
        r@ == url_byte_serialized(s@),
        s@.len() == 0 <==> r@.len() == 0,
{
    url::form_urlencoded::byte_serialize(s.as_bytes()).collect()
}

/// What a submit-nonce query path spells: account, nonce and height in
/// decimal, the encoded secret phrase, and — only in pool mode, when the
/// secret phrase is empty — the deadline.
pub open spec fn spec_submit_nonce_path(
    secret_encoded: Seq<char>,
    account_id: u64,
    nonce: u64,
    height: u64,
    deadline: u64,
) -> Seq<char> {
    let base = "/burst?requestType=submitNonce&accountId="@ + dec_chars(account_id as nat)
        + "&nonce="@ + dec_chars(nonce as nat) + "&secretPhrase="@ + secret_encoded
        + "&blockheight="@ + dec_chars(height as nat);
    if secret_encoded.len() == 0 {
        base + "&deadline="@ + dec_chars(deadline as nat)
    } else {
        base
    }
}

/// Builds requests against one upstream: the base URI, the
/// percent-encoded secret phrase, and the request timeout in
/// milliseconds. The transport itself lives with the caller.
pub struct RequestHandler {
    pub base_uri: String,
    pub secret_phrase_encoded: String,
    pub timeout: u64,
}

impl RequestHandler {
    /// Sets up a handler: the secret phrase is percent-encoded once, here.
    pub fn new(base_uri: String, secret_phrase: &str, timeout: u64) -> (r: RequestHandler)
        ensures
            r.base_uri == base_uri,
            r.secret_phrase_encoded@ == url_byte_serialized(secret_phrase@),
            r.secret_phrase_encoded@.len() == 0 <==> secret_phrase@.len() == 0,
            r.timeout == timeout,
    {
        RequestHandler {
            base_uri,
            secret_phrase_encoded: byte_serialize_str(secret_phrase),
            timeout,
        }
    }

    /// The full URI for a query path.
    pub fn uri_for(&self, path: &str) -> (r: String)
        ensures
            r@ == self.base_uri@ + path@,
    {
        let base = self.base_uri.clone();
        base.concat(path)
    }

    /// The query path of a mining-info poll.
    pub fn get_mining_info_path(&self) -> (r: &'static str)
        ensures
            r@ == "/burst?requestType=getMiningInfo"@,
    {
        "/burst?requestType=getMiningInfo"
    }

    /// The query path submitting one nonce, exactly as
    /// `spec_submit_nonce_path` spells it.
    pub fn submit_nonce_path(&self, account_id: u64, nonce: u64, height: u64, deadline: u64) -> (r:
        String)
        ensures
            r@ == spec_submit_nonce_path(
                self.secret_phrase_encoded@,
                account_id,
                nonce,
                height,
                deadline,
            ),
    {
        let mut r = String::from_str("/burst?requestType=submitNonce&accountId=");
        let a = u64_to_string(account_id);
        r.append(a.as_str());
        r.append("&nonce=");
        let n = u64_to_string(nonce);
        r.append(n.as_str());
        r.append("&secretPhrase=");
        r.append(self.secret_phrase_encoded.as_str());
        r.append("&blockheight=");
        let h = u64_to_string(height);
        r.append(h.as_str());
        if self.secret_phrase_encoded.as_str().is_empty() {
            r.append("&deadline=");
            let d = u64_to_string(deadline);
            r.append(d.as_str());
        }
        proof {
            assert(r@ =~= spec_submit_nonce_path(
                self.secret_phrase_encoded@,
                account_id,
                nonce,
                height,
                deadline,
            ));
        }
        r
    }
}

} // verus!
