//! The HTTP client's verified core: the error taxonomy, the
//! response-normalization rules, and client construction with its
//! precomputed Basic-Auth header.
//!
//! The transport itself (sending requests, reading responses) is outside
//! this crate; it hands every response's status code and body text to the
//! functions here.

use base64::Engine;
use vstd::prelude::*;

use crate::codec::{all_agree, all_shape_ok, sp_get_i32, sp_get_str, vec_from_json, JsonCodec};
use crate::json::{json_parse_spec, jv_get, JsonV, JsonValue};

verus! {

use vstd::string::StringExecFns;

/// The structured error payload the remote API documents: a machine
/// code, a human message and a nested status code.
#[derive(Debug)]
pub struct ErrorResponse {
    pub code: String,
    pub message: String,
    pub data: ErrorData,
}

#[derive(Debug)]
pub struct ErrorData {
    pub status: i32,
}

/// The client's error taxonomy.  Transport failures, API failures and
/// schema mismatches stay distinguishable, so a caller can decide, for
/// one, whether a retry is safe.
#[derive(Debug)]
pub enum WooCommerceHttpError {
    /// The request never completed; carries the transport's own message.
    TransportError(String),
    /// The server answered outside the 2xx range with a body matching the
    /// structured error schema.
    ErrorResponse(ErrorResponse),
    /// The server answered outside the 2xx range with a body that does
    /// not match that schema; carries the raw body text verbatim.
    RawBodyError(String),
    /// A success body did not match the expected resource schema.
    SerdeError(String),
}

/// The outcome of inspecting a response's status: the body of a
/// successful response, or the error a failed one maps to.
pub enum ResponseStatusCheck<T> {
    Success(String),
    Failure(Result<T, WooCommerceHttpError>),
}

/// A request for the transport to perform.
pub enum HttpMethod {
    Get,
    Post,
    Put,
    Delete,
}

pub struct HttpRequest {
    pub method: HttpMethod,
    pub url: String,
    pub body: Option<String>,
}

/// Whether an HTTP status code is in the success range.
pub open spec fn is_success_status(status: int) -> bool {
    200 <= status <= 299
}

/// What the structured error schema `{code, message, data: {status}}`
/// extracts from a body, when the body is a JSON object of that shape.
pub open spec fn error_schema_of(body: Seq<char>) -> Option<(Seq<char>, Seq<char>, int)> {
    match json_parse_spec(body) {
        None => None,
        Some(j) => match (sp_get_str(j, "code"@), sp_get_str(j, "message"@)) {
            (Some(c), Some(m)) => match jv_get(j, "data"@) {
                Some(d) => match sp_get_i32(d, "status"@) {
                    Some(st) => Some((c, m, st)),
                    None => None,
                },
                None => None,
            },
            _ => None,
        },
    }
}

/// Read a failure body as the structured error schema.
pub fn parse_error_body(body: &str) -> (r: Option<ErrorResponse>)
    ensures
        match r {
            Some(er) => error_schema_of(body@) == Some(
                (er.code@, er.message@, er.data.status as int),
            ),
            None => error_schema_of(body@) is None,
        },
{
    let j = match crate::json::parse_json(body) {
        Some(j) => j,
        None => {
            return None;
        },
    };
    let code = match crate::codec::get_string(&j, "code") {
        Some(c) => c,
        None => {
            return None;
        },
    };
    let message = match crate::codec::get_string(&j, "message") {
        Some(m) => m,
        None => {
            return None;
        },
    };
    let data = match j.get("data") {
        Some(d) => d,
        None => {
            return None;
        },
    };
    let status = match crate::codec::get_i32(data, "status") {
        Some(st) => st,
        None => {
            return None;
        },
    };
    Some(ErrorResponse { code, message, data: ErrorData { status } })
}

/// How a failure body is normalized: a structured error when the body
/// matches the error schema, else the raw body verbatim.
pub open spec fn normalized_failure(body: Seq<char>, e: WooCommerceHttpError) -> bool {
    match error_schema_of(body) {
        Some((c, m, st)) => match e {
            WooCommerceHttpError::ErrorResponse(er) => er.code@ == c && er.message@ == m
                && er.data.status as int == st,
            _ => false,
        },
        None => match e {
            WooCommerceHttpError::RawBodyError(b) => b@ == body,
            _ => false,
        },
    }
}

/// The text handed to normalization when a response's body cannot be
/// read at all.
pub fn body_read_failure_message() -> (s: String)
    ensures
        s@ == "Failed to get response body"@,
{
    String::from_str("Failed to get response body")
}

/// Map a transport failure's message into the error taxonomy.
pub fn transport_error(message: String) -> (e: WooCommerceHttpError)
    ensures
        e matches WooCommerceHttpError::TransportError(m) && m@ == message@,
{
    WooCommerceHttpError::TransportError(message)
}

/// The client: the API's base URL and the precomputed Authorization
/// header carried on every request.
pub struct WooHttpClient {
    pub base_url: String,
    pub auth_header: String,
    pub debug: bool,
}

/// Names what `base64`'s standard-alphabet, padded engine returns for
/// the UTF-8 bytes of a string.
pub uninterp spec fn base64_of(s: Seq<char>) -> Seq<char>;

/// Relies on `base64::engine::general_purpose::STANDARD`'s `encode`:
/// its result is a pure function of the input bytes, and encoding an
/// empty input yields an empty string.  It cannot panic for any real
/// string, since a string's byte length is at most `isize::MAX`.
#[verifier::external_body]
fn base64_encode(s: &str) -> (r: String)
    ensures
        r@ == base64_of(s@),
        s@.len() == 0 ==> r@.len() == 0,
{
    base64::engine::general_purpose::STANDARD.encode(s)
}

impl WooHttpClient {
    /// A client for the API at `base_url`, authenticating with HTTP
    /// Basic: the header is `Basic ` followed by the standard base64
    /// encoding of `key:secret`.  Credentials and base URL must be
    /// nonempty; debug tracing starts switched off.
    pub fn new(consumer_key: &str, consumer_secret: &str, base_url: &str) -> (c: WooHttpClient)
        requires
            consumer_key@.len() > 0,
            consumer_secret@.len() > 0,
            base_url@.len() > 0,
        ensures
            c.base_url@ == base_url@,
            c.auth_header@ == "Basic "@ + base64_of(
                consumer_key@ + ":"@ + consumer_secret@,
            ),
            c.debug == false,
    {
        let mut auth = String::from_str(consumer_key);
        auth.append(":");
        auth.append(consumer_secret);
        let encoded = base64_encode(auth.as_str());
        let mut auth_header = String::from_str("Basic ");
        auth_header.append(encoded.as_str());
        WooHttpClient { base_url: String::from_str(base_url), auth_header, debug: false }
    }

    /// Switch verbose request/response tracing on or off.
    pub fn set_debug(&mut self, debug: bool)
        ensures
            final(self).debug == debug,
            final(self).base_url@ == old(self).base_url@,
            final(self).auth_header@ == old(self).auth_header@,
    {
        self.debug = debug;
    }

    /// Inspect a response's status: a 2xx response passes its body on
    /// unmodified; any other response is normalized into the error
    /// taxonomy per `normalized_failure`.
    pub fn check_for_failed_status_code<T>(&self, status: u16, body: String) -> (r:
        ResponseStatusCheck<T>)
        ensures
            is_success_status(status as int) ==> (r matches ResponseStatusCheck::Success(b)
                && b@ == body@),
            !is_success_status(status as int) ==> (r matches ResponseStatusCheck::Failure(inner)
                && inner matches Err(e) && normalized_failure(body@, e)),
    {
        if 200 <= status && status <= 299 {
            return ResponseStatusCheck::Success(body);
        }
        match parse_error_body(body.as_str()) {
            Some(er) => ResponseStatusCheck::Failure(
                Err(WooCommerceHttpError::ErrorResponse(er)),
            ),
            None => ResponseStatusCheck::Failure(Err(WooCommerceHttpError::RawBodyError(body))),
        }
    }
}


/// How a success body decodes into one resource record: the body must
/// be a JSON document of the record's shape; otherwise the result is a
/// schema error.
pub open spec fn decoded_single<X: JsonCodec>(
    body: Seq<char>,
    r: Result<X, WooCommerceHttpError>,
) -> bool {
    match json_parse_spec(body) {
        Some(j) => if X::shape_ok(j) {
            r matches Ok(x) && x.agrees(j)
        } else {
            r matches Err(WooCommerceHttpError::SerdeError(_))
        },
        None => r matches Err(WooCommerceHttpError::SerdeError(_)),
    }
}

/// How a success body decodes into a list of resource records.
pub open spec fn decoded_list<X: JsonCodec>(
    body: Seq<char>,
    r: Result<Vec<X>, WooCommerceHttpError>,
) -> bool {
    match json_parse_spec(body) {
        Some(JsonV::Arr(items)) => if all_shape_ok::<X>(items) {
            r matches Ok(xs) && all_agree(xs@, items)
        } else {
            r matches Err(WooCommerceHttpError::SerdeError(_))
        },
        Some(_) => r matches Err(WooCommerceHttpError::SerdeError(_)),
        None => r matches Err(WooCommerceHttpError::SerdeError(_)),
    }
}

/// Decode a success body as one resource record.
fn decode_single<X: JsonCodec>(body: &str) -> (r: Result<X, WooCommerceHttpError>)
    ensures
        decoded_single(body@, r),
{
    match crate::json::parse_json(body) {
        Some(j) => match X::from_json(&j) {
            Some(x) => Ok(x),
            None => Err(
                WooCommerceHttpError::SerdeError(
                    String::from_str("response body did not match the resource schema"),
                ),
            ),
        },
        None => Err(
            WooCommerceHttpError::SerdeError(String::from_str("response body is not JSON")),
        ),
    }
}

/// Decode a success body as a list of resource records.
fn decode_list<X: JsonCodec>(body: &str) -> (r: Result<Vec<X>, WooCommerceHttpError>)
    ensures
        decoded_list(body@, r),
{
    match crate::json::parse_json(body) {
        Some(j) => match j {
            JsonValue::Arr(items) => match vec_from_json::<X>(&items) {
                Some(xs) => Ok(xs),
                None => Err(
                    WooCommerceHttpError::SerdeError(
                        String::from_str("a list element did not match the resource schema"),
                    ),
                ),
            },
            _ => Err(
                WooCommerceHttpError::SerdeError(String::from_str("response body is not a JSON array")),
            ),
        },
        None => Err(
            WooCommerceHttpError::SerdeError(String::from_str("response body is not JSON")),
        ),
    }
}

impl WooHttpClient {
    /// Normalize a response carrying one resource record: a 2xx body is
    /// decoded; any other response maps into the error taxonomy.
    pub fn handle_single_response<X: JsonCodec>(&self, status: u16, body: String) -> (r: Result<
        X,
        WooCommerceHttpError,
    >)
        ensures
            is_success_status(status as int) ==> decoded_single(body@, r),
            !is_success_status(status as int) ==> (r matches Err(e) && normalized_failure(
                body@,
                e,
            )),
    {
        match self.check_for_failed_status_code::<X>(status, body) {
            ResponseStatusCheck::Success(b) => decode_single(b.as_str()),
            ResponseStatusCheck::Failure(inner) => inner,
        }
    }

    /// Normalize a response for a lookup by id: a `404` reports the
    /// resource as absent rather than as an error; a 2xx body is
    /// decoded; anything else maps into the error taxonomy.
    pub fn handle_get_response<X: JsonCodec>(&self, status: u16, body: String) -> (r: Result<
        Option<X>,
        WooCommerceHttpError,
    >)
        ensures
            status == 404 ==> (r matches Ok(o) && o is None),
            is_success_status(status as int) ==> (match json_parse_spec(body@) {
                Some(j) => if X::shape_ok(j) {
                    r matches Ok(o) && o matches Some(x) && x.agrees(j)
                } else {
                    r matches Err(WooCommerceHttpError::SerdeError(_))
                },
                None => r matches Err(WooCommerceHttpError::SerdeError(_)),
            }),
            !is_success_status(status as int) && status != 404 ==> (r matches Err(e)
                && normalized_failure(body@, e)),
    {
        if status == 404 {
            return Ok(None);
        }
        match self.check_for_failed_status_code::<Option<X>>(status, body) {
            ResponseStatusCheck::Success(b) => match decode_single::<X>(b.as_str()) {
                Ok(x) => Ok(Some(x)),
                Err(e) => Err(e),
            },
            ResponseStatusCheck::Failure(inner) => inner,
        }
    }

    /// Normalize a response carrying a list of resource records.
    pub fn handle_list_response<X: JsonCodec>(&self, status: u16, body: String) -> (r: Result<
        Vec<X>,
        WooCommerceHttpError,
    >)
        ensures
            is_success_status(status as int) ==> decoded_list(body@, r),
            !is_success_status(status as int) ==> (r matches Err(e) && normalized_failure(
                body@,
                e,
            )),
    {
        match self.check_for_failed_status_code::<Vec<X>>(status, body) {
            ResponseStatusCheck::Success(b) => decode_list(b.as_str()),
            ResponseStatusCheck::Failure(inner) => inner,
        }
    }

    /// Normalize a response whose body is not used: a 2xx response is
    /// plain success; anything else maps into the error taxonomy.
    pub fn handle_unit_response(&self, status: u16, body: String) -> (r: Result<
        (),
        WooCommerceHttpError,
    >)
        ensures
            is_success_status(status as int) ==> r is Ok,
            !is_success_status(status as int) ==> (r matches Err(e) && normalized_failure(
                body@,
                e,
            )),
    {
        match self.check_for_failed_status_code::<()>(status, body) {
            ResponseStatusCheck::Success(_) => Ok(()),
            ResponseStatusCheck::Failure(Err(e)) => Err(e),
            // the status check never reports a failure as Ok
            ResponseStatusCheck::Failure(Ok(u)) => Ok(u),
        }
    }

    /// The URL of a collection endpoint under the API root.
    pub fn collection_url(&self, path: &str) -> (u: String)
        ensures
            u@ == self.base_url@ + path@,
    {
        let mut u = String::from_str(self.base_url.as_str());
        u.append(path);
        u
    }

    /// The URL of an item endpoint: the collection path followed by the
    /// item's id in decimal.
    pub fn item_url(&self, path: &str, id: i32) -> (u: String)
        ensures
            u@ == self.base_url@ + path@ + crate::chars::dec_of(id as int),
    {
        let mut u = String::from_str(self.base_url.as_str());
        u.append(path);
        let digits = crate::chars::i64_to_chars(id as i64);
        let ds = crate::chars::chars_to_string(&digits);
        u.append(ds.as_str());
        u
    }

    /// The URL of a collection page: the collection path with `page`
    /// and `per_page` query parameters.
    pub fn page_url(&self, path: &str, page: usize, per_page: usize) -> (u: String)
        ensures
            u@ == self.base_url@ + path@ + "?page="@ + crate::chars::dec_of(page as int)
                + "&per_page="@ + crate::chars::dec_of(per_page as int),
    {
        let mut u = String::from_str(self.base_url.as_str());
        u.append(path);
        u.append("?page=");
        let p1 = crate::chars::chars_to_string(&crate::chars::u64_to_chars(page as u64));
        u.append(p1.as_str());
        u.append("&per_page=");
        let p2 = crate::chars::chars_to_string(&crate::chars::u64_to_chars(per_page as u64));
        u.append(p2.as_str());
        u
    }
}

} // verus!
