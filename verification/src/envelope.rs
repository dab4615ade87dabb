//! Reading the response envelope.
//!
//! Every reply the API sends wraps its payload in an envelope whose own
//! `status` field is authoritative; the transport's status is not trusted.
//! This module decodes the envelope out of a [`JsonValue`] tree and
//! interprets it per operation: a successful status yields the typed
//! payload, a known failure status yields its error category, and a
//! malformed envelope yields a decoding error instead of a crash.

use vstd::prelude::*;
use crate::json::JsonValue;
use crate::json::spec_get;
use crate::models::RawAPIResponse;
use crate::models::SellixError;
use crate::models::SellixHttpCode;
use crate::models::UniqidDict;

verus! {

/// The ways a reply body can fail to be an envelope at all, or a
/// nominally successful envelope can fail to carry the payload it owes.
#[derive(Clone, Copy, Debug, PartialEq, Eq, Structural)]
pub enum EnvelopeError {
    /// The reply was not a JSON object.
    NotAnObject,
    /// The reply carries no `status` field.
    MissingStatus,
    /// The `status` field is not a non-negative integer.
    StatusNotANumber,
    /// The status number is none of the known codes; surfaced loudly
    /// rather than coerced to a near miss.
    UnrecognizedStatus { code: u64 },
    /// The status reports success but the payload the operation owes is
    /// absent or has the wrong shape.
    MissingPayload,
}

/// What interpreting a reply can fail with: the server reported a failure
/// status, or the reply did not have the promised envelope shape.
#[derive(Clone, Debug)]
pub enum ApiFailure {
    /// The server answered with a known failure status.
    Remote(SellixError),
    /// The reply body was not the envelope the API promises.
    Malformed(EnvelopeError),
}

/// The `status` number of `v`, when `v` is an object whose `status` field
/// is a non-negative integer.
pub open spec fn spec_status_code(v: JsonValue) -> Option<u64> {
    match spec_get(v, "status"@) {
        None => None,
        Some(sv) => sv.spec_as_u64(),
    }
}

/// The status of `v`'s envelope, when it has one and it is recognized.
pub open spec fn spec_status_of(v: JsonValue) -> Option<SellixHttpCode> {
    match spec_status_code(v) {
        None => None,
        Some(code) => SellixHttpCode::spec_from_code(code),
    }
}

/// Why `v` fails to be an envelope, or `None` when it is one.
pub open spec fn spec_envelope_err(v: JsonValue) -> Option<EnvelopeError> {
    if !(v is Obj) {
        Some(EnvelopeError::NotAnObject)
    } else {
        match spec_get(v, "status"@) {
            None => Some(EnvelopeError::MissingStatus),
            Some(sv) => match sv.spec_as_u64() {
                None => Some(EnvelopeError::StatusNotANumber),
                Some(code) => match SellixHttpCode::spec_from_code(code) {
                    None => Some(EnvelopeError::UnrecognizedStatus { code }),
                    Some(_) => None,
                },
            },
        }
    }
}

/// The payload of `v`'s envelope: its `data` field, with an absent or
/// null field standing for no payload.
pub open spec fn spec_data_of(v: JsonValue) -> Option<JsonValue> {
    match spec_get(v, "data"@) {
        None => None,
        Some(d) => if d is Null {
            None
        } else {
            Some(d)
        },
    }
}

/// The text of a diagnostic field of `v`: present only when the field is
/// there and is a string.
pub open spec fn spec_str_field(v: JsonValue, key: Seq<char>) -> Option<Seq<char>> {
    match spec_get(v, key) {
        None => None,
        Some(f) => f.spec_as_str(),
    }
}

/// The environment tag of `v`'s envelope; a reply that omits it is read
/// as the empty tag rather than rejected.
pub open spec fn spec_env_text(v: JsonValue) -> Seq<char> {
    match spec_str_field(v, "env"@) {
        None => Seq::<char>::empty(),
        Some(e) => e,
    }
}

/// The failure status `v`'s envelope reports, if the envelope is sound
/// and its status is not success.
pub open spec fn spec_remote_failure(v: JsonValue) -> Option<SellixHttpCode> {
    if spec_envelope_err(v) is Some {
        None
    } else {
        match spec_status_of(v) {
            Some(status) => if status == SellixHttpCode::Success {
                None
            } else {
                Some(status)
            },
            None => None,
        }
    }
}

/// Reads the string field `key` of `v`, cloned out of the tree.
fn read_str_field(v: &JsonValue, key: &str) -> (r: Option<String>)
    ensures
        match r {
            Some(s) => spec_str_field(*v, key@) == Some(s@),
            None => spec_str_field(*v, key@) is None,
        },
{
    match v.get(key) {
        None => None,
        Some(f) => f.as_string(),
    }
}

/// Decodes the envelope out of a reply body. Succeeds exactly when the
/// body is an object whose `status` field is a recognized code; the
/// payload and the diagnostic fields are carried along as found.
pub fn read_envelope<'a>(v: &'a JsonValue) -> (r: Result<
    RawAPIResponse<&'a JsonValue>,
    EnvelopeError,
>)
    ensures
        match r {
            Ok(envl) => {
                &&& spec_envelope_err(*v) is None
                &&& Some(envl.status) == spec_status_of(*v)
                &&& match envl.data {
                    Some(d) => spec_data_of(*v) == Some(*d),
                    None => spec_data_of(*v) is None,
                }
                &&& match envl.message {
                    Some(m) => spec_str_field(*v, "message"@) == Some(m@),
                    None => spec_str_field(*v, "message"@) is None,
                }
                &&& match envl.log {
                    Some(l) => spec_str_field(*v, "log"@) == Some(l@),
                    None => spec_str_field(*v, "log"@) is None,
                }
                &&& match envl.error {
                    Some(e) => spec_str_field(*v, "error"@) == Some(e@),
                    None => spec_str_field(*v, "error"@) is None,
                }
                &&& envl.env@ == spec_env_text(*v)
            },
            Err(e) => spec_envelope_err(*v) == Some(e),
        },
{
    if !matches!(v, JsonValue::Obj(_)) {
        return Err(EnvelopeError::NotAnObject);
    }
    let status_field = match v.get("status") {
        Some(sv) => sv,
        None => {
            return Err(EnvelopeError::MissingStatus);
        },
    };
    let code = match status_field.as_u64() {
        Some(c) => c,
        None => {
            return Err(EnvelopeError::StatusNotANumber);
        },
    };
    let status = match SellixHttpCode::from_code(code) {
        Some(s) => s,
        None => {
            return Err(EnvelopeError::UnrecognizedStatus { code });
        },
    };
    let data = match v.get("data") {
        None => None,
        Some(d) => if d.is_null() {
            None
        } else {
            Some(d)
        },
    };
    let env = match read_str_field(v, "env") {
        Some(e) => e,
        None => String::new(),
    };
    Ok(RawAPIResponse {
        status,
        data,
        message: read_str_field(v, "message"),
        log: read_str_field(v, "log"),
        error: read_str_field(v, "error"),
        env,
    })
}

} // verus!

verus! {

/// The payload field `key` inside `v`'s `data`, when both are there.
pub open spec fn spec_get_payload(v: JsonValue, key: Seq<char>) -> Option<JsonValue> {
    match spec_data_of(v) {
        None => None,
        Some(d) => spec_get(d, key),
    }
}

/// The items of the array payload `key` inside `v`'s `data`.
pub open spec fn spec_list_items(v: JsonValue, key: Seq<char>) -> Option<Seq<JsonValue>> {
    match spec_get_payload(v, key) {
        Some(JsonValue::Arr(items)) => Some(items@),
        _ => None,
    }
}

/// The identifier a create reply carries: `data.uniqid`, when it is a
/// string.
pub open spec fn spec_create_uniqid(v: JsonValue) -> Option<Seq<char>> {
    match spec_get_payload(v, "uniqid"@) {
        None => None,
        Some(u) => u.spec_as_str(),
    }
}

/// Decodes the envelope and requires a successful status: a malformed
/// body becomes a decoding failure, a known failure status becomes the
/// error category it stands for.
fn check_success<'a>(v: &'a JsonValue) -> (r: Result<Option<&'a JsonValue>, ApiFailure>)
    ensures
        match r {
            Ok(data) => {
                &&& spec_envelope_err(*v) is None
                &&& spec_status_of(*v) == Some(SellixHttpCode::Success)
                &&& match data {
                    Some(d) => spec_data_of(*v) == Some(*d),
                    None => spec_data_of(*v) is None,
                }
            },
            Err(ApiFailure::Remote(e)) => {
                &&& spec_remote_failure(*v) == Some(e.kind)
                &&& e.message@ == e.kind.spec_name() + " - "@ + e.kind.spec_description()
            },
            Err(ApiFailure::Malformed(err)) => spec_envelope_err(*v) == Some(err),
        },
{
    let envl = match read_envelope(v) {
        Ok(envl) => envl,
        Err(e) => {
            return Err(ApiFailure::Malformed(e));
        },
    };
    if !matches!(envl.status, SellixHttpCode::Success) {
        return Err(ApiFailure::Remote(SellixError::from_status(envl.status)));
    }
    Ok(envl.data)
}

/// Interprets the reply to an edit: success is owed exactly when the
/// envelope's status reports success, whether or not a payload came along.
pub fn interpret_edit(v: &JsonValue) -> (r: Result<bool, ApiFailure>)
    ensures
        match r {
            Ok(b) => {
                &&& spec_envelope_err(*v) is None
                &&& spec_status_of(*v) == Some(SellixHttpCode::Success)
                &&& b == true
            },
            Err(ApiFailure::Remote(e)) => {
                &&& spec_remote_failure(*v) == Some(e.kind)
                &&& e.message@ == e.kind.spec_name() + " - "@ + e.kind.spec_description()
            },
            Err(ApiFailure::Malformed(err)) => spec_envelope_err(*v) == Some(err),
        },
{
    match check_success(v) {
        Ok(_) => Ok(true),
        Err(e) => Err(e),
    }
}

/// Interprets the reply to a delete, exactly as an edit's: only the
/// envelope's status decides.
pub fn interpret_delete(v: &JsonValue) -> (r: Result<bool, ApiFailure>)
    ensures
        match r {
            Ok(b) => {
                &&& spec_envelope_err(*v) is None
                &&& spec_status_of(*v) == Some(SellixHttpCode::Success)
                &&& b == true
            },
            Err(ApiFailure::Remote(e)) => {
                &&& spec_remote_failure(*v) == Some(e.kind)
                &&& e.message@ == e.kind.spec_name() + " - "@ + e.kind.spec_description()
            },
            Err(ApiFailure::Malformed(err)) => spec_envelope_err(*v) == Some(err),
        },
{
    match check_success(v) {
        Ok(_) => Ok(true),
        Err(e) => Err(e),
    }
}

/// Interprets the reply to a create: a successful envelope owes a
/// payload carrying the identifier the server assigned.
pub fn interpret_create(v: &JsonValue) -> (r: Result<UniqidDict, ApiFailure>)
    ensures
        match r {
            Ok(dict) => {
                &&& spec_envelope_err(*v) is None
                &&& spec_status_of(*v) == Some(SellixHttpCode::Success)
                &&& spec_create_uniqid(*v) == Some(dict.uniqid@)
            },
            Err(ApiFailure::Remote(e)) => {
                &&& spec_remote_failure(*v) == Some(e.kind)
                &&& e.message@ == e.kind.spec_name() + " - "@ + e.kind.spec_description()
            },
            Err(ApiFailure::Malformed(err)) => {
                ||| spec_envelope_err(*v) == Some(err)
                ||| {
                    &&& err == EnvelopeError::MissingPayload
                    &&& spec_envelope_err(*v) is None
                    &&& spec_status_of(*v) == Some(SellixHttpCode::Success)
                    &&& spec_create_uniqid(*v) is None
                }
            },
        },
{
    let data = match check_success(v) {
        Ok(data) => data,
        Err(e) => {
            return Err(e);
        },
    };
    let d = match data {
        Some(d) => d,
        None => {
            return Err(ApiFailure::Malformed(EnvelopeError::MissingPayload));
        },
    };
    let uniqid = match d.get("uniqid") {
        Some(u) => u,
        None => {
            return Err(ApiFailure::Malformed(EnvelopeError::MissingPayload));
        },
    };
    match uniqid.as_string() {
        Some(s) => Ok(UniqidDict { uniqid: s }),
        None => Err(ApiFailure::Malformed(EnvelopeError::MissingPayload)),
    }
}

/// Interprets the reply to a get: a successful envelope owes a payload
/// holding the resource record under the resource's own field name.
pub fn interpret_get<'a>(v: &'a JsonValue, key: &str) -> (r: Result<&'a JsonValue, ApiFailure>)
    ensures
        match r {
            Ok(record) => {
                &&& spec_envelope_err(*v) is None
                &&& spec_status_of(*v) == Some(SellixHttpCode::Success)
                &&& spec_get_payload(*v, key@) == Some(*record)
            },
            Err(ApiFailure::Remote(e)) => {
                &&& spec_remote_failure(*v) == Some(e.kind)
                &&& e.message@ == e.kind.spec_name() + " - "@ + e.kind.spec_description()
            },
            Err(ApiFailure::Malformed(err)) => {
                ||| spec_envelope_err(*v) == Some(err)
                ||| {
                    &&& err == EnvelopeError::MissingPayload
                    &&& spec_envelope_err(*v) is None
                    &&& spec_status_of(*v) == Some(SellixHttpCode::Success)
                    &&& spec_get_payload(*v, key@) is None
                }
            },
        },
{
    let data = match check_success(v) {
        Ok(data) => data,
        Err(e) => {
            return Err(e);
        },
    };
    let d = match data {
        Some(d) => d,
        None => {
            return Err(ApiFailure::Malformed(EnvelopeError::MissingPayload));
        },
    };
    match d.get(key) {
        Some(record) => Ok(record),
        None => Err(ApiFailure::Malformed(EnvelopeError::MissingPayload)),
    }
}

/// Interprets the reply to a listing: a successful envelope owes an array
/// payload under the resource's plural field name. An out-of-range page
/// simply comes back as an empty array, which is a successful, empty
/// listing rather than an error.
pub fn interpret_list<'a>(v: &'a JsonValue, key: &str) -> (r: Result<&'a Vec<JsonValue>, ApiFailure>)
    ensures
        match r {
            Ok(items) => {
                &&& spec_envelope_err(*v) is None
                &&& spec_status_of(*v) == Some(SellixHttpCode::Success)
                &&& spec_list_items(*v, key@) == Some(items@)
            },
            Err(ApiFailure::Remote(e)) => {
                &&& spec_remote_failure(*v) == Some(e.kind)
                &&& e.message@ == e.kind.spec_name() + " - "@ + e.kind.spec_description()
            },
            Err(ApiFailure::Malformed(err)) => {
                ||| spec_envelope_err(*v) == Some(err)
                ||| {
                    &&& err == EnvelopeError::MissingPayload
                    &&& spec_envelope_err(*v) is None
                    &&& spec_status_of(*v) == Some(SellixHttpCode::Success)
                    &&& spec_list_items(*v, key@) is None
                }
            },
        },
{
    let data = match check_success(v) {
        Ok(data) => data,
        Err(e) => {
            return Err(e);
        },
    };
    let d = match data {
        Some(d) => d,
        None => {
            return Err(ApiFailure::Malformed(EnvelopeError::MissingPayload));
        },
    };
    let field = match d.get(key) {
        Some(f) => f,
        None => {
            return Err(ApiFailure::Malformed(EnvelopeError::MissingPayload));
        },
    };
    match field {
        JsonValue::Arr(items) => Ok(items),
        _ => Err(ApiFailure::Malformed(EnvelopeError::MissingPayload)),
    }
}

/// Deleting what is already gone is stable: a reply whose envelope
/// reports not-found makes every interpretation of a delete yield the
/// not-found category, so repeating the delete against the same reply
/// yields the same error category again, never a different one.
pub proof fn lemma_delete_idempotent_error(v: JsonValue)
    requires
        spec_envelope_err(v) is None,
        spec_status_of(v) == Some(SellixHttpCode::NotFound),
    ensures
        spec_remote_failure(v) == Some(SellixHttpCode::NotFound),
{
}

} // verus!
