//! The uniform response envelope.
//!
//! Every call answers with one JSON object: `ok` (boolean); on success a
//! `result`; on failure an `error_code` and a `description`, with optional
//! `parameters` hints.  Exactly one of the two sides may be present.
//! Decoding enforces that invariant and yields either the raw result value
//! or a structured error.

use vstd::prelude::*;
use crate::json::{
    JsonV, JsonValue, jv, jv_fields, get_bool, get_int, get_str, obj_get, lookup, index_of,
    read_bool, read_int, read_str, read_obj,
};
use crate::error::{Error, ErrorV, ApiError, ApiErrorV};

verus! {

/// The retry and migration hints an error envelope may carry.
pub open spec fn spec_envelope_params(f: Seq<(Seq<char>, JsonV)>) -> Result<
    (Option<i64>, Option<i64>),
    ErrorV,
> {
    match obj_get(f, "parameters"@) {
        None => Ok((None, None)),
        Some(JsonV::Obj(p)) => Ok(
            (get_int(p, "retry_after"@), get_int(p, "migrate_to_chat_id"@)),
        ),
        Some(_) => Err(ErrorV::Decode("parameters field is not an object"@)),
    }
}

/// What decoding an envelope yields: the raw `result` on `ok=true`, a
/// structured `Api` error on `ok=false`, and a `Decode` error wherever the
/// object breaks the envelope invariant.
pub open spec fn spec_decode_envelope(v: JsonV) -> Result<JsonV, ErrorV> {
    match v {
        JsonV::Obj(f) => match get_bool(f, "ok"@) {
            Some(true) => if obj_get(f, "error_code"@) is Some || obj_get(f, "description"@)
                is Some {
                Err(ErrorV::Decode("ok envelope carries error fields"@))
            } else {
                match obj_get(f, "result"@) {
                    Some(r) => Ok(r),
                    None => Err(ErrorV::Decode("ok envelope has no result"@)),
                }
            },
            Some(false) => if obj_get(f, "result"@) is Some {
                Err(ErrorV::Decode("error envelope carries a result"@))
            } else {
                match (get_int(f, "error_code"@), get_str(f, "description"@)) {
                    (Some(code), Some(description)) => match spec_envelope_params(f) {
                        Ok((retry_after, migrate_to_chat_id)) => Err(
                            ErrorV::Api(
                                ApiErrorV {
                                    code,
                                    description,
                                    retry_after,
                                    migrate_to_chat_id,
                                },
                            ),
                        ),
                        Err(e) => Err(e),
                    },
                    _ => Err(ErrorV::Decode("error envelope lacks code or description"@)),
                }
            },
            None => Err(ErrorV::Decode("envelope has no boolean ok field"@)),
        },
        _ => Err(ErrorV::Decode("envelope is not an object"@)),
    }
}

/// Decode the envelope object, returning the raw `result` value or the
/// error the envelope describes.
pub fn decode_envelope(v: JsonValue) -> (r: Result<JsonValue, Error>)
    ensures
        match r {
            Ok(res) => spec_decode_envelope(v@) == Ok::<JsonV, ErrorV>(res@),
            Err(e) => spec_decode_envelope(v@) == Err::<JsonV, ErrorV>(e@),
        },
{
    match v {
        JsonValue::Obj(mut fields) => {
            let ok = read_bool(&fields, &String::from_str("ok"));
            match ok {
                Some(true) => {
                    let has_code = lookup(&fields, &String::from_str("error_code")).is_some();
                    let has_desc = lookup(&fields, &String::from_str("description")).is_some();
                    if has_code || has_desc {
                        return Err(Error::Decode(String::from_str(
                            "ok envelope carries error fields",
                        )));
                    }
                    match index_of(&fields, &String::from_str("result")) {
                        Some(i) => {
                            let pair = fields.remove(i);
                            Ok(pair.1)
                        },
                        None => Err(Error::Decode(String::from_str("ok envelope has no result"))),
                    }
                },
                Some(false) => {
                    if lookup(&fields, &String::from_str("result")).is_some() {
                        return Err(Error::Decode(String::from_str(
                            "error envelope carries a result",
                        )));
                    }
                    let code = read_int(&fields, &String::from_str("error_code"));
                    let description = read_str(&fields, &String::from_str("description"));
                    match (code, description) {
                        (Some(code), Some(description)) => {
                            let params = lookup(&fields, &String::from_str("parameters"));
                            match params {
                                None => Err(Error::Api(ApiError {
                                    code,
                                    description,
                                    retry_after: None,
                                    migrate_to_chat_id: None,
                                })),
                                Some(JsonValue::Obj(p)) => {
                                    let retry_after = read_int(p, &String::from_str("retry_after"));
                                    let migrate_to_chat_id = read_int(
                                        p,
                                        &String::from_str("migrate_to_chat_id"),
                                    );
                                    Err(Error::Api(ApiError {
                                        code,
                                        description,
                                        retry_after,
                                        migrate_to_chat_id,
                                    }))
                                },
                                Some(_) => Err(Error::Decode(String::from_str(
                                    "parameters field is not an object",
                                ))),
                            }
                        },
                        _ => Err(Error::Decode(String::from_str(
                            "error envelope lacks code or description",
                        ))),
                    }
                },
                None => Err(Error::Decode(String::from_str("envelope has no boolean ok field"))),
            }
        },
        _ => Err(Error::Decode(String::from_str("envelope is not an object"))),
    }
}

/// An envelope whose `ok` field is false never decodes successfully, and a
/// structured server error surfaces the code and the description together,
/// exactly as the envelope carried them.
pub proof fn lemma_error_envelope_never_ok(f: Seq<(Seq<char>, JsonV)>)
    requires
        get_bool(f, "ok"@) == Some(false),
    ensures
        spec_decode_envelope(JsonV::Obj(f)) is Err,
        forall|a: ApiErrorV|
            spec_decode_envelope(JsonV::Obj(f)) == Err::<JsonV, ErrorV>(ErrorV::Api(a)) ==> (
            get_int(f, "error_code"@) == Some(a.code) && get_str(f, "description"@) == Some(
                a.description,
            )),
{
}

/// An envelope whose `ok` field is true and which keeps the invariant —
/// a result present, no error fields — always yields that result.
pub proof fn lemma_ok_envelope_yields_result(f: Seq<(Seq<char>, JsonV)>)
    requires
        get_bool(f, "ok"@) == Some(true),
        obj_get(f, "result"@) is Some,
        obj_get(f, "error_code"@) is None,
        obj_get(f, "description"@) is None,
    ensures
        spec_decode_envelope(JsonV::Obj(f)) == Ok::<JsonV, ErrorV>(obj_get(f, "result"@).unwrap()),
{
}

} // verus!
