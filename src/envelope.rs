use vstd::prelude::*;

verus! {

/// `serde_json::Value`: the arbitrary JSON payload that the envelope carries.
/// It is passed through untouched, so it stays opaque here.
#[verifier::external_type_specification]
#[verifier::external_body]
pub struct ExJsonValue(serde_json::Value);

/// The envelope `{code, message, data}` exchanged with the upstream and
/// returned to the client. `code == 0` signals success.
#[derive(Debug)]
pub struct GenericResponse {
    pub code: i32,
    pub message: Option<String>,
    pub data: Option<serde_json::Value>,
}

/// Mathematical view of an envelope: the message as a sequence of characters.
pub ghost struct EnvelopeView {
    pub code: int,
    pub message: Option<Seq<char>>,
    pub data: Option<serde_json::Value>,
}

impl View for GenericResponse {
    type V = EnvelopeView;

    open spec fn view(&self) -> EnvelopeView {
        EnvelopeView {
            code: self.code as int,
            message: match self.message {
                Some(m) => Some(m@),
                None => None,
            },
            data: self.data,
        }
    }
}

/// Code of every envelope that reports a failure.
pub const FAILURE_CODE: i32 = -1;

/// Message put into a reduced upstream envelope that reports success.
pub const SUCCESS_MESSAGE: &'static str = "接口请求成功";

/// Message of the envelope sent when the configuration cannot be read.
pub const INTERNAL_MESSAGE: &'static str = "An internal server error occurred.";

/// Message of the envelope sent when the upstream cannot be reached.
pub const ACCESS_FAIL_MESSAGE: &'static str = "接口访问失败";

/// Message of the envelope sent when the upstream answers with a non-2xx status.
pub const FATAL_MESSAGE: &'static str = "接口无法正常响应";

/// Message of the envelope sent when the upstream body is unusable.
pub const PARSE_ERROR_MESSAGE: &'static str = "接口数据解析失败";

/// The fixed failure envelopes that the client can receive.
#[derive(Clone, Copy, Debug, PartialEq, Eq, Structural)]
pub enum Failure {
    /// The store binding or key is missing, or the store failed.
    Internal,
    /// The upstream could not be reached.
    AccessFail,
    /// The upstream answered with a status outside 200..=299.
    Fatal,
    /// The upstream body is malformed, or a reduced body reports a failure code.
    ParseError,
}

pub open spec fn failure_message(f: Failure) -> Seq<char> {
    match f {
        Failure::Internal => INTERNAL_MESSAGE@,
        Failure::AccessFail => ACCESS_FAIL_MESSAGE@,
        Failure::Fatal => FATAL_MESSAGE@,
        Failure::ParseError => PARSE_ERROR_MESSAGE@,
    }
}

/// The envelope of a failure: the failure code, its message, and no data.
pub open spec fn failure_view(f: Failure) -> EnvelopeView {
    EnvelopeView { code: FAILURE_CODE as int, message: Some(failure_message(f)), data: None }
}

/// Envelope of a reduced upstream body `{code, data}` that reports success.
pub open spec fn success_view(data: Option<serde_json::Value>) -> EnvelopeView {
    EnvelopeView { code: 0, message: Some(SUCCESS_MESSAGE@), data }
}

/// What the client receives for an upstream envelope that was decoded.
/// A full envelope (one with a message) passes through unchanged; a reduced
/// one gets the success message when its code is zero, and becomes the
/// parse-error envelope otherwise.
pub open spec fn normalized(raw: EnvelopeView) -> EnvelopeView {
    match raw.message {
        Some(_) => raw,
        None => if raw.code == 0 {
            success_view(raw.data)
        } else {
            failure_view(Failure::ParseError)
        },
    }
}

impl Failure {
    /// The human-readable message of this failure.
    pub fn message(&self) -> (r: &'static str)
        ensures
            r@ == failure_message(*self),
    {
        match self {
            Failure::Internal => INTERNAL_MESSAGE,
            Failure::AccessFail => ACCESS_FAIL_MESSAGE,
            Failure::Fatal => FATAL_MESSAGE,
            Failure::ParseError => PARSE_ERROR_MESSAGE,
        }
    }

    /// The envelope that reports this failure to the client.
    pub fn envelope(&self) -> (r: GenericResponse)
        ensures
            r@ == failure_view(*self),
    {
        GenericResponse {
            code: FAILURE_CODE,
            message: Some(String::from_str(self.message())),
            data: None,
        }
    }
}

/// Turns a decoded upstream envelope into the one the client receives.
pub fn normalize(raw: GenericResponse) -> (r: GenericResponse)
    ensures
        r@ == normalized(raw@),
{
    match raw.message {
        Some(m) => GenericResponse { code: raw.code, message: Some(m), data: raw.data },
        None => if raw.code == 0 {
            GenericResponse {
                code: 0,
                message: Some(String::from_str(SUCCESS_MESSAGE)),
                data: raw.data,
            }
        } else {
            Failure::ParseError.envelope()
        },
    }
}

} // verus!
