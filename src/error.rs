//! Structured response errors and the contract through which a validation
//! error describes itself.
use vstd::prelude::*;

verus! {

/// The stable code of a structured response error.
#[derive(Debug)]
pub enum Code {
    /// The body could not be parsed as JSON.
    MalformedPayload,
    /// The body parsed, but the domain type refused it; holds the stable name
    /// that the validation error gave itself.
    Validation(String),
}

/// Mathematical model of a [`Code`].
pub enum CodeModel {
    MalformedPayload,
    Validation(Seq<char>),
}

impl View for Code {
    type V = CodeModel;

    open spec fn view(&self) -> CodeModel {
        match self {
            Code::MalformedPayload => CodeModel::MalformedPayload,
            Code::Validation(name) => CodeModel::Validation(name@),
        }
    }
}

/// A (human-readable message, stable code) pair reported to a client.
#[derive(Debug)]
pub struct ResponseError {
    pub message: String,
    pub code: Code,
}

/// Mathematical model of a [`ResponseError`].
pub struct ResponseErrorModel {
    pub message: Seq<char>,
    pub code: CodeModel,
}

impl View for ResponseError {
    type V = ResponseErrorModel;

    open spec fn view(&self) -> ResponseErrorModel {
        ResponseErrorModel { message: self.message@, code: self.code@ }
    }
}

/// What a validation error offers so that it can be reported: a stable name
/// for its kind and a message. Both are functions of the error alone.
pub trait ErrorCode: Sized {
    /// The stable name of this error's kind. An implementation that is
    /// verified states it; otherwise it is left unspecified.
    closed spec fn error_name_spec(&self) -> Seq<char> {
        vstd::pervasive::arbitrary()
    }

    /// The human-readable description of this error, stated or left
    /// unspecified as above.
    closed spec fn message_spec(&self) -> Seq<char> {
        vstd::pervasive::arbitrary()
    }

    fn error_name(&self) -> (r: String)
        ensures
            r@ == self.error_name_spec(),
    ;

    fn message(&self) -> (r: String)
        ensures
            r@ == self.message_spec(),
    ;
}

/// The structured error reported for a body that is not JSON, with the
/// parser's diagnostic as its message.
pub open spec fn malformed_payload(diagnostic: Seq<char>) -> ResponseErrorModel {
    ResponseErrorModel { message: diagnostic, code: CodeModel::MalformedPayload }
}

/// The structured error that a validation error converts into.
pub open spec fn converted<E: ErrorCode>(e: E) -> ResponseErrorModel {
    ResponseErrorModel { message: e.message_spec(), code: CodeModel::Validation(e.error_name_spec()) }
}

impl ResponseError {
    /// Builds a response error from its two parts.
    pub fn from_msg(message: String, code: Code) -> (r: ResponseError)
        ensures
            r@ == (ResponseErrorModel { message: message@, code: code@ }),
    {
        ResponseError { message, code }
    }

    /// Converts a validation error through its own contract.
    pub fn from_error_code<E: ErrorCode>(e: &E) -> (r: ResponseError)
        ensures
            r@ == converted(*e),
    {
        let message = e.message();
        let name = e.error_name();
        ResponseError { message, code: Code::Validation(name) }
    }

    /// Whether this error reports a body that could not be parsed.
    pub fn is_malformed_payload(&self) -> (r: bool)
        ensures
            r == (self.code@ is MalformedPayload),
    {
        match self.code {
            Code::MalformedPayload => true,
            Code::Validation(_) => false,
        }
    }
}

} // verus!
