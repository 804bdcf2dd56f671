//! The validated extraction adapter: a parsed body, or the parser's
//! diagnostic, becomes either a typed value or one structured error.
use vstd::prelude::*;
use core::marker::PhantomData;
use crate::error::{ErrorCode, ResponseError, Code};
use crate::json::parse_json;

verus! {

/// How a domain type is built from a generic value: the value either
/// satisfies the type's contract, giving the typed value, or is refused with
/// an error of type `E`. The outcome depends on the value alone.
pub trait DeserializeFromValue<E>: Sized {
    /// The outcome of building `Self` from `value`. An implementation that
    /// is verified states it; otherwise it is left unspecified.
    closed spec fn deserialize_spec(value: serde_json::Value) -> Result<Self, E> {
        vstd::pervasive::arbitrary()
    }

    fn deserialize_from_value(value: serde_json::Value) -> (r: Result<Self, E>)
        ensures
            r == Self::deserialize_spec(value),
    ;
}

/// A typed value extracted from a JSON body. `E` is the error type through
/// which the value's contract reports a refusal; it carries no data.
#[derive(Debug)]
pub struct ValidatedJson<T, E>(pub T, pub PhantomData<E>);

/// What an extraction yields, given what the body parser produced: the value
/// or the parser's diagnostic.
pub open spec fn outcome<T: DeserializeFromValue<E>, E: ErrorCode>(
    body: Result<serde_json::Value, Seq<char>>,
) -> Result<T, crate::error::ResponseErrorModel> {
    match body {
        Err(diagnostic) => Err(crate::error::malformed_payload(diagnostic)),
        Ok(value) => match T::deserialize_spec(value) {
            Ok(t) => Ok(t),
            Err(e) => Err(crate::error::converted(e)),
        },
    }
}

/// The model of a parser report that is ready.
pub open spec fn body_model(body: Result<serde_json::Value, String>) -> Result<
    serde_json::Value,
    Seq<char>,
> {
    match body {
        Ok(value) => Ok(value),
        Err(diagnostic) => Err(diagnostic@),
    }
}

/// The model of an extraction's result: the typed value, or the model of
/// the structured error.
pub open spec fn result_model<T, E>(r: Result<ValidatedJson<T, E>, ResponseError>) -> Result<
    T,
    crate::error::ResponseErrorModel,
> {
    match r {
        Ok(j) => Ok(j.0),
        Err(e) => Err(e@),
    }
}

impl<T, E> ValidatedJson<T, E> {
    pub fn new(data: T) -> (r: Self)
        ensures
            r.0 == data,
    {
        ValidatedJson(data, PhantomData)
    }

    pub fn into_inner(self) -> (r: T)
        ensures
            r == self.0,
    {
        self.0
    }
}

impl<T: DeserializeFromValue<E>, E: ErrorCode> ValidatedJson<T, E> {
    /// Finishes an extraction once the body parser is done: its diagnostic
    /// becomes a malformed-payload error; its value is handed to `T`'s
    /// contract exactly once, whose refusal is converted through `E`'s own
    /// contract.
    pub fn from_parsed(body: Result<serde_json::Value, String>) -> (r: Result<Self, ResponseError>)
        ensures
            result_model(r) == outcome::<T, E>(body_model(body)),
    {
        match body {
            Err(diagnostic) => Err(ResponseError::from_msg(diagnostic, Code::MalformedPayload)),
            Ok(value) => match T::deserialize_from_value(value) {
                Ok(data) => Ok(ValidatedJson::new(data)),
                Err(e) => Err(ResponseError::from_error_code(&e)),
            },
        }
    }

    /// Extracts a typed value from a fully received body: bytes that do not
    /// parse give a malformed-payload error whatever `T` and `E` are; bytes
    /// that parse give the outcome of `T`'s contract on the parsed value.
    pub fn from_bytes(bytes: &[u8]) -> (r: Result<Self, ResponseError>)
        ensures
            match crate::json::json_syntax_error(bytes@) {
                Some(diagnostic) => result_model(r) == Err::<T, _>(
                    crate::error::malformed_payload(diagnostic),
                ),
                None => exists|value: serde_json::Value|
                    result_model(r) == #[trigger] outcome::<T, E>(Ok(value)),
            },
    {
        let body = parse_json(bytes);
        let ghost parsed = body;
        let r = Self::from_parsed(body);
        proof {
            if let Ok(value) = parsed {
                assert(result_model(r) == outcome::<T, E>(Ok(value)));
            }
        }
        r
    }
}

} // verus!

verus! {

/// What the body parser reports when asked for progress.
pub enum BodyPoll {
    /// More bytes are still to come.
    Pending,
    /// The body is received and parsed: the value, or the parser's diagnostic.
    Ready(Result<serde_json::Value, String>),
}

/// What an extraction reports when asked for progress.
pub enum ExtractPoll<T, E> {
    /// Still waiting for the body.
    Pending,
    /// Done: the typed value or the structured error.
    Ready(Result<ValidatedJson<T, E>, ResponseError>),
}

/// One extraction in progress. It waits while the body parser is pending,
/// then completes exactly once; the conversion step never waits.
pub struct ValidatedJsonExtractFut<T, E> {
    completed: bool,
    _phantom: PhantomData<(T, E)>,
}

impl<T: DeserializeFromValue<E>, E: ErrorCode> ValidatedJsonExtractFut<T, E> {
    /// Whether this extraction has produced its result.
    pub closed spec fn completed(&self) -> bool {
        self.completed
    }

    /// Starts an extraction.
    pub fn new() -> (r: Self)
        ensures
            !r.completed(),
    {
        ValidatedJsonExtractFut { completed: false, _phantom: PhantomData }
    }

    pub fn is_completed(&self) -> (r: bool)
        ensures
            r == self.completed(),
    {
        self.completed
    }

    /// Advances the extraction with the body parser's report. While the
    /// parser is pending nothing is produced, neither a value nor an error,
    /// and the extraction stays as it was; once it is ready, the extraction
    /// completes with the outcome for that report.
    pub fn poll(&mut self, body: BodyPoll) -> (r: ExtractPoll<T, E>)
        requires
            !old(self).completed(),
        ensures
            match body {
                BodyPoll::Pending => r is Pending && *final(self) == *old(self),
                BodyPoll::Ready(b) => final(self).completed() && match r {
                    ExtractPoll::Ready(res) => result_model(res) == outcome::<T, E>(body_model(b)),
                    ExtractPoll::Pending => false,
                },
            },
    {
        match body {
            BodyPoll::Pending => ExtractPoll::Pending,
            BodyPoll::Ready(b) => {
                self.completed = true;
                ExtractPoll::Ready(ValidatedJson::from_parsed(b))
            },
        }
    }
}

} // verus!

verus! {

/// A value that satisfies `T`'s contract is extracted as exactly what the
/// contract produces on it.
pub proof fn lemma_accepted_value_extracts<T: DeserializeFromValue<E>, E: ErrorCode>(
    value: serde_json::Value,
)
    requires
        T::deserialize_spec(value) is Ok,
    ensures
        outcome::<T, E>(Ok(value)) == Ok::<T, crate::error::ResponseErrorModel>(
            T::deserialize_spec(value)->Ok_0,
        ),
{
}

/// A body that does not parse gives the malformed-payload error with the
/// parser's diagnostic, whatever `T` and `E` are.
pub proof fn lemma_unparsable_body_is_malformed<T: DeserializeFromValue<E>, E: ErrorCode>(
    diagnostic: Seq<char>,
)
    ensures
        outcome::<T, E>(Err(diagnostic)) == Err::<T, crate::error::ResponseErrorModel>(
            crate::error::malformed_payload(diagnostic),
        ),
        outcome::<T, E>(Err(diagnostic))->Err_0.code is MalformedPayload,
{
}

/// A value that parses but that `T`'s contract refuses with `e` gives `e`'s
/// own conversion, which is never the malformed-payload error.
pub proof fn lemma_refused_value_is_converted<T: DeserializeFromValue<E>, E: ErrorCode>(
    value: serde_json::Value,
    e: E,
)
    requires
        T::deserialize_spec(value) == Err::<T, E>(e),
    ensures
        outcome::<T, E>(Ok(value)) == Err::<T, crate::error::ResponseErrorModel>(
            crate::error::converted(e),
        ),
        !(outcome::<T, E>(Ok(value))->Err_0.code is MalformedPayload),
{
}

/// Running a value's contract twice on the same value gives the same
/// outcome, and so does the whole extraction.
pub proof fn lemma_deserialization_is_pure<T: DeserializeFromValue<E>, E: ErrorCode>(
    first: serde_json::Value,
    second: serde_json::Value,
)
    requires
        first == second,
    ensures
        T::deserialize_spec(first) == T::deserialize_spec(second),
        outcome::<T, E>(Ok(first)) == outcome::<T, E>(Ok(second)),
{
}

} // verus!
