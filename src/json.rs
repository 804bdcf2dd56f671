//! The generic JSON value and the parser that produces it from bytes.
use vstd::prelude::*;

verus! {

/// The generic value: an untyped tree of objects, arrays and scalars. The
/// library carries it from the parser to a domain type without reading it.
#[verifier::external_type_specification]
#[verifier::external_body]
pub struct ExValue(serde_json::Value);

/// The parser's verdict on a byte sequence: `None` where the bytes are one
/// JSON value, else the parser's diagnostic.
pub uninterp spec fn json_syntax_error(bytes: Seq<u8>) -> Option<Seq<char>>;

/// Relies on serde_json::from_slice to parse bytes into a generic value, and on
/// the `Display` of its error for the diagnostic; both depend on the bytes alone.
#[verifier::external_body]
pub(crate) fn parse_json(bytes: &[u8]) -> (r: Result<serde_json::Value, String>)
    ensures
        match r {
            Ok(_) => json_syntax_error(bytes@) is None,
            Err(diagnostic) => json_syntax_error(bytes@) == Some(diagnostic@),
        },
{
    match serde_json::from_slice::<serde_json::Value>(bytes) {
        Ok(value) => Ok(value),
        Err(e) => Err(e.to_string()),
    }
}

} // verus!
