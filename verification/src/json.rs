//! JSON documents, as `serde_json` reads them.
//!
//! Nothing in this file is proved. A document is carried through the library unread.

use serde_json::Value;
use vstd::prelude::*;

verus! {

/// `serde_json::Value`, a JSON document. Nothing is said of what is in it.
#[verifier::external_type_specification]
#[verifier::external_body]
pub struct ExValue(Value);

/// `serde_json::Error`, the reason why bytes are no document. Nothing is said of it.
#[verifier::external_type_specification]
#[verifier::external_body]
pub struct ExError(serde_json::Error);

/// The document that `bytes` spell out, where they are the text of exactly one JSON
/// value; `None` where they are not.
pub uninterp spec fn json_document(bytes: Seq<u8>) -> Option<Value>;

/// `serde_json::from_slice` at the type `Value`: reads `bytes` as one JSON value.
/// It gives the document that the bytes spell out, and an error where they spell
/// out none.
#[verifier::external_body]
pub(crate) fn parse_json(bytes: &[u8]) -> (parsed: Result<Value, serde_json::Error>)
    ensures
        match parsed {
            Ok(document) => json_document(bytes@) == Some(document),
            Err(_) => json_document(bytes@) is None,
        },
{
    serde_json::from_slice(bytes)
}

} // verus!
