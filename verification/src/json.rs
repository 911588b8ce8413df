//! Values of `serde_json` that the protocol types carry through unread.
use vstd::prelude::*;

verus! {

/// `serde_json::Value`: an arbitrary JSON document. The library only moves
/// such values from one place to another; nothing is assumed of their content.
#[verifier::external_type_specification]
#[verifier::external_body]
pub struct ExJsonValue(serde_json::Value);

/// `serde_json::Error`: why a JSON text did not decode. The library only
/// tells it apart from a successful decode.
#[verifier::external_type_specification]
#[verifier::external_body]
pub struct ExJsonError(serde_json::Error);

} // verus!
