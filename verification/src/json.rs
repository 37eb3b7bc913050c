//! JSON text, with string escaping done by the `serde_json` crate.

use serde_json::Value;
use vstd::prelude::*;
use vstd::string::StringExecFns;

verus! {

/// The JSON string literal that `serde_json` writes for `text`, quotes
/// included.
pub uninterp spec fn json_string_text(text: Seq<char>) -> Seq<char>;

/// `serde_json::Value::to_string` on a `Value::String`: compact JSON. The
/// contract names the literal.
#[verifier::external_body]
pub(crate) fn json_string(text: &str) -> (r: String)
    ensures
        r@ == json_string_text(text@),
{
    Value::String(text.to_owned()).to_string()
}

/// The JSON object `{"action":"validate_email","email":E,"subscriber_id":I}`
/// around two string literals already written.
pub open spec fn validation_message_around(email_literal: Seq<char>, id_literal: Seq<char>) -> Seq<
    char,
> {
    "{\"action\":\"validate_email\",\"email\":"@ + email_literal + ",\"subscriber_id\":"@
        + id_literal + "}"@
}

/// The queue message that asks for a token for subscriber `id`.
pub open spec fn validation_message_text(email: Seq<char>, id: Seq<char>) -> Seq<char> {
    validation_message_around(json_string_text(email), json_string_text(id))
}

/// The JSON object `{"success":B,"message":M}` around a string literal
/// already written.
pub open spec fn response_body_around(success: bool, message_literal: Seq<char>) -> Seq<char> {
    "{\"success\":"@ + (if success {
        "true"@
    } else {
        "false"@
    }) + ",\"message\":"@ + message_literal + "}"@
}

/// The JSON text of a response body.
pub open spec fn response_body_text(success: bool, message: Seq<char>) -> Seq<char> {
    response_body_around(success, json_string_text(message))
}

/// Writes the queue message around the two literals.
pub fn compose_validation_message(email_literal: &str, id_literal: &str) -> (r: String)
    ensures
        r@ == validation_message_around(email_literal@, id_literal@),
{
    let mut out = String::from_str("{\"action\":\"validate_email\",\"email\":");
    out.append(email_literal);
    out.append(",\"subscriber_id\":");
    out.append(id_literal);
    out.append("}");
    out
}

/// The queue message that asks for a token for subscriber `id`.
pub fn validation_message(email: &str, id: &str) -> (r: String)
    ensures
        r@ == validation_message_text(email@, id@),
{
    let email_literal = json_string(email);
    let id_literal = json_string(id);
    compose_validation_message(email_literal.as_str(), id_literal.as_str())
}

/// Writes a response body around the literal of its message.
pub fn compose_response_body(success: bool, message_literal: &str) -> (r: String)
    ensures
        r@ == response_body_around(success, message_literal@),
{
    let mut out = String::from_str("{\"success\":");
    if success {
        out.append("true");
    } else {
        out.append("false");
    }
    out.append(",\"message\":");
    out.append(message_literal);
    out.append("}");
    out
}

/// The JSON text of a response body.
pub fn response_body(success: bool, message: &str) -> (r: String)
    ensures
        r@ == response_body_text(success, message@),
{
    let literal = json_string(message);
    compose_response_body(success, literal.as_str())
}

} // verus!
