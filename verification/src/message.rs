//! The messages that failures carry.

use vstd::prelude::*;

verus! {

/// A render succeeded and left nothing.
pub open spec fn empty_render_text() -> Seq<char> {
    "evaluated to empty string"@
}

/// General screening refused the value of `field`, giving `cause`.
pub open spec fn screening_text(field: Seq<char>, cause: Seq<char>) -> Seq<char> {
    "field "@ + field + ", "@ + cause
}

/// The value of `field` holds a space where none is allowed.
pub open spec fn spaces_text(field: Seq<char>) -> Seq<char> {
    "field ("@ + field + "): spaces are not allowed"@
}

/// Path screening refused the rendered value of `field`, giving `cause`.
pub open spec fn path_screening_text(cause: Seq<char>, field: Seq<char>) -> Seq<char> {
    cause + ", for field "@ + field
}

/// Path screening refused the path to look up for `field`, giving `cause`.
pub open spec fn lookup_screening_text(cause: Seq<char>, field: Seq<char>) -> Seq<char> {
    cause + ", for field: "@ + field
}

/// The value of `field` is no integer literal.
pub open spec fn not_integer_text(field: Seq<char>, value: Seq<char>) -> Seq<char> {
    "field ("@ + field + ") value is not an integer: "@ + value
}

/// The value of `field` is no boolean literal.
pub open spec fn not_boolean_text(field: Seq<char>, value: Seq<char>) -> Seq<char> {
    "field ("@ + field + ") value is not a boolean: "@ + value
}

/// The path that `field` names is no regular file.
pub open spec fn no_such_file_text(field: Seq<char>, path: Seq<char>) -> Seq<char> {
    "field ("@ + field + "): no such file: "@ + path
}

/// `a`, then `b`, then `c`, then `d`.
fn joined(a: &str, b: &str, c: &str, d: &str) -> (text: String)
    ensures
        text@ == a@ + b@ + c@ + d@,
{
    let mut text = String::from_str(a);
    text.append(b);
    text.append(c);
    text.append(d);
    text
}

/// The message for a render that left nothing.
pub fn empty_render_message() -> (message: String)
    ensures
        message@ == empty_render_text(),
{
    String::from_str("evaluated to empty string")
}

/// The message for a value of `field` that general screening refused.
pub fn screening_message(field: &String, cause: &String) -> (message: String)
    ensures
        message@ == screening_text(field@, cause@),
{
    joined("field ", field.as_str(), ", ", cause.as_str())
}

/// The message for a value of `field` that holds a space.
pub fn spaces_message(field: &String) -> (message: String)
    ensures
        message@ == spaces_text(field@),
{
    let mut message = String::from_str("field (");
    message.append(field.as_str());
    message.append("): spaces are not allowed");
    message
}

/// The message for a rendered path of `field` that path screening refused.
pub fn path_screening_message(cause: &String, field: &String) -> (message: String)
    ensures
        message@ == path_screening_text(cause@, field@),
{
    let mut message = String::from_str(cause.as_str());
    message.append(", for field ");
    message.append(field.as_str());
    message
}

/// The message for a path to look up that path screening refused.
pub fn lookup_screening_message(cause: &String, field: &String) -> (message: String)
    ensures
        message@ == lookup_screening_text(cause@, field@),
{
    let mut message = String::from_str(cause.as_str());
    message.append(", for field: ");
    message.append(field.as_str());
    message
}

/// The message for a value of `field` that is no integer literal.
pub fn not_integer_message(field: &String, value: &String) -> (message: String)
    ensures
        message@ == not_integer_text(field@, value@),
{
    joined("field (", field.as_str(), ") value is not an integer: ", value.as_str())
}

/// The message for a value of `field` that is no boolean literal.
pub fn not_boolean_message(field: &String, value: &String) -> (message: String)
    ensures
        message@ == not_boolean_text(field@, value@),
{
    joined("field (", field.as_str(), ") value is not a boolean: ", value.as_str())
}

/// The message for a path of `field` at which no regular file is.
pub fn no_such_file_message(field: &String, path: &String) -> (message: String)
    ensures
        message@ == no_such_file_text(field@, path@),
{
    joined("field (", field.as_str(), "): no such file: ", path.as_str())
}

} // verus!
