//! The body of a registration.
//!
//! The service takes one JSON object with the members `class`, `pass`,
//! `schoolID` and `username`, written in that order. These names are the
//! service's own and differ from the names used elsewhere.
use vstd::prelude::*;
use vstd::string::StringExecFns;
use crate::json::{json_quoted, quote_json};

verus! {

/// The registration object, given each value already as a JSON string literal.
pub open spec fn registration_text(
    username: Seq<char>,
    pass: Seq<char>,
    class: Seq<char>,
    school_id: Seq<char>,
) -> Seq<char> {
    "{\"class\":"@ + class + ",\"pass\":"@ + pass + ",\"schoolID\":"@ + school_id + ",\"username\":"@
        + username + "}"@
}

/// Assembles the registration object from values that are already JSON
/// string literals.
pub fn registration_body(username: &str, pass: &str, class: &str, school_id: &str) -> (r: String)
    ensures
        r@ == registration_text(username@, pass@, class@, school_id@),
{
    let mut body = String::from_str("{\"class\":");
    body.append(class);
    body.append(",\"pass\":");
    body.append(pass);
    body.append(",\"schoolID\":");
    body.append(school_id);
    body.append(",\"username\":");
    body.append(username);
    body.append("}");
    assert(body@ =~= registration_text(username@, pass@, class@, school_id@));
    body
}

/// Encodes a registration of `username` with `password`, under the class
/// name `class_name`, at the school `school_id`. No field is checked: empty
/// strings and any characters pass through, escaped as JSON requires.
pub fn encode_registration(username: &str, password: &str, class_name: &str, school_id: &str) -> (r: String)
    ensures
        r@ == registration_text(
            json_quoted(username@),
            json_quoted(password@),
            json_quoted(class_name@),
            json_quoted(school_id@),
        ),
{
    let u = quote_json(username).unwrap();
    let p = quote_json(password).unwrap();
    let c = quote_json(class_name).unwrap();
    let s = quote_json(school_id).unwrap();
    registration_body(u.as_str(), p.as_str(), c.as_str(), s.as_str())
}

} // verus!
