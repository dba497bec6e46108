//! Greeting lines for the hello endpoints: the response text as a
//! function of the path and body values, with optional upper-casing.

use vstd::prelude::*;
use vstd::string::StringExecFns;

use crate::digits::{dec_digits, dec_string_u8};

verus! {

/// What `str::to_uppercase` returns, as a function of the characters
/// alone.
pub uninterp spec fn upper_of(s: Seq<char>) -> Seq<char>;

/// Relies on str::to_uppercase: the result depends on the characters
/// alone.
#[verifier::external_body]
fn uppercase(s: &str) -> (r: String)
    ensures
        r@ == upper_of(s@),
{
    s.to_uppercase()
}

/// The name as greeted: upper-cased exactly when asked.
pub open spec fn greeted_name(name: Seq<char>, caps: Option<bool>) -> Seq<char> {
    if caps == Some(true) {
        upper_of(name)
    } else {
        name
    }
}

/// The body of a hello request.
pub struct Person {
    pub age: u8,
}

/// The greeting line: the name, upper-cased when `caps` asks for it.
pub fn hello(name: &str, caps: Option<bool>) -> (r: String)
    ensures
        r@ == "Hello, "@ + greeted_name(name@, caps) + "!"@,
{
    let mid = match caps {
        Some(true) => uppercase(name),
        Some(false) => name.to_owned(),
        None => name.to_owned(),
    };
    let mut r = String::from_str("Hello, ");
    r.append(mid.as_str());
    r.append("!");
    r
}

/// The greeting line of the posted form: the age from the body, then the
/// name, upper-cased when `caps` asks for it.
pub fn hello_post(name: String, person: Person, caps: Option<bool>) -> (r: String)
    ensures
        r@ == "Hello, "@ + dec_digits(person.age as nat) + " year old named "@ + greeted_name(
            name@,
            caps,
        ) + "!"@,
{
    let mid = match caps {
        Some(true) => uppercase(name.as_str()),
        Some(false) => name,
        None => name,
    };
    let age = dec_string_u8(person.age);
    let mut r = String::from_str("Hello, ");
    r.append(age.as_str());
    r.append(" year old named ");
    r.append(mid.as_str());
    r.append("!");
    r
}

} // verus!
