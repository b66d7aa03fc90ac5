//! The greeting handed out to native hosts.
use vstd::prelude::*;

verus! {

/// Relies on `<String as Add<&str>>::add`: the result is `a` followed by `b`.
#[verifier::external_body]
fn concat(a: String, b: &str) -> (r: String)
    ensures
        r@ == a@ + b@,
{
    a + b
}

/// The name greeted when the host's text is not valid UTF-8.
pub open spec fn default_recipient() -> Seq<char> {
    "there"@
}

/// "Hello " followed by the recipient, or by "there" when there is none.
pub fn greeting(recipient: Option<&str>) -> (r: String)
    ensures
        r@ == "Hello "@ + match recipient {
            Some(s) => s@,
            None => default_recipient(),
        },
{
    let name = match recipient {
        Some(s) => s,
        None => "there",
    };
    concat("Hello ".to_owned(), name)
}

} // verus!
