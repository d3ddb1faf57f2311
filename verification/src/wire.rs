//! The crate's two points of trust in outside code: URL parsing and the
//! percent-encoding that the build server's form-encoded body requires.

use vstd::prelude::*;

use percent_encoding::{utf8_percent_encode, USERINFO_ENCODE_SET};

verus! {

/// What `url::Url` makes of a string: `None` when the string does not parse
/// as a URL, otherwise the parsed URL's own serialization. Both depend on the
/// string alone.
pub uninterp spec fn url_parsed(s: Seq<char>) -> Option<Seq<char>>;

/// Relies on url::Url::parse and Url::to_string: whether a string parses as a
/// URL, and the serialization of the parsed URL, are functions of the string
/// alone; the serialization round-trips through the parser.
#[verifier::external_body]
pub fn parse_url(s: &str) -> (r: Option<String>)
    ensures
        match r {
            Some(u) => url_parsed(s@) == Some(u@),
            None => url_parsed(s@) is None,
        },
{
    match url::Url::parse(s) {
        Ok(u) => Some(u.to_string()),
        Err(_) => None,
    }
}

/// What percent-encoding the userinfo set makes of a string: a function of
/// the string's UTF-8 bytes alone.
pub uninterp spec fn percent_user_encoded(s: Seq<char>) -> Seq<char>;

/// Relies on percent_encoding::utf8_percent_encode with USERINFO_ENCODE_SET:
/// each byte outside the set is kept, each byte inside it becomes a `%XX`
/// triple, so the result is a function of the input string alone.
#[verifier::external_body]
pub fn percent_encode_user(s: &str) -> (r: String)
    ensures
        r@ == percent_user_encoded(s@),
{
    utf8_percent_encode(s, USERINFO_ENCODE_SET).collect()
}

} // verus!
