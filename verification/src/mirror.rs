//! Validation of the release-mirror URL, through the `url` crate.
use vstd::prelude::*;
use vstd::string::*;

verus! {

/// What `url::Url::parse` makes of a piece of text: absence on
/// invalid URL text, the normalized serialization otherwise.
pub uninterp spec fn parsed_url(s: Seq<char>) -> Option<Seq<char>>;

/// Relies on url::Url::parse and url::Url::as_str: parsing depends
/// on the input text alone; a successful parse yields the
/// normalized serialization of the URL.
#[verifier::external_body]
fn parse_url_normalized(s: &str) -> (r: Option<String>)
    ensures
        r is Some <==> parsed_url(s@) is Some,
        r matches Some(u) ==> u@ == parsed_url(s@)->0,
{
    match url::Url::parse(s) {
        Ok(u) => Some(u.as_str().to_owned()),
        Err(_) => None,
    }
}

/// The mirror to use: the override when it is valid URL text —
/// normalized — or the standard mirror when no override was given.
/// `None` exactly when the override is not valid URL text.
pub fn mirror_or_default(override_text: Option<&String>) -> (r: Option<String>)
    ensures
        match override_text {
            None => r matches Some(u) && u@ == "https://nodejs.org/dist/"@,
            Some(t) => (r is Some <==> parsed_url(t@) is Some) && (r matches Some(u) ==> u@
                == parsed_url(t@)->0),
        },
{
    match override_text {
        None => Some("https://nodejs.org/dist/".to_owned()),
        Some(t) => parse_url_normalized(t.as_str()),
    }
}

} // verus!
