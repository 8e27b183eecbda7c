//! Addresses of services, checked by the `url` crate.
//!
//! The parser is the crate's. What this module states of it is believed,
//! not proved.
use vstd::prelude::*;
use vstd::string::*;

verus! {

/// `url::Url`, taken as it is: nothing is seen inside it but through
/// [`url_text`].
#[verifier::external_type_specification]
#[verifier::external_body]
pub struct ExUrl(url::Url);

/// `url::ParseError`, taken as it is.
#[verifier::external_type_specification]
#[verifier::external_body]
pub struct ExParseError(url::ParseError);

/// The text of a `url::Url`: the address in its normal form.
pub uninterp spec fn url_text(u: url::Url) -> Seq<char>;

/// What `url::Url::parse` makes of a text: the normal form of the address
/// that the text writes, or nothing where the text is no absolute URL.
pub uninterp spec fn url_of_text(text: Seq<char>) -> Option<Seq<char>>;

/// `url::Url::parse`: the address that the text writes, or an error where
/// the text is no absolute URL.
#[verifier::external_body]
pub(crate) fn parse_url(text: &str) -> (r: Result<url::Url, url::ParseError>)
    ensures
        match r {
            Ok(u) => url_of_text(text@) == Some(url_text(u)),
            Err(_) => url_of_text(text@) is None,
        },
{
    url::Url::parse(text)
}

/// `url::Url::as_str`: the address in its normal form.
#[verifier::external_body]
pub(crate) fn url_as_str(u: &url::Url) -> (r: &str)
    ensures
        r@ == url_text(*u),
{
    u.as_str()
}

/// The `Display` text of a `url::ParseError`. Nothing is claimed of it.
#[verifier::external_body]
pub(crate) fn parse_error_text(e: &url::ParseError) -> (r: String) {
    e.to_string()
}

} // verus!
