//! The calls into the `url` crate. Each function here is believed, not
//! proved: its contract gives the crate's result a name.

use vstd::prelude::*;
use crate::url_object::{UrlParts, UrlPartsView};

verus! {

/// `url::ParseError`: why the crate read no URL. Nothing of it is looked at.
#[verifier::external_type_specification]
#[verifier::external_body]
pub struct ExParseError(url::ParseError);

/// The parts of the URL that `url::Url::parse` reads from a text, where it
/// reads one.
pub uninterp spec fn parsed_url(input: Seq<char>) -> Option<UrlPartsView>;

/// The parts of the URL that `url::Url::join` reads from a text, taken
/// against the URL that `url::Url::parse` reads from `base`, where both read
/// one.
pub uninterp spec fn joined_url(base: Seq<char>, input: Seq<char>) -> Option<UrlPartsView>;

/// `url::Url::parse`: an absolute URL is read from the text, and the parts
/// are what the URL's getters return.
#[verifier::external_body]
pub(crate) fn parse(input: &str) -> (r: Result<UrlParts, url::ParseError>)
    ensures
        match r {
            Ok(parts) => parsed_url(input@) == Some(parts@),
            Err(_) => parsed_url(input@).is_none(),
        },
{
    let url = url::Url::parse(input)?;
    Ok(UrlParts {
        href: url.as_str().to_owned(),
        scheme: url.scheme().to_owned(),
        username: url.username().to_owned(),
        password: url.password().map(str::to_owned),
        host: url.host_str().map(str::to_owned),
        port: url.port(),
        path: url.path().to_owned(),
        query: url.query().map(str::to_owned),
        fragment: url.fragment().map(str::to_owned),
    })
}

/// `url::Url::join`, on the URL that `url::Url::parse` reads from `base`:
/// the text is read as a reference against that URL. It fails where either
/// of the two fails.
#[verifier::external_body]
pub(crate) fn join(base: &str, input: &str) -> (r: Result<UrlParts, url::ParseError>)
    ensures
        match r {
            Ok(parts) => joined_url(base@, input@) == Some(parts@),
            Err(_) => joined_url(base@, input@).is_none(),
        },
{
    let url = url::Url::parse(base)?.join(input)?;
    Ok(UrlParts {
        href: url.as_str().to_owned(),
        scheme: url.scheme().to_owned(),
        username: url.username().to_owned(),
        password: url.password().map(str::to_owned),
        host: url.host_str().map(str::to_owned),
        port: url.port(),
        path: url.path().to_owned(),
        query: url.query().map(str::to_owned),
        fragment: url.fragment().map(str::to_owned),
    })
}

} // verus!
