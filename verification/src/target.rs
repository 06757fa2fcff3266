//! The address that the webview loads.

use crate::error::SetupError;
use url::{ParseError, Url};
use vstd::prelude::*;

verus! {

/// The address of the development server, loaded by debug builds.
pub const DEV_URL: &'static str = "http://localhost:3000";

/// The address of the deployed application, loaded by release builds.
pub const PROD_URL: &'static str = "https://aniways.xyz";

/// The address that a build loads: the development server in a debug build,
/// the deployed application otherwise.
pub open spec fn webview_url(debug: bool) -> Seq<char> {
    if debug {
        DEV_URL@
    } else {
        PROD_URL@
    }
}

/// The address for this kind of build, as written.
pub fn get_webview_url(debug: bool) -> (url: &'static str)
    ensures
        url@ == webview_url(debug),
{
    if debug {
        DEV_URL
    } else {
        PROD_URL
    }
}

/// Which address is loaded is a matter of the build alone: a debug build
/// always loads the development server, any other build always loads the
/// deployed application, and the two are not the same address.
pub proof fn lemma_url_follows_build(debug: bool)
    ensures
        debug ==> webview_url(debug) == DEV_URL@,
        !debug ==> webview_url(debug) == PROD_URL@,
        webview_url(true) != webview_url(false),
{
    reveal_strlit("http://localhost:3000");
    reveal_strlit("https://aniways.xyz");
    assert(webview_url(true)[4] == ':');
    assert(webview_url(false)[4] == 's');
}

/// The error of `url::Url::parse`. Nothing is read from it.
#[verifier::external_type_specification]
#[verifier::external_body]
pub struct ExParseError(ParseError);

/// What `url::Url::parse` makes of a text: the serialisation of the absolute
/// URL it parsed, or `None` where the text is not an absolute URL.
pub uninterp spec fn url_parse(input: Seq<char>) -> Option<Seq<char>>;

/// Calls `url::Url::parse`. On success the result is the parsed URL's
/// serialisation, which is what `url_parse` names; on failure the parser's
/// error is handed on untouched.
#[verifier::external_body]
fn parse_absolute(input: &str) -> (r: Result<String, ParseError>)
    ensures
        match r {
            Ok(text) => url_parse(input@) == Some(text@),
            Err(_) => url_parse(input@) is None,
        },
{
    match Url::parse(input) {
        Ok(url) => Ok(String::from(url)),
        Err(e) => Err(e),
    }
}

/// Checks that `url` is an absolute URL and gives its normalised text.
/// Anything else is `SetupError::MalformedUrl`.
pub fn parse_target(url: &str) -> (r: Result<String, SetupError>)
    ensures
        match url_parse(url@) {
            Some(text) => r matches Ok(t) && t@ == text,
            None => r matches Err(e) && e == SetupError::MalformedUrl,
        },
{
    match parse_absolute(url) {
        Ok(text) => Ok(text),
        Err(_) => Err(SetupError::MalformedUrl),
    }
}

} // verus!
