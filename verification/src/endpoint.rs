//! Endpoint resolution: the layered precedence that picks the indexing
//! server URL, and the trusted boundary around the `url` crate that parses
//! the chosen text.

use vstd::prelude::*;
use vstd::string::StringExecFns;
use crate::model::Settings;

verus! {

/// Relied-on declaration of `url::Url`, the parsed-URL record of the `url`
/// crate. Opaque to the verifier; carried through to the wallet-construction
/// collaborator unread.
#[verifier::external_type_specification]
#[verifier::external_body]
pub struct ExUrl(url::Url);

/// Relied-on declaration of `url::ParseError`, the error the `url` crate
/// reports when a text is not an absolute URL.
#[verifier::external_type_specification]
#[verifier::external_body]
pub struct ExParseError(url::ParseError);

/// Whether `url::Url::parse` accepts this text as an absolute URL.
pub uninterp spec fn url_parse_ok(s: Seq<char>) -> bool;

/// Relies on `url::Url::parse`: whether a text parses as an absolute URL
/// depends on the text alone.
#[verifier::external_body]
pub(crate) fn parse_url(s: &str) -> (r: Result<url::Url, url::ParseError>)
    ensures
        r is Ok <==> url_parse_ok(s@),
{
    url::Url::parse(s)
}

/// The endpoint used when neither the invocation nor the settings name one.
pub open spec fn fallback_server_url() -> Seq<char> {
    "http://127.0.0.1:80"@
}

/// The server URL text chosen by strict precedence: the invocation's
/// override first, then the settings default, then the fallback endpoint.
pub open spec fn resolved_url_text(
    override_url: Option<String>,
    settings_url: Option<String>,
) -> Seq<char> {
    match override_url {
        Some(u) => u@,
        None => match settings_url {
            Some(u) => u@,
            None => fallback_server_url(),
        },
    }
}

/// Resolves the server URL text for an invocation: the override on the
/// command line wins over the settings default, and with neither present
/// the fallback endpoint is used.
pub fn resolve_server_url(override_url: &Option<String>, settings: &Settings) -> (r: String)
    ensures
        r@ == resolved_url_text(*override_url, settings.server_url),
{
    match override_url {
        Some(u) => u.clone(),
        None => match &settings.server_url {
            Some(u) => u.clone(),
            None => String::from_str("http://127.0.0.1:80"),
        },
    }
}

/// URL precedence: an override on the invocation wins over the settings
/// default; the settings default is used only with no override; the
/// fallback endpoint is used only when both are absent.
pub proof fn lemma_url_precedence(override_url: Option<String>, settings_url: Option<String>)
    ensures
        override_url matches Some(u) ==> resolved_url_text(override_url, settings_url) == u@,
        override_url is None ==> (settings_url matches Some(u)
            ==> resolved_url_text(override_url, settings_url) == u@),
        override_url is None && settings_url is None
            ==> resolved_url_text(override_url, settings_url) == fallback_server_url(),
{
}

} // verus!
