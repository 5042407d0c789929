use vstd::prelude::*;
use vstd::string::*;

use crate::connection::{scheme_spec, service_endpoint, service_endpoint_spec, TransportType};

verus! {

#[verifier::external_type_specification]
#[verifier::external_body]
pub struct ExUrl(url::Url);

#[verifier::external_type_specification]
#[verifier::external_body]
pub struct ExParseError(url::ParseError);

/// Whether `url::Url::parse` accepts the text as an absolute URL.
pub uninterp spec fn url_parses(s: Seq<char>) -> bool;

/// Relies on url::Url::parse: parses an absolute URL or fails with a
/// `ParseError`; which of the two depends on the input text alone.
pub assume_specification[ url::Url::parse ](input: &str) -> (r: Result<url::Url, url::ParseError>)
    ensures
        r is Ok <==> url_parses(input@),
;

/// Relies on url::Url::set_path: replaces the path, percent-encoding it.
pub assume_specification[ url::Url::set_path ](url: &mut url::Url, path: &str);

/// Relies on url::Url::set_port: fails, leaving the URL alone, when it has no
/// host, an empty host, or the `file` scheme.
pub assume_specification[ url::Url::set_port ](url: &mut url::Url, port: Option<u16>) -> Result<
    (),
    (),
>;

/// Relies on url::Url::set_fragment: replaces or removes the fragment.
pub assume_specification[ url::Url::set_fragment ](url: &mut url::Url, fragment: Option<&str>);

/// Relies on url::Url::set_password: fails, leaving the URL alone, when it has no
/// host, an empty host, or the `file` scheme.
pub assume_specification[ url::Url::set_password ](
    url: &mut url::Url,
    password: Option<&str>,
) -> Result<(), ()>;

/// Relies on url::Url::set_username: fails, leaving the URL alone, when it has no
/// host, an empty host, or the `file` scheme.
pub assume_specification[ url::Url::set_username ](url: &mut url::Url, username: &str) -> Result<
    (),
    (),
>;

/// Relies on url::Url::set_scheme: fails when the new scheme cannot replace the old one.
pub assume_specification[ url::Url::set_scheme ](url: &mut url::Url, scheme: &str) -> Result<
    (),
    (),
>;

/// Relies on url::Url::as_str: the URL's serialization.
pub assume_specification[ url::Url::as_str ](url: &url::Url) -> &str;

/// Relies on url::Url's derived Clone.
pub assume_specification[ <url::Url as Clone>::clone ](url: &url::Url) -> url::Url;

/// What `str::to_lowercase` returns: the lower-case mapping of each character.
pub uninterp spec fn lower_of(s: Seq<char>) -> Seq<char>;

/// Relies on str::to_lowercase: the result depends on the characters alone,
/// and the empty string stays empty.
pub assume_specification[ str::to_lowercase ](s: &str) -> (r: String)
    ensures
        r@ == lower_of(s@),
        s@.len() == 0 ==> r@.len() == 0,
;

/// Relies on url::Url::path_segments_mut and url::PathSegmentsMut::pop_if_empty:
/// removes a trailing empty path segment; fails when the URL cannot be a base.
#[verifier::external_body]
fn pop_if_empty_segment(url: &mut url::Url) -> Result<(), ()> {
    match url.path_segments_mut() {
        Ok(mut segments) => {
            segments.pop_if_empty();
            Ok(())
        },
        Err(()) => Err(()),
    }
}

/// Errors that can occur when building the signature authorization resource.
#[derive(Debug)]
pub enum BuildResourceError {
    /// The URL could not be parsed.
    ParseError(url::ParseError),
    /// Unable to set the port to none.
    SetPortError,
    /// Unable to set the password to none.
    SetPasswordError,
    /// Unable to set the username to an empty string.
    SetUsernameError,
    /// The URL cannot be a base, so its path has no segments.
    CannotBeABase,
}

/// Builds the fully-qualified identifier of the connection's event hub, for
/// signature-based authorization: `{scheme}://{namespace}/{event hub}` without
/// port, credentials, fragment or trailing slash, in lower case. Without a
/// namespace there is no basis for a URL and the resource is empty.
pub fn build_connection_signature_authorization_resource(
    transport_type: TransportType,
    fully_qualified_namespace: Option<&str>,
    event_hub_name: Option<&str>,
) -> (r: Result<String, BuildResourceError>)
    ensures
        match r {
            Ok(s) => match fully_qualified_namespace {
                Some(f) => (f@.len() == 0 ==> s@.len() == 0) && (f@.len() > 0 ==> exists|
                    t: Seq<char>,
                | s@ == lower_of(t)),
                None => s@.len() == 0,
            },
            Err(_) => fully_qualified_namespace matches Some(f) && f@.len() > 0,
        },
        match fully_qualified_namespace {
            Some(f) => f@.len() > 0 ==> ((r matches Err(BuildResourceError::ParseError(_)))
                <==> !url_parses(service_endpoint_spec(scheme_spec(transport_type), f@))),
            None => true,
        },
{
    let fqn = match fully_qualified_namespace {
        None => return Ok(String::new()),
        Some(f) => f,
    };
    if fqn.is_empty() {
        return Ok(String::new());
    }
    let address = service_endpoint(transport_type, fqn);
    let mut builder = match url::Url::parse(address.as_str()) {
        Ok(u) => u,
        Err(e) => return Err(BuildResourceError::ParseError(e)),
    };
    let path = match event_hub_name {
        Some(p) => p,
        None => "",
    };
    builder.set_path(path);
    if builder.set_port(None).is_err() {
        return Err(BuildResourceError::SetPortError);
    }
    builder.set_fragment(None);
    if builder.set_password(None).is_err() {
        return Err(BuildResourceError::SetPasswordError);
    }
    if builder.set_username("").is_err() {
        return Err(BuildResourceError::SetUsernameError);
    }
    // Removes the trailing slash if and only if there is one and it is not
    // the first character.
    if pop_if_empty_segment(&mut builder).is_err() {
        return Err(BuildResourceError::CannotBeABase);
    }
    Ok(builder.as_str().to_lowercase())
}

/// Errors that can occur when deriving the connection's endpoints.
#[derive(Debug)]
pub enum EndpointError {
    /// The service endpoint or the custom endpoint could not be parsed.
    ParseError(url::ParseError),
    /// The transport's scheme could not be set on the custom endpoint.
    SetUrlScheme,
}

/// The service endpoint `{scheme}://{host}` and the endpoint actually
/// connected to: the custom endpoint, when given, with the transport's scheme,
/// else the service endpoint.
pub fn connection_endpoints(
    transport_type: TransportType,
    host: &str,
    custom_endpoint_address: Option<&str>,
) -> (r: Result<(url::Url, url::Url), EndpointError>)
    ensures
        !url_parses(service_endpoint_spec(scheme_spec(transport_type), host@)) ==> (r matches Err(
            EndpointError::ParseError(_),
        )),
        url_parses(service_endpoint_spec(scheme_spec(transport_type), host@))
            && custom_endpoint_address is None ==> r is Ok,
        match custom_endpoint_address {
            Some(c) => !url_parses(c@) ==> (r matches Err(EndpointError::ParseError(_))),
            None => true,
        },
        (r matches Err(EndpointError::ParseError(_))) ==> !url_parses(
            service_endpoint_spec(scheme_spec(transport_type), host@),
        ) || match custom_endpoint_address {
            Some(c) => !url_parses(c@),
            None => false,
        },
        (r matches Err(EndpointError::SetUrlScheme)) ==> match custom_endpoint_address {
            Some(c) => url_parses(c@),
            None => false,
        },
{
    let address = service_endpoint(transport_type, host);
    let service = match url::Url::parse(address.as_str()) {
        Ok(u) => u,
        Err(e) => return Err(EndpointError::ParseError(e)),
    };
    let connection = match custom_endpoint_address {
        Some(custom) => {
            let mut u = match url::Url::parse(custom) {
                Ok(u) => u,
                Err(e) => return Err(EndpointError::ParseError(e)),
            };
            if u.set_scheme(transport_type.url_scheme()).is_err() {
                return Err(EndpointError::SetUrlScheme);
            }
            u
        },
        None => service.clone(),
    };
    Ok((service, connection))
}

} // verus!
