//! The cross-origin policy of the gateway, as options of `rocket_cors`.
//!
//! The options are a value of that crate and opaque here. What they hold is
//! named by four spec functions, and each call into the crate is a wrapper
//! whose contract says what the call does to those four.

use rocket_cors::{AllowedOrigins, Cors, CorsOptions, Error};
use vstd::prelude::*;

verus! {

/// `rocket_cors::CorsOptions`, the settings of a cross-origin policy. Nothing
/// is claimed of its fields here; what the contracts need of them goes by
/// [`any_origin`], [`allowed_methods`], [`allows_credentials`] and
/// [`sends_wildcard`].
#[verifier::external_type_specification]
#[verifier::external_body]
pub struct ExCorsOptions(rocket_cors::CorsOptions);

/// `rocket_cors::Cors`, the fairing made of checked options. It is carried
/// through; nothing is claimed of what it holds.
#[verifier::external_type_specification]
#[verifier::external_body]
pub struct ExCors(rocket_cors::Cors);

/// `rocket_cors::Error`. It is carried from the call that fails to the call
/// that reads its text; nothing is claimed of what it holds.
#[verifier::external_type_specification]
#[verifier::external_body]
pub struct ExError(rocket_cors::Error);

/// The request methods of HTTP that a cross-origin policy can allow. Each
/// stands for the method of Rocket of the same name.
#[derive(Debug, Clone, Copy, PartialEq, Eq)]
pub enum HttpMethod {
    Get,
    Put,
    Post,
    Delete,
    Options,
    Head,
    Trace,
    Connect,
    Patch,
}

/// Options that cannot be served.
#[derive(Debug, Clone, PartialEq, Eq)]
pub struct CorsRejected {
    /// What `rocket_cors` says is wrong with them.
    pub reason: String,
}

/// Whether `options` allow requests from every origin (the field
/// `allowed_origins` is `All`).
pub uninterp spec fn any_origin(options: CorsOptions) -> bool;

/// The methods that `options` allow (the field `allowed_methods`).
pub uninterp spec fn allowed_methods(options: CorsOptions) -> Set<HttpMethod>;

/// Whether `options` allow credentialed requests (the field
/// `allow_credentials`).
pub uninterp spec fn allows_credentials(options: CorsOptions) -> bool;

/// Whether `options` answer with the wildcard origin instead of echoing the
/// request's (the field `send_wildcard`).
pub uninterp spec fn sends_wildcard(options: CorsOptions) -> bool;

/// Whether `rocket_cors` takes `options` that allow every origin: not where
/// they send the wildcard and allow credentials at once.
pub open spec fn accepted(options: CorsOptions) -> bool {
    !(any_origin(options) && sends_wildcard(options) && allows_credentials(options))
}

/// The policy of the gateway: every origin, with credentials, for `GET`,
/// `POST` and `PATCH`; the request's origin is echoed, never the wildcard.
pub open spec fn is_gateway_policy(options: CorsOptions) -> bool {
    &&& any_origin(options)
    &&& allowed_methods(options) == set![HttpMethod::Get, HttpMethod::Post, HttpMethod::Patch]
    &&& allows_credentials(options)
    &&& !sends_wildcard(options)
}

/// `CorsOptions::default()`: every origin, the seven methods `GET`, `HEAD`,
/// `POST`, `OPTIONS`, `PUT`, `PATCH` and `DELETE`, no credentials, no
/// wildcard.
#[verifier::external_body]
fn default_options() -> (options: CorsOptions)
    ensures
        any_origin(options),
        allowed_methods(options) == set![
            HttpMethod::Get,
            HttpMethod::Head,
            HttpMethod::Post,
            HttpMethod::Options,
            HttpMethod::Put,
            HttpMethod::Patch,
            HttpMethod::Delete,
        ],
        !allows_credentials(options),
        !sends_wildcard(options),
{
    CorsOptions::default()
}

/// `CorsOptions::allowed_origins`, called with `AllowedOrigins::all()`: sets
/// the allowed origins to all and leaves the rest as it was.
#[verifier::external_body]
fn with_any_origin(options: CorsOptions) -> (changed: CorsOptions)
    ensures
        any_origin(changed),
        allowed_methods(changed) == allowed_methods(options),
        allows_credentials(changed) == allows_credentials(options),
        sends_wildcard(changed) == sends_wildcard(options),
{
    options.allowed_origins(AllowedOrigins::all())
}

/// `CorsOptions::allowed_methods`: sets the allowed methods to those of
/// `methods`, as a set, and leaves the rest as it was.
#[verifier::external_body]
fn with_methods(options: CorsOptions, methods: &Vec<HttpMethod>) -> (changed: CorsOptions)
    ensures
        any_origin(changed) == any_origin(options),
        allowed_methods(changed) == methods@.to_set(),
        allows_credentials(changed) == allows_credentials(options),
        sends_wildcard(changed) == sends_wildcard(options),
{
    options.allowed_methods(methods.iter().map(|m| match m {
        HttpMethod::Get => rocket::http::Method::Get,
        HttpMethod::Put => rocket::http::Method::Put,
        HttpMethod::Post => rocket::http::Method::Post,
        HttpMethod::Delete => rocket::http::Method::Delete,
        HttpMethod::Options => rocket::http::Method::Options,
        HttpMethod::Head => rocket::http::Method::Head,
        HttpMethod::Trace => rocket::http::Method::Trace,
        HttpMethod::Connect => rocket::http::Method::Connect,
        HttpMethod::Patch => rocket::http::Method::Patch,
    }.into()).collect())
}

/// `CorsOptions::allow_credentials`: sets whether credentials are allowed
/// and leaves the rest as it was.
#[verifier::external_body]
fn with_credentials(options: CorsOptions, allow: bool) -> (changed: CorsOptions)
    ensures
        any_origin(changed) == any_origin(options),
        allowed_methods(changed) == allowed_methods(options),
        allows_credentials(changed) == allow,
        sends_wildcard(changed) == sends_wildcard(options),
{
    options.allow_credentials(allow)
}

/// `CorsOptions::to_cors`: of options that allow every origin it makes a
/// `Cors` unless they send the wildcard and allow credentials at once. Of
/// options that list their origins nothing is stated: there the outcome
/// hangs on how each origin parses.
#[verifier::external_body]
fn to_cors(options: &CorsOptions) -> (built: Result<Cors, Error>)
    ensures
        any_origin(*options) ==> (built is Ok <==> accepted(*options)),
{
    options.to_cors()
}

/// `Error::to_string`, by the `Display` of `rocket_cors::Error`: the text
/// that says what is wrong. Nothing is claimed of it.
#[verifier::external_body]
fn describe(error: &Error) -> (text: String) {
    error.to_string()
}

/// The options of the gateway's cross-origin policy.
pub fn gateway_options() -> (options: CorsOptions)
    ensures
        is_gateway_policy(options),
{
    let mut methods: Vec<HttpMethod> = Vec::new();
    methods.push(HttpMethod::Get);
    methods.push(HttpMethod::Post);
    methods.push(HttpMethod::Patch);
    proof {
        let wanted = set![HttpMethod::Get, HttpMethod::Post, HttpMethod::Patch];
        assert(methods@[0] == HttpMethod::Get);
        assert(methods@[1] == HttpMethod::Post);
        assert(methods@[2] == HttpMethod::Patch);
        assert(methods@.to_set() =~= wanted);
    }
    let options = default_options();
    let options = with_any_origin(options);
    let options = with_methods(options, &methods);
    with_credentials(options, true)
}

/// Makes of `options` the fairing that serves them. Options that allow every
/// origin are taken unless they send the wildcard and allow credentials at
/// once.
pub fn fairing(options: &CorsOptions) -> (built: Result<Cors, CorsRejected>)
    ensures
        any_origin(*options) ==> (built is Ok <==> accepted(*options)),
{
    match to_cors(options) {
        Ok(cors) => Ok(cors),
        Err(error) => Err(CorsRejected { reason: describe(&error) }),
    }
}

} // verus!
