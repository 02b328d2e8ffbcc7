//! The session with the controller: where requests go, and what an answer
//! means. The requests themselves are sent by the caller, who reports how
//! each one went.

use vstd::prelude::*;
use vstd::string::*;
use vstd::utf8::*;

use super::devices::{DeviceView, SiteView, UnifiDeviceBasic, UnifiSite};
use super::json::{decode_devices, decode_sites, decoded_devices, decoded_sites, Json};
use crate::text::{concat2, decimal, push_decimal};

verus! {

/// Seconds after which a request to the controller is given up.
pub const TIMEOUT_SECS: u64 = 15;

/// The `Referer` header that the login request carries.
pub const LOGIN_REFERER: &'static str = "/login";

/// The name under which the login request's JSON body holds the user name.
pub const LOGIN_USERNAME_KEY: &'static str = "username";

/// The name under which the login request's JSON body holds the password.
pub const LOGIN_PASSWORD_KEY: &'static str = "password";

/// The status with which the controller turns down wrong credentials.
pub const BAD_REQUEST: u16 = 400;

/// The status says that the request succeeded.
pub open spec fn status_is_success(code: u16) -> bool {
    200 <= code < 300
}

/// The status says that the request failed, at the client or at the server.
pub open spec fn status_is_error(code: u16) -> bool {
    400 <= code < 600
}

/// How the HTTP client is to be set up for a session.
#[derive(Copy, Clone, Debug, PartialEq, Eq, Structural)]
pub struct ClientPolicy {
    pub timeout_secs: u64,
    /// Whether a certificate that cannot be checked is accepted.
    pub accept_invalid_certs: bool,
    /// Whether cookies are kept between requests; the login is one.
    pub cookie_store: bool,
}

/// How one HTTP request went.
#[derive(Debug, PartialEq, Eq)]
pub enum HttpOutcome {
    /// No response came: the name was not found, the connection was refused,
    /// the certificate was turned down, the time ran out.
    Failed { detail: String },
    /// A response came, with this status.
    Status { code: u16 },
}

/// How one HTTP request went, as plain values.
pub enum HttpOutcomeView {
    Failed { detail: Seq<char> },
    Status { code: u16 },
}

impl View for HttpOutcome {
    type V = HttpOutcomeView;

    open spec fn view(&self) -> HttpOutcomeView {
        match self {
            HttpOutcome::Failed { detail } => HttpOutcomeView::Failed { detail: detail@ },
            HttpOutcome::Status { code } => HttpOutcomeView::Status { code: *code },
        }
    }
}

/// Why a search could not be carried through.
#[derive(Debug, PartialEq, Eq)]
pub enum UnifiAPIError {
    /// The HTTP client could not be set up.
    ClientError { detail: String },
    /// The controller turned the credentials down.
    LoginAuthenticationError { url: String },
    /// The controller could not be reached, or answered with a status that
    /// is no success.
    ReqwestError { outcome: HttpOutcome },
    /// The controller's answer is not of the expected form.
    JsonError { url: String, cause: String },
}

/// Why a search could not be carried through, as plain values.
pub enum ApiErrorView {
    ClientError { detail: Seq<char> },
    LoginAuthenticationError { url: Seq<char> },
    ReqwestError { outcome: HttpOutcomeView },
    JsonError { url: Seq<char>, cause: Seq<char> },
}

impl View for UnifiAPIError {
    type V = ApiErrorView;

    open spec fn view(&self) -> ApiErrorView {
        match self {
            UnifiAPIError::ClientError { detail } => ApiErrorView::ClientError { detail: detail@ },
            UnifiAPIError::LoginAuthenticationError { url } => ApiErrorView::LoginAuthenticationError {
                url: url@,
            },
            UnifiAPIError::ReqwestError { outcome } => ApiErrorView::ReqwestError { outcome: outcome@ },
            UnifiAPIError::JsonError { url, cause } => ApiErrorView::JsonError {
                url: url@,
                cause: cause@,
            },
        }
    }
}

/// Where the credentials are sent.
pub open spec fn login_url(server_url: Seq<char>) -> Seq<char> {
    server_url + "/api/login"@
}

/// Where the list of sites is asked for.
pub open spec fn sites_url(server_url: Seq<char>) -> Seq<char> {
    server_url + "/api/self/sites"@
}

/// Where the short device inventory of a site is asked for.
pub open spec fn site_devices_url(server_url: Seq<char>, site_code: Seq<char>) -> Seq<char> {
    server_url + "/api/s/"@ + site_code + "/stat/device-basic"@
}

/// What the answer to the login request means: a success status logs in,
/// status 400 says that the credentials are wrong, and anything else is a
/// failure to communicate.
pub open spec fn login_verdict(url: Seq<char>, outcome: HttpOutcomeView) -> Result<(), ApiErrorView> {
    match outcome {
        HttpOutcomeView::Failed { .. } => Err(ApiErrorView::ReqwestError { outcome }),
        HttpOutcomeView::Status { code } => if code == BAD_REQUEST {
            Err(ApiErrorView::LoginAuthenticationError { url })
        } else if status_is_success(code) {
            Ok(())
        } else {
            Err(ApiErrorView::ReqwestError { outcome })
        },
    }
}

/// What the answer to a query means, before its body is looked at: no
/// response and an error status are failures to communicate.
pub open spec fn call_verdict(outcome: HttpOutcomeView) -> Result<(), ApiErrorView> {
    match outcome {
        HttpOutcomeView::Failed { .. } => Err(ApiErrorView::ReqwestError { outcome }),
        HttpOutcomeView::Status { code } => if status_is_error(code) {
            Err(ApiErrorView::ReqwestError { outcome })
        } else {
            Ok(())
        },
    }
}

/// What the answer to a query means: a failure to communicate, a body that
/// is not of the expected form, or the data in the body.
pub open spec fn query_verdict<T>(
    url: Seq<char>,
    outcome: HttpOutcomeView,
    body: Result<Seq<T>, Seq<char>>,
) -> Result<Seq<T>, ApiErrorView> {
    match call_verdict(outcome) {
        Err(e) => Err(e),
        Ok(_) => match body {
            Ok(data) => Ok(data),
            Err(cause) => Err(ApiErrorView::JsonError { url, cause }),
        },
    }
}

/// The verdict on a list of sites, as plain values.
pub open spec fn sites_verdict(r: Result<Vec<UnifiSite>, UnifiAPIError>) -> Result<
    Seq<SiteView>,
    ApiErrorView,
> {
    match r {
        Ok(data) => Ok(data.deep_view()),
        Err(e) => Err(e@),
    }
}

/// The verdict on a list of devices, as plain values.
pub open spec fn devices_verdict(r: Result<Vec<UnifiDeviceBasic>, UnifiAPIError>) -> Result<
    Seq<DeviceView>,
    ApiErrorView,
> {
    match r {
        Ok(data) => Ok(data.deep_view()),
        Err(e) => Err(e@),
    }
}

/// The verdict on a request without data, as plain values.
pub open spec fn unit_verdict(r: Result<(), UnifiAPIError>) -> Result<(), ApiErrorView> {
    match r {
        Ok(_) => Ok(()),
        Err(e) => Err(e@),
    }
}

/// A secret after it was wiped in place: as many zero characters as the
/// text had bytes.
pub open spec fn wiped(text: Seq<char>) -> Seq<char> {
    Seq::new(encode_utf8(text).len(), |i: int| '\0')
}

/// Wipes a secret in place: `Zeroize::zeroize` of the zeroize crate on a
/// `str`, which overwrites every byte of the text with zero and leaves the
/// length as it is.
#[verifier::external_body]
pub(crate) fn wipe(secret: &mut String)
    ensures
        final(secret)@ == wiped(old(secret)@),
{
    zeroize::Zeroize::zeroize(secret.as_mut_str());
}

/// Wipes a secret and empties it: `Zeroize::zeroize` of the zeroize crate
/// on a `String`, which overwrites the string's buffer with zeros and leaves
/// the string empty.
#[verifier::external_body]
pub(crate) fn scrub(secret: &mut String)
    ensures
        final(secret)@ == Seq::<char>::empty(),
{
    zeroize::Zeroize::zeroize(secret);
}

/// The session with one controller, for one search.
#[derive(Debug, PartialEq, Eq)]
pub struct UnifiClient {
    server_url: String,
    accept_invalid_certs: bool,
    is_logged_in: bool,
}

/// The session as plain values.
pub struct ClientView {
    pub server_url: Seq<char>,
    pub accept_invalid_certs: bool,
    pub is_logged_in: bool,
}

impl View for UnifiClient {
    type V = ClientView;

    closed spec fn view(&self) -> ClientView {
        ClientView {
            server_url: self.server_url@,
            accept_invalid_certs: self.accept_invalid_certs,
            is_logged_in: self.is_logged_in,
        }
    }
}

impl UnifiClient {
    /// How the HTTP client of a session is to be set up: requests are given
    /// up after [`TIMEOUT_SECS`], and cookies are kept.
    pub fn policy(accept_invalid_certs: bool) -> (r: ClientPolicy)
        ensures
            r == (ClientPolicy {
                timeout_secs: TIMEOUT_SECS,
                accept_invalid_certs,
                cookie_store: true,
            }),
    {
        ClientPolicy { timeout_secs: TIMEOUT_SECS, accept_invalid_certs, cookie_store: true }
    }

    /// Opens a session, not yet logged in. `built` says how setting up the
    /// HTTP client by [`UnifiClient::policy`] went; without a client there
    /// is no session.
    pub fn new(server_url: &str, accept_invalid_certs: bool, built: Result<(), String>) -> (r:
        Result<UnifiClient, UnifiAPIError>)
        ensures
            match built {
                Ok(_) => r matches Ok(client) && client@ == (ClientView {
                    server_url: server_url@,
                    accept_invalid_certs,
                    is_logged_in: false,
                }),
                Err(detail) => r matches Err(e) && e@ == (ApiErrorView::ClientError {
                    detail: detail@,
                }),
            },
    {
        match built {
            Ok(_) => Ok(
                UnifiClient {
                    server_url: String::from_str(server_url),
                    accept_invalid_certs,
                    is_logged_in: false,
                },
            ),
            Err(detail) => Err(UnifiAPIError::ClientError { detail }),
        }
    }

    /// Whether the controller has accepted the credentials.
    pub fn is_logged_in(&self) -> (r: bool)
        ensures
            r == self@.is_logged_in,
    {
        self.is_logged_in
    }

    /// Where the credentials are sent.
    pub fn login_url(&self) -> (r: String)
        ensures
            r@ == login_url(self@.server_url),
    {
        let mut url: String = self.server_url.clone();
        url.append("/api/login");
        url
    }

    /// Where the list of sites is asked for.
    pub fn sites_url(&self) -> (r: String)
        ensures
            r@ == sites_url(self@.server_url),
    {
        let mut url: String = self.server_url.clone();
        url.append("/api/self/sites");
        url
    }

    /// Where the short device inventory of the site `site_code` is asked for.
    pub fn site_devices_url(&self, site_code: &str) -> (r: String)
        ensures
            r@ == site_devices_url(self@.server_url, site_code@),
    {
        let mut url: String = self.server_url.clone();
        url.append("/api/s/");
        url.append(site_code);
        url.append("/stat/device-basic");
        url
    }

    /// Takes the answer to the login request, which the caller has sent to
    /// [`UnifiClient::login_url`]. Whatever the answer, the credentials are
    /// wiped in place: every byte of them is zero afterwards, and their
    /// lengths are as before. The session is logged in from a success status
    /// on, and stays so.
    pub fn login(&mut self, username: &mut String, password: &mut String, outcome: HttpOutcome) -> (r:
        Result<(), UnifiAPIError>)
        ensures
            final(username)@ == wiped(old(username)@),
            final(password)@ == wiped(old(password)@),
            unit_verdict(r) == login_verdict(login_url(old(self)@.server_url), outcome@),
            final(self)@ == (ClientView {
                is_logged_in: old(self)@.is_logged_in || r is Ok,
                ..old(self)@
            }),
    {
        wipe(password);
        wipe(username);
        match outcome {
            HttpOutcome::Failed { detail } => Err(
                UnifiAPIError::ReqwestError { outcome: HttpOutcome::Failed { detail } },
            ),
            HttpOutcome::Status { code } => {
                if code == BAD_REQUEST {
                    Err(UnifiAPIError::LoginAuthenticationError { url: self.login_url() })
                } else if 200 <= code && code < 300 {
                    self.is_logged_in = true;
                    Ok(())
                } else {
                    Err(UnifiAPIError::ReqwestError { outcome: HttpOutcome::Status { code } })
                }
            },
        }
    }

    /// Judges the answer to a query before its body is read: no response,
    /// and a response with an error status, are failures to communicate.
    pub fn api_call(&self, outcome: HttpOutcome) -> (r: Result<(), UnifiAPIError>)
        ensures
            unit_verdict(r) == call_verdict(outcome@),
    {
        match outcome {
            HttpOutcome::Failed { detail } => Err(
                UnifiAPIError::ReqwestError { outcome: HttpOutcome::Failed { detail } },
            ),
            HttpOutcome::Status { code } => {
                if 400 <= code && code < 600 {
                    Err(UnifiAPIError::ReqwestError { outcome: HttpOutcome::Status { code } })
                } else {
                    Ok(())
                }
            },
        }
    }

    /// Takes the answer to the query for the sites, which the caller has
    /// sent to [`UnifiClient::sites_url`]: `body` holds the answer's JSON
    /// document, or why none could be read. The sites come in the order of
    /// the document.
    pub fn get_sites(&self, outcome: HttpOutcome, body: Result<Json, String>) -> (r: Result<
        Vec<UnifiSite>,
        UnifiAPIError,
    >)
        requires
            self@.is_logged_in,
        ensures
            sites_verdict(r) == query_verdict(
                sites_url(self@.server_url),
                outcome@,
                decoded_sites(body),
            ),
    {
        match self.api_call(outcome) {
            Err(e) => Err(e),
            Ok(_) => match decode_sites(body) {
                Ok(data) => Ok(data),
                Err(cause) => Err(UnifiAPIError::JsonError { url: self.sites_url(), cause }),
            },
        }
    }

    /// Takes the answer to the query for the devices of the site
    /// `site_code`, which the caller has sent to
    /// [`UnifiClient::site_devices_url`]: `body` holds the answer's JSON
    /// document, or why none could be read. The devices come in the order of
    /// the document; an entry that is no device is passed over.
    pub fn get_site_devices_basic(
        &self,
        site_code: &str,
        outcome: HttpOutcome,
        body: Result<Json, String>,
    ) -> (r: Result<Vec<UnifiDeviceBasic>, UnifiAPIError>)
        requires
            self@.is_logged_in,
        ensures
            devices_verdict(r) == query_verdict(
                site_devices_url(self@.server_url, site_code@),
                outcome@,
                decoded_devices(body),
            ),
    {
        match self.api_call(outcome) {
            Err(e) => Err(e),
            Ok(_) => match decode_devices(body) {
                Ok(data) => Ok(data),
                Err(cause) => Err(
                    UnifiAPIError::JsonError { url: self.site_devices_url(site_code), cause },
                ),
            },
        }
    }
}

impl HttpOutcomeView {
    /// The outcome in words: what kept the response from coming, or the
    /// status of the response.
    pub open spec fn words(self) -> Seq<char> {
        match self {
            HttpOutcomeView::Failed { detail } => detail,
            HttpOutcomeView::Status { code } => "HTTP status "@ + decimal(code as nat),
        }
    }
}

impl HttpOutcome {
    /// The outcome in words.
    pub fn words(&self) -> (r: String)
        ensures
            r@ == self@.words(),
    {
        match self {
            HttpOutcome::Failed { detail } => detail.clone(),
            HttpOutcome::Status { code } => {
                let mut out: String = String::from_str("HTTP status ");
                push_decimal(&mut out, *code as u64);
                out
            },
        }
    }
}

impl ApiErrorView {
    /// What the error says to the user.
    pub open spec fn message(self) -> Seq<char> {
        match self {
            ApiErrorView::ClientError { .. } => "Error building reqwest client"@,
            ApiErrorView::LoginAuthenticationError { .. } => "Invalid credentials"@,
            ApiErrorView::ReqwestError { .. } =>
                "Error communicating with Unifi API, check your URL & try again"@,
            ApiErrorView::JsonError { url, .. } => "Error parsing json from\n"@ + url,
        }
    }

    /// What lies behind the error, where more is known.
    pub open spec fn source(self) -> Option<Seq<char>> {
        match self {
            ApiErrorView::ClientError { detail } => Some(detail),
            ApiErrorView::LoginAuthenticationError { .. } => None,
            ApiErrorView::ReqwestError { outcome } => Some(outcome.words()),
            ApiErrorView::JsonError { cause, .. } => Some(cause),
        }
    }
}

/// The text of an optional string.
pub open spec fn source_view(source: Option<String>) -> Option<Seq<char>> {
    match source {
        Some(text) => Some(text@),
        None => None,
    }
}

impl UnifiAPIError {
    /// What the error says to the user.
    pub fn message(&self) -> (r: String)
        ensures
            r@ == self@.message(),
    {
        match self {
            UnifiAPIError::ClientError { .. } => String::from_str("Error building reqwest client"),
            UnifiAPIError::LoginAuthenticationError { .. } => String::from_str(
                "Invalid credentials",
            ),
            UnifiAPIError::ReqwestError { .. } => String::from_str(
                "Error communicating with Unifi API, check your URL & try again",
            ),
            UnifiAPIError::JsonError { url, .. } => concat2(
                "Error parsing json from\n",
                url.as_str(),
            ),
        }
    }

    /// What lies behind the error, where more is known.
    pub fn source(&self) -> (r: Option<String>)
        ensures
            source_view(r) == self@.source(),
    {
        match self {
            UnifiAPIError::ClientError { detail } => Some(detail.clone()),
            UnifiAPIError::LoginAuthenticationError { .. } => None,
            UnifiAPIError::ReqwestError { outcome } => Some(outcome.words()),
            UnifiAPIError::JsonError { cause, .. } => Some(cause.clone()),
        }
    }
}

} // verus!
