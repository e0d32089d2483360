//! The session manager: the four remote operations of the authentication
//! protocol, and the local reuse check.
//!
//! Each remote operation is split at the transport boundary: a request
//! builder pins down exactly what is sent, and a response decoder pins down
//! what every possible body decodes to. The transport in between only
//! carries bytes; it is handed an [`HttpRequest`] and brings back the body
//! text.

use crate::config::Config;
use crate::json::{get_field, optional_string_member, string_member, FieldLookup, FieldValue};
use crate::store::{
    jar_contents, jar_get, jar_has_key, jar_never_expires, jar_of_json, jar_serializable,
    jar_to_json, jar_value, StoreError,
};
use reqwest_cookie_store::CookieStore;
use vstd::prelude::*;

verus! {

/// Response of the login step: the pending-session identifier the identity
/// service issued for this attempt. Not yet an authenticated token.
#[derive(Debug)]
pub struct AuthResponse {
    pub session: String,
}

/// Response of the whoami step: the identity the session cookie
/// authenticates. An absent email means the server did not recognize the
/// session; that is a reported outcome, not an error.
#[derive(Debug, PartialEq, Eq)]
pub struct UserData {
    pub email: Option<String>,
}

/// Response of the confirm step: the opaque bearer credential the broker
/// minted after verifying the one-time code.
#[derive(Debug)]
pub struct VerifyResponse {
    pub id_token: String,
}

/// Which remote call's response failed to decode.
#[derive(Clone, Copy, Debug, PartialEq, Eq, Structural)]
pub enum DecodeError {
    Login,
    Confirm,
    Whoami,
}

impl DecodeError {
    /// The context line reported for this failure.
    pub fn message(&self) -> (r: String)
        ensures
            *self == DecodeError::Login ==> r@ == "Failed to parse response as JSON"@,
            *self == DecodeError::Confirm ==> r@ == "Failed to parse confirmation response as JSON"@,
            *self == DecodeError::Whoami ==> r@ == "Failed to parse user data as JSON"@,
    {
        match self {
            DecodeError::Login => String::from_str("Failed to parse response as JSON"),
            DecodeError::Confirm => String::from_str(
                "Failed to parse confirmation response as JSON",
            ),
            DecodeError::Whoami => String::from_str("Failed to parse user data as JSON"),
        }
    }
}

/// HTTP method of a protocol request.
#[derive(Clone, Copy, Debug, PartialEq, Eq, Structural)]
pub enum Method {
    Get,
    Post,
}

/// One form field of a request body.
#[derive(Debug)]
pub struct FormField {
    pub name: String,
    pub value: String,
}

/// A fully determined protocol request, for the transport to send: method,
/// absolute URL, and the form fields of the body. Every request of the flow
/// declares `Accept: application/json`.
#[derive(Debug)]
pub struct HttpRequest {
    pub method: Method,
    pub url: String,
    pub form: Vec<FormField>,
}

pub struct Session;

impl Session {
    /// The local reuse check: looks the session cookie up in the jar under
    /// the configured (host, "/", name) coordinates. No network call. A
    /// found token is exactly the jar's entry under that key; a jar without
    /// the key reports no session and an empty token; and a cookie without
    /// an expiry moment — the kind this protocol's claim step sets — is
    /// always found.
    pub fn load(store: &CookieStore, cfg: &Config) -> (r: (bool, String))
        ensures
            r.0 ==> jar_has_key(
                *store,
                (cfg.rpc_endpoint@, "/"@, cfg.session_cookie_name@),
            ) && r.1@ == jar_value(*store, (cfg.rpc_endpoint@, "/"@, cfg.session_cookie_name@)),
            !jar_has_key(
                *store,
                (cfg.rpc_endpoint@, "/"@, cfg.session_cookie_name@),
            ) ==> !r.0,
            jar_never_expires(
                *store,
                (cfg.rpc_endpoint@, "/"@, cfg.session_cookie_name@),
            ) ==> r.0 && r.1@ == jar_value(
                *store,
                (cfg.rpc_endpoint@, "/"@, cfg.session_cookie_name@),
            ),
            !r.0 ==> r.1@ == Seq::<char>::empty(),
    {
        match jar_get(store, cfg.rpc_endpoint.as_str(), "/", cfg.session_cookie_name.as_str()) {
            Some(token) => (true, token),
            None => (false, String::new()),
        }
    }

    /// Serializes the jar for persistence; the caller writes the bytes to
    /// the store file, wholesale, after a successful claim. The bytes
    /// encode exactly the jar's contents, so `Store::load` of them recovers
    /// the same cookies; a failure to serialize is reported, never
    /// swallowed.
    pub fn save(store: &CookieStore) -> (r: Result<Vec<u8>, StoreError>)
        ensures
            r is Ok <==> jar_serializable(*store),
            (r matches Ok(b) ==> jar_of_json(b@) == Some(jar_contents(*store))),
            (r matches Err(e) ==> e == StoreError::Serialize),
    {
        jar_to_json(store)
    }

    /// Builds the login request: a form-encoded POST of `email` to the
    /// identity service's `/login` route.
    pub fn login_request(cfg: &Config, email: &str) -> (r: HttpRequest)
        ensures
            r.method == Method::Post,
            r.url@ == cfg.rpc_addr@ + "/login"@,
            r.form@.len() == 1,
            r.form@[0].name@ == "email"@,
            r.form@[0].value@ == email@,
    {
        let mut url = cfg.rpc_addr.clone();
        url.append("/login");
        let mut form: Vec<FormField> = Vec::new();
        form.push(FormField { name: String::from_str("email"), value: String::from_str(email) });
        HttpRequest { method: Method::Post, url, form }
    }

    /// Decodes the login response: a JSON object whose `session` member is
    /// the pending-session identifier. Anything else is a decode error.
    pub fn login_response(body: &str) -> (r: Result<AuthResponse, DecodeError>)
        ensures
            (match string_member(body@, "session"@) {
                Some(v) => r matches Ok(a) && a.session@ == v,
                None => r matches Err(e) && e == DecodeError::Login,
            }),
    {
        match get_field(body, "session") {
            FieldLookup::Found(FieldValue::Text(v)) => Ok(AuthResponse { session: v }),
            _ => Err(DecodeError::Login),
        }
    }

    /// Builds the confirm request: a form-encoded POST of the pending
    /// session and the one-time code to the broker's `/confirm` route. The
    /// broker is a different service than the identity service.
    pub fn confirm_request(cfg: &Config, session: &str, code: &str) -> (r: HttpRequest)
        ensures
            r.method == Method::Post,
            r.url@ == cfg.broker_addr@ + "/confirm"@,
            r.form@.len() == 2,
            r.form@[0].name@ == "session"@,
            r.form@[0].value@ == session@,
            r.form@[1].name@ == "code"@,
            r.form@[1].value@ == code@,
    {
        let mut url = cfg.broker_addr.clone();
        url.append("/confirm");
        let mut form: Vec<FormField> = Vec::new();
        form.push(
            FormField { name: String::from_str("session"), value: String::from_str(session) },
        );
        form.push(FormField { name: String::from_str("code"), value: String::from_str(code) });
        HttpRequest { method: Method::Post, url, form }
    }

    /// Decodes the confirm response: a JSON object whose `id_token` member
    /// is the bearer credential. Anything else is a decode error.
    pub fn confirm_response(body: &str) -> (r: Result<VerifyResponse, DecodeError>)
        ensures
            (match string_member(body@, "id_token"@) {
                Some(v) => r matches Ok(a) && a.id_token@ == v,
                None => r matches Err(e) && e == DecodeError::Confirm,
            }),
    {
        match get_field(body, "id_token") {
            FieldLookup::Found(FieldValue::Text(v)) => Ok(VerifyResponse { id_token: v }),
            _ => Err(DecodeError::Confirm),
        }
    }

    /// Builds the claim request: a form-encoded POST of the bearer
    /// credential to the identity service's `/claim` route. On success the
    /// server sets the session cookie on its response; capturing it into
    /// the jar is the transport's side, and the plain-text body comes back
    /// as an informational string only.
    pub fn claim_request(cfg: &Config, id_token: &str) -> (r: HttpRequest)
        ensures
            r.method == Method::Post,
            r.url@ == cfg.rpc_addr@ + "/claim"@,
            r.form@.len() == 1,
            r.form@[0].name@ == "id_token"@,
            r.form@[0].value@ == id_token@,
    {
        let mut url = cfg.rpc_addr.clone();
        url.append("/claim");
        let mut form: Vec<FormField> = Vec::new();
        form.push(
            FormField { name: String::from_str("id_token"), value: String::from_str(id_token) },
        );
        HttpRequest { method: Method::Post, url, form }
    }

    /// Builds the whoami request: a GET of the identity service's `/whoami`
    /// route, with no form body.
    pub fn whoami_request(cfg: &Config) -> (r: HttpRequest)
        ensures
            r.method == Method::Get,
            r.url@ == cfg.rpc_addr@ + "/whoami"@,
            r.form@.len() == 0,
    {
        let mut url = cfg.rpc_addr.clone();
        url.append("/whoami");
        HttpRequest { method: Method::Get, url, form: Vec::new() }
    }

    /// Decodes the whoami response: a JSON object whose optional `email`
    /// member is the confirmed identity. A null or absent email decodes to
    /// no identity — a normal outcome, not an error; only a body outside
    /// the grammar is a decode error.
    pub fn whoami_response(body: &str) -> (r: Result<UserData, DecodeError>)
        ensures
            (match optional_string_member(body@, "email"@) {
                Some(o) => r matches Ok(u) && (match o {
                    Some(v) => u.email matches Some(e) && e@ == v,
                    None => u.email is None,
                }),
                None => r matches Err(e2) && e2 == DecodeError::Whoami,
            }),
    {
        match get_field(body, "email") {
            FieldLookup::Found(FieldValue::Text(v)) => Ok(UserData { email: Some(v) }),
            FieldLookup::Found(FieldValue::Null) => Ok(UserData { email: None }),
            FieldLookup::Missing => Ok(UserData { email: None }),
            FieldLookup::Malformed => Err(DecodeError::Whoami),
        }
    }

    /// True when whoami confirmed an identity.
    pub fn is_authenticated(user: &UserData) -> (r: bool)
        ensures
            r == (user.email is Some),
    {
        user.email.is_some()
    }

    /// The status line the flow ends with: the confirmed identity, or the
    /// login-failure message. An absent email is reported, never raised.
    pub fn identity_report(user: &UserData) -> (r: String)
        ensures
            (user.email matches Some(e) ==> r@ == "Logged in as: "@ + e@),
            user.email is None ==> r@ == "Unable to login. Please try again"@,
    {
        match &user.email {
            Some(e) => {
                let mut line = String::from_str("Logged in as: ");
                line.append(e.as_str());
                line
            },
            None => String::from_str("Unable to login. Please try again"),
        }
    }
}

} // verus!
