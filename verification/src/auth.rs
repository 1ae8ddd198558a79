//! The service account, the claims it asserts about itself, and the exchange
//! of a signed assertion for a bearer token.

use crate::error::PipelineError;
use crate::http::{pair, Body, Exchange, Field, HttpRequest, Method, Pair, Payload};
use vstd::prelude::*;
use vstd::string::StringExecFns;

verus! {

/// How long an assertion stays valid, in seconds.
pub const ONE_HOUR_SECS: i64 = 60 * 60;

pub const GOOGLE_OAUTH_URL: &'static str = "https://oauth2.googleapis.com/token";

pub const GRANT_TYPE: &'static str = "urn:ietf:params:oauth:grant-type:jwt-bearer";

pub const VISION_API_SCOPE: &'static str = "https://www.googleapis.com/auth/cloud-platform";

/// The key material of a service account, as its key file holds it. It is
/// read once and never changed.
#[derive(Debug, Clone, Default, PartialEq, Eq)]
pub struct Creds {
    pub account_type: String,
    pub project_id: String,
    pub private_key_id: String,
    pub private_key: String,
    pub client_email: String,
    pub client_id: String,
    pub auth_uri: String,
    pub token_uri: String,
    pub auth_provider_x509_cert_url: String,
    pub client_x509_cert_url: String,
}

/// What a service account asserts about itself when it asks for a token.
#[derive(Debug, Clone, Default, PartialEq, Eq)]
pub struct Claims {
    pub iss: String,
    pub scope: String,
    pub sub: String,
    pub aud: String,
    pub iat: i64,
    pub exp: i64,
}

/// Claims in terms of plain values.
pub struct Assertion {
    pub iss: Seq<char>,
    pub scope: Seq<char>,
    pub sub: Seq<char>,
    pub aud: Seq<char>,
    pub iat: int,
    pub exp: int,
}

impl View for Claims {
    type V = Assertion;

    open spec fn view(&self) -> Assertion {
        Assertion {
            iss: self.iss@,
            scope: self.scope@,
            sub: self.sub@,
            aud: self.aud@,
            iat: self.iat as int,
            exp: self.exp as int,
        }
    }
}

impl Assertion {
    /// The claims that `email` makes towards `audience` at the time `now`:
    /// issuer and subject are the account itself, the scope is fixed, and the
    /// assertion expires one hour after it was issued.
    pub open spec fn issued(email: Seq<char>, audience: Seq<char>, now: int) -> Assertion {
        Assertion {
            iss: email,
            scope: VISION_API_SCOPE@,
            sub: email,
            aud: audience,
            iat: now,
            exp: now + ONE_HOUR_SECS,
        }
    }

    /// The account speaks for itself, and for one hour.
    pub open spec fn wf(self) -> bool {
        &&& self.iss == self.sub
        &&& self.exp == self.iat + 3600
    }
}

impl Claims {
    /// The claims of `email` towards `api_endpoint`, issued at `now`, in
    /// seconds since the epoch.
    pub fn new(email: &str, api_endpoint: &str, now: i64) -> (claims: Self)
        requires
            now + ONE_HOUR_SECS <= i64::MAX,
        ensures
            claims@ == Assertion::issued(email@, api_endpoint@, now as int),
            claims@.wf(),
    {
        Claims {
            iss: email.to_owned(),
            scope: VISION_API_SCOPE.to_owned(),
            sub: email.to_owned(),
            aud: api_endpoint.to_owned(),
            iat: now,
            exp: now + ONE_HOUR_SECS,
        }
    }

    /// The claims that the account of `creds` makes towards its own token
    /// endpoint at the time `now`.
    pub fn for_credentials(creds: &Creds, now: i64) -> (claims: Self)
        requires
            now + ONE_HOUR_SECS <= i64::MAX,
        ensures
            claims@ == Assertion::issued(creds.client_email@, creds.token_uri@, now as int),
            claims@.wf(),
    {
        Claims::new(creds.client_email.as_str(), creds.token_uri.as_str(), now)
    }
}

/// Whatever the account and the time, the claims expire exactly one hour
/// after they were issued, and issuer and subject are both the account's
/// email.
pub proof fn lemma_claims_of_account(creds: Creds, now: int)
    ensures
        Assertion::issued(creds.client_email@, creds.token_uri@, now).exp == Assertion::issued(
            creds.client_email@,
            creds.token_uri@,
            now,
        ).iat + 3600,
        Assertion::issued(creds.client_email@, creds.token_uri@, now).iat == now,
        Assertion::issued(creds.client_email@, creds.token_uri@, now).iss == creds.client_email@,
        Assertion::issued(creds.client_email@, creds.token_uri@, now).sub == creds.client_email@,
        Assertion::issued(creds.client_email@, creds.token_uri@, now).wf(),
{
}

/// The bearer token that the token endpoint hands out.
#[derive(Debug, Clone, Default, PartialEq, Eq)]
pub struct AccessTokenResponse {
    pub access_token: String,
    pub expires_in: u32,
    pub token_type: String,
}

/// The form that asks the token endpoint for a token: the grant type of a
/// JWT bearer, and the signed assertion.
pub open spec fn token_form(jwt: Seq<char>) -> Seq<Pair> {
    seq![pair("grant_type"@, GRANT_TYPE@), pair("assertion"@, jwt)]
}

/// The two fields of the form that presents `jwt` to the token endpoint.
pub fn token_request_form(jwt: &str) -> (form: Vec<Field>)
    ensures
        form.deep_view() == token_form(jwt@),
{
    let mut form: Vec<Field> = Vec::new();
    form.push(Field::new("grant_type", GRANT_TYPE));
    form.push(Field::new("assertion", jwt));
    assert(form.deep_view() =~= token_form(jwt@));
    form
}

/// The request that carries a form to the token endpoint: one POST, with
/// the form as its body and no header of its own.
pub fn init_request(endpoint: &str, form: Vec<Field>) -> (request: HttpRequest)
    ensures
        request@ == (Exchange {
            method: Method::Post,
            url: endpoint@,
            headers: Seq::empty(),
            body: Payload::Form(form.deep_view()),
        }),
{
    let headers: Vec<Field> = Vec::new();
    assert(headers.deep_view() =~= Seq::<Pair>::empty());
    HttpRequest { method: Method::Post, url: endpoint.to_owned(), headers, body: Body::Form(form) }
}

/// The status of a reply says that the request succeeded.
pub open spec fn is_success(status: u16) -> bool {
    200 <= status < 300
}

/// What the reply of the token endpoint amounts to. `token` is the body read
/// as a token, where it has that shape. The token counts only under a 2xx
/// status; every other reply is an error that carries status and body as
/// they came.
pub fn token_from_reply(status: u16, body: String, token: Option<AccessTokenResponse>) -> (r:
    Result<AccessTokenResponse, PipelineError>)
    ensures
        is_success(status) && token is Some ==> r == Ok::<AccessTokenResponse, PipelineError>(
            token->0,
        ),
        !(is_success(status) && token is Some) ==> r == Err::<AccessTokenResponse, PipelineError>(
            PipelineError::TokenExchange { status, body },
        ),
{
    match token {
        Some(token) => {
            if 200 <= status && status < 300 {
                Ok(token)
            } else {
                Err(PipelineError::TokenExchange { status, body })
            }
        },
        None => Err(PipelineError::TokenExchange { status, body }),
    }
}

/// The value of the `Authorization` header that presents a bearer token.
pub fn bearer(access_token: &str) -> (value: String)
    ensures
        value@ == "Bearer "@ + access_token@,
{
    "Bearer ".to_owned().concat(access_token)
}

} // verus!
