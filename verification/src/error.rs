//! What can go wrong between a credentials document and a list of items.
//! Every failure ends the run that met it; nothing is tried again.

use vstd::prelude::*;
use vstd::string::StringExecFns;

verus! {

/// The failures of the pipeline, each named after the step that reports it.
#[derive(Debug, Clone, PartialEq, Eq)]
pub enum PipelineError {
    /// The credentials document lacks a field or holds a malformed one.
    CredentialParse,
    /// The private key is no base64 text or no PKCS#8 RSA key.
    KeyDecode,
    /// The key cannot sign the digest.
    Signing,
    /// The token endpoint answered outside 2xx, or with a body of another shape.
    TokenExchange { status: u16, body: String },
    /// The text-detection service reported an error of its own.
    VisionApi { code: u32, message: String },
    /// The reply is neither a success nor a failure.
    MalformedShape,
    /// No annotation was left to choose the largest from.
    NoCandidate,
}

/// A failure in terms of plain values.
pub enum Failure {
    CredentialParse,
    KeyDecode,
    Signing,
    TokenExchange { status: u16, body: Seq<char> },
    VisionApi { code: u32, message: Seq<char> },
    MalformedShape,
    NoCandidate,
}

impl View for PipelineError {
    type V = Failure;

    open spec fn view(&self) -> Failure {
        match *self {
            PipelineError::CredentialParse => Failure::CredentialParse,
            PipelineError::KeyDecode => Failure::KeyDecode,
            PipelineError::Signing => Failure::Signing,
            PipelineError::TokenExchange { status, body } => Failure::TokenExchange {
                status,
                body: body@,
            },
            PipelineError::VisionApi { code, message } => Failure::VisionApi {
                code,
                message: message@,
            },
            PipelineError::MalformedShape => Failure::MalformedShape,
            PipelineError::NoCandidate => Failure::NoCandidate,
        }
    }
}

/// The outcome of a step that yields a text, in terms of plain values.
pub open spec fn text_of(r: Result<String, PipelineError>) -> Result<Seq<char>, Failure> {
    match r {
        Ok(text) => Ok(text@),
        Err(e) => Err(e@),
    }
}

/// What a failure asks of the user.
#[derive(Debug, Clone, Copy, PartialEq, Eq, Structural)]
pub enum ErrorClass {
    /// No bearer token could be had: look at the credentials.
    Authentication,
    /// The service refused the image: look at the image.
    Rejected,
    /// The service answered in a shape nobody expected.
    NotUnderstood,
    /// The image was read, and nothing in it can be chosen.
    NothingToSelect,
}

impl Failure {
    pub open spec fn class(self) -> ErrorClass {
        match self {
            Failure::CredentialParse => ErrorClass::Authentication,
            Failure::KeyDecode => ErrorClass::Authentication,
            Failure::Signing => ErrorClass::Authentication,
            Failure::TokenExchange { .. } => ErrorClass::Authentication,
            Failure::VisionApi { .. } => ErrorClass::Rejected,
            Failure::MalformedShape => ErrorClass::NotUnderstood,
            Failure::NoCandidate => ErrorClass::NothingToSelect,
        }
    }

    /// The text shown for a failure. What the service said is passed on as it
    /// came.
    pub open spec fn message(self) -> Seq<char> {
        match self {
            Failure::CredentialParse => "could not read the credentials"@,
            Failure::KeyDecode => "could not decode the private key"@,
            Failure::Signing => "could not sign the assertion"@,
            Failure::TokenExchange { status, body } => "could not exchange the assertion for a token: "@
                + body,
            Failure::VisionApi { code, message } => message,
            Failure::MalformedShape => "unexpected structure"@,
            Failure::NoCandidate => "no item to choose the largest from"@,
        }
    }
}

impl PipelineError {
    pub fn class(&self) -> (class: ErrorClass)
        ensures
            class == self@.class(),
    {
        match self {
            PipelineError::CredentialParse => ErrorClass::Authentication,
            PipelineError::KeyDecode => ErrorClass::Authentication,
            PipelineError::Signing => ErrorClass::Authentication,
            PipelineError::TokenExchange { .. } => ErrorClass::Authentication,
            PipelineError::VisionApi { .. } => ErrorClass::Rejected,
            PipelineError::MalformedShape => ErrorClass::NotUnderstood,
            PipelineError::NoCandidate => ErrorClass::NothingToSelect,
        }
    }

    pub fn message(&self) -> (text: String)
        ensures
            text@ == self@.message(),
    {
        match self {
            PipelineError::CredentialParse => "could not read the credentials".to_owned(),
            PipelineError::KeyDecode => "could not decode the private key".to_owned(),
            PipelineError::Signing => "could not sign the assertion".to_owned(),
            PipelineError::TokenExchange { status, body } => {
                "could not exchange the assertion for a token: ".to_owned().concat(body.as_str())
            },
            PipelineError::VisionApi { code, message } => message.clone(),
            PipelineError::MalformedShape => "unexpected structure".to_owned(),
            PipelineError::NoCandidate => "no item to choose the largest from".to_owned(),
        }
    }
}

} // verus!
