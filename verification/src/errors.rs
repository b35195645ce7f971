//! The errors of the library, and how a failed call is classified.

use vstd::prelude::*;
use vstd::std_specs::convert::FromSpecImpl;
use vstd::string::*;
use crate::text::{decimal_text, number_text};
use crate::api::{JobErrors, AuthenticationErrors};
use crate::config::ConfigErrors;

verus! {

/// A region that could not be validated, with its text and its index.
#[derive(Debug)]
pub enum ValidationErrors {
    InvalidRegion(String, usize),
}

/// A configuration value that a request cannot carry.
#[derive(Debug, PartialEq, Eq)]
pub struct ConversionError {
    pub message: String,
}

/// How one call of the service failed. A status is the HTTP status of the
/// response, where there was one.
#[derive(Clone, Copy, Debug, PartialEq, Eq, Structural)]
pub enum ClientError {
    /// The request could not be built.
    InvalidRequest,
    /// The server could not be reached, or did not answer in time.
    CommunicationError,
    /// The connection could not be upgraded.
    InvalidUpgrade,
    /// The server answered with a documented error.
    ErrorResponse(u16),
    /// The body of the answer could not be read.
    ResponseBodyError,
    /// The body of the answer could not be understood.
    InvalidResponsePayload,
    /// The server answered with a status that is not documented.
    UnexpectedResponse(u16),
    /// A hook refused the request before it was sent.
    PreHookError,
}

/// Why a job failed.
#[derive(Debug, PartialEq, Eq)]
pub enum Errors {
    /// The service refused the API key.
    UnauthorizedError,
    /// The account has too little funds for the job.
    LowFunds,
    /// The configuration holds a value that the request cannot carry.
    ImpossibleRequestConfiguration(ConversionError),
    /// The call failed in another way, also after its retries.
    ProgenitorError(ClientError),
    /// The execution of the job was aborted.
    TaskExecutionFailure,
}

pub const STATUS_OK: u16 = 200;

pub const STATUS_UNAUTHORIZED: u16 = 401;

pub const STATUS_PAYMENT_REQUIRED: u16 = 402;

impl ClientError {
    /// The HTTP status that came with the failure, if any.
    pub open spec fn status(self) -> Option<u16> {
        match self {
            ClientError::ErrorResponse(s) => Some(s),
            ClientError::UnexpectedResponse(s) => Some(s),
            _ => None,
        }
    }

    /// Whether the failure lies in the transport, so that the same call may
    /// succeed later: the server was not reached or did not answer in time,
    /// or it answered with a status from 500 to 599.
    pub open spec fn is_transient(self) -> bool {
        match self {
            ClientError::CommunicationError => true,
            ClientError::ErrorResponse(s) => 500 <= s <= 599,
            ClientError::UnexpectedResponse(s) => 500 <= s <= 599,
            _ => false,
        }
    }

    /// The HTTP status that came with the failure, if any.
    pub fn http_status(&self) -> (r: Option<u16>)
        ensures
            r == self.status(),
    {
        match self {
            ClientError::ErrorResponse(s) => Some(*s),
            ClientError::UnexpectedResponse(s) => Some(*s),
            _ => None,
        }
    }

    /// Whether the call may be tried again.
    pub fn is_retryable(&self) -> (r: bool)
        ensures
            r == self.is_transient(),
    {
        match self {
            ClientError::CommunicationError => true,
            ClientError::ErrorResponse(s) => 500 <= *s && *s <= 599,
            ClientError::UnexpectedResponse(s) => 500 <= *s && *s <= 599,
            _ => false,
        }
    }
}

/// The error that a failed call is reported as: status 401 is
/// `UnauthorizedError`, status 402 is `LowFunds`, anything else is carried on
/// as it is.
pub open spec fn classify(e: ClientError) -> Errors {
    if e.status() == Some(STATUS_UNAUTHORIZED) {
        Errors::UnauthorizedError
    } else if e.status() == Some(STATUS_PAYMENT_REQUIRED) {
        Errors::LowFunds
    } else {
        Errors::ProgenitorError(e)
    }
}

impl From<ClientError> for Errors {
    fn from(value: ClientError) -> (r: Errors) {
        match value.http_status() {
            Some(s) if s == STATUS_UNAUTHORIZED => Errors::UnauthorizedError,
            Some(s) if s == STATUS_PAYMENT_REQUIRED => Errors::LowFunds,
            _ => Errors::ProgenitorError(value),
        }
    }
}

impl FromSpecImpl<ClientError> for Errors {
    open spec fn obeys_from_spec() -> bool {
        true
    }

    open spec fn from_spec(v: ClientError) -> Errors {
        classify(v)
    }
}

impl Errors {
    /// Whether the error is of the fatal class: the key or the funds are at
    /// fault, not the job.
    pub open spec fn fatal(self) -> bool {
        self is UnauthorizedError || self is LowFunds
    }

    /// Whether the error is of the fatal class.
    pub fn is_fatal(&self) -> (r: bool)
        ensures
            r == self.fatal(),
    {
        match self {
            Errors::UnauthorizedError => true,
            Errors::LowFunds => true,
            _ => false,
        }
    }
}

/// A status of 401 or 402 is terminal: it is not transient, and it is
/// classified as a fatal error that names it.
pub proof fn lemma_terminal_statuses(e: ClientError)
    ensures
        e.status() == Some(STATUS_UNAUTHORIZED) ==> !e.is_transient() && classify(e)
            == Errors::UnauthorizedError,
        e.status() == Some(STATUS_PAYMENT_REQUIRED) ==> !e.is_transient() && classify(e)
            == Errors::LowFunds,
        classify(e).fatal() <==> (e.status() == Some(STATUS_UNAUTHORIZED) || e.status() == Some(
            STATUS_PAYMENT_REQUIRED,
        )),
{
}

impl ValidationErrors {
    /// The error in words.
    pub open spec fn message(self) -> Seq<char> {
        match self {
            ValidationErrors::InvalidRegion(region, index) => "Invalid region: "@ + region@
                + ", index: "@ + decimal_text(index as nat),
        }
    }

    /// The error in words.
    pub fn to_string(&self) -> (r: String)
        ensures
            r@ == self.message(),
    {
        match self {
            ValidationErrors::InvalidRegion(region, index) => {
                let mut text = String::from_str("Invalid region: ");
                text.append(region.as_str());
                text.append(", index: ");
                let number = number_text(*index);
                text.append(number.as_str());
                text
            },
        }
    }
}

impl ClientError {
    /// The failure in words.
    pub open spec fn message(self) -> Seq<char> {
        match self {
            ClientError::InvalidRequest => "Invalid Request"@,
            ClientError::CommunicationError => "Communication Error"@,
            ClientError::InvalidUpgrade => "Invalid Response Upgrade"@,
            ClientError::ErrorResponse(s) => "Error Response: status: "@ + decimal_text(s as nat),
            ClientError::ResponseBodyError => "Invalid Response Body Bytes"@,
            ClientError::InvalidResponsePayload => "Invalid Response Payload"@,
            ClientError::UnexpectedResponse(s) => "Unexpected Response: status: "@ + decimal_text(
                s as nat,
            ),
            ClientError::PreHookError => "Pre-hook Error"@,
        }
    }

    /// The failure in words.
    pub fn to_string(&self) -> (r: String)
        ensures
            r@ == self.message(),
    {
        match self {
            ClientError::InvalidRequest => String::from_str("Invalid Request"),
            ClientError::CommunicationError => String::from_str("Communication Error"),
            ClientError::InvalidUpgrade => String::from_str("Invalid Response Upgrade"),
            ClientError::ErrorResponse(s) => {
                let mut text = String::from_str("Error Response: status: ");
                let number = number_text(*s as usize);
                text.append(number.as_str());
                text
            },
            ClientError::ResponseBodyError => String::from_str("Invalid Response Body Bytes"),
            ClientError::InvalidResponsePayload => String::from_str("Invalid Response Payload"),
            ClientError::UnexpectedResponse(s) => {
                let mut text = String::from_str("Unexpected Response: status: ");
                let number = number_text(*s as usize);
                text.append(number.as_str());
                text
            },
            ClientError::PreHookError => String::from_str("Pre-hook Error"),
        }
    }
}

impl Errors {
    /// The error in words.
    pub open spec fn message(self) -> Seq<char> {
        match self {
            Errors::UnauthorizedError =>
                "Unable to call Bitping API. Please set BITPING_API_KEY environment variable."@,
            Errors::LowFunds =>
                "Funds are too low to create a job, top up your account at https://app.bitping.com"@,
            Errors::ImpossibleRequestConfiguration(e) =>
                "Some configuration was passed to the request that is not allowed "@ + e.message@,
            Errors::ProgenitorError(e) => e.message(),
            Errors::TaskExecutionFailure => "The execution of the job was aborted"@,
        }
    }

    /// The error in words.
    pub fn to_string(&self) -> (r: String)
        ensures
            r@ == self.message(),
    {
        match self {
            Errors::UnauthorizedError => String::from_str(
                "Unable to call Bitping API. Please set BITPING_API_KEY environment variable.",
            ),
            Errors::LowFunds => String::from_str(
                "Funds are too low to create a job, top up your account at https://app.bitping.com",
            ),
            Errors::ImpossibleRequestConfiguration(e) => {
                let mut text = String::from_str(
                    "Some configuration was passed to the request that is not allowed ",
                );
                text.append(e.message.as_str());
                text
            },
            Errors::ProgenitorError(e) => e.to_string(),
            Errors::TaskExecutionFailure => String::from_str("The execution of the job was aborted"),
        }
    }
}

/// Any error of the program.
#[derive(Debug)]
pub enum BpingErrors {
    JobErrors(JobErrors),
    ConfigErrors(ConfigErrors),
    ValidationErrors(ValidationErrors),
    AuthenticationErrors(AuthenticationErrors),
}

impl BpingErrors {
    /// The error in words: those of the error inside.
    pub open spec fn message(self) -> Seq<char> {
        match self {
            BpingErrors::JobErrors(e) => e.message(),
            BpingErrors::ConfigErrors(e) => e.message(),
            BpingErrors::ValidationErrors(e) => e.message(),
            BpingErrors::AuthenticationErrors(e) => e.message(),
        }
    }

    /// The error in words.
    pub fn to_string(&self) -> (r: String)
        ensures
            r@ == self.message(),
    {
        match self {
            BpingErrors::JobErrors(e) => e.to_string(),
            BpingErrors::ConfigErrors(e) => e.to_string(),
            BpingErrors::ValidationErrors(e) => e.to_string(),
            BpingErrors::AuthenticationErrors(e) => e.to_string(),
        }
    }
}

} // verus!
