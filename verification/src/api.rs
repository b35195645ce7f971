//! The answers of the service: which status means what, and when polling
//! for the results of a job ends.

use vstd::prelude::*;
use vstd::string::*;
use crate::errors::{STATUS_OK, STATUS_PAYMENT_REQUIRED};
use crate::text::{str_eq, decimal_text, number_text};

verus! {

/// Why a job could not be created or read.
#[derive(Debug, PartialEq, Eq)]
pub enum JobErrors {
    /// The account has too little funds for the job.
    LowFunds,
    /// The service answered with another status than 200.
    OtherFailedStatus(u16),
    /// The service did not list its nodes.
    UnableToFindNodes,
    /// The service answered with an error, and a message.
    CustomHttpError(String, String),
    /// The call failed.
    HttpError(String),
    /// The answer could not be read.
    JsonError(String),
}

/// Why a user could not be logged in.
#[derive(Debug, PartialEq, Eq)]
pub enum AuthenticationErrors {
    LoginError,
    TokenExpired,
    InvalidEmail,
    HttpError(String),
    CredentialsFile(String),
    JsonError(String),
}

/// The wait between two polls that found no result, in milliseconds.
pub const POLL_INTERVAL_MS: u64 = 350;

/// What the status of the answer to a new job means: 200 is success, 402
/// is a lack of funds, any other status a failure that carries it.
pub fn post_job_status(status: u16) -> (r: Result<(), JobErrors>)
    ensures
        status == STATUS_OK ==> r is Ok,
        status == STATUS_PAYMENT_REQUIRED ==> r == Err::<(), JobErrors>(JobErrors::LowFunds),
        status != STATUS_OK && status != STATUS_PAYMENT_REQUIRED ==> r == Err::<(), JobErrors>(
            JobErrors::OtherFailedStatus(status),
        ),
{
    if status == STATUS_OK {
        Ok(())
    } else if status == STATUS_PAYMENT_REQUIRED {
        Err(JobErrors::LowFunds)
    } else {
        Err(JobErrors::OtherFailedStatus(status))
    }
}

/// What the status of the answer to a query for the nodes means: any other
/// status than 200 is a failure.
pub fn available_nodes_status(status: u16) -> (r: Result<(), JobErrors>)
    ensures
        status == STATUS_OK ==> r is Ok,
        status != STATUS_OK ==> r == Err::<(), JobErrors>(JobErrors::UnableToFindNodes),
{
    if status == STATUS_OK {
        Ok(())
    } else {
        Err(JobErrors::UnableToFindNodes)
    }
}

/// What the status of the answer to a login means: any other status than
/// 200 is a failure.
pub fn login_status(status: u16) -> (r: Result<(), AuthenticationErrors>)
    ensures
        status == STATUS_OK ==> r is Ok,
        status != STATUS_OK ==> r == Err::<(), AuthenticationErrors>(
            AuthenticationErrors::LoginError,
        ),
{
    if status == STATUS_OK {
        Ok(())
    } else {
        Err(AuthenticationErrors::LoginError)
    }
}

/// Whether `validator`'s `ValidateEmail::validate_email` takes a text for
/// an email address.
pub uninterp spec fn validator_email(text: Seq<char>) -> bool;

/// Calls `validator::ValidateEmail::validate_email` on the text. Trusted:
/// the result depends on the text alone.
#[verifier::external_body]
fn is_email(text: &str) -> (r: bool)
    ensures
        r == validator_email(text@),
{
    validator::ValidateEmail::validate_email(&text)
}

/// Whether a text can be the email address of a login: it is refused as an
/// invalid email exactly if it is no email address.
pub fn validate_login_email(email: &str) -> (r: Result<(), AuthenticationErrors>)
    ensures
        validator_email(email@) ==> r is Ok,
        !validator_email(email@) ==> r == Err::<(), AuthenticationErrors>(
            AuthenticationErrors::InvalidEmail,
        ),
{
    if is_email(email) {
        Ok(())
    } else {
        Err(AuthenticationErrors::InvalidEmail)
    }
}

/// What one poll for the results of a job brought.
#[derive(Debug)]
pub enum PollReply {
    /// The call failed, with the cause in words.
    SendFailed(String),
    /// The service answered with an error status.
    ErrorStatus,
    /// The answer could not be read, with the cause in words.
    Unreadable(String),
    /// The answer was read: the number of results in it, and the status of
    /// the job.
    Read { responses: usize, status: String },
}

/// What is done after one poll.
#[derive(Debug, PartialEq, Eq)]
pub enum PollAction {
    /// Polling ends: the answer holds the results.
    Done,
    /// The service is polled again after so many milliseconds.
    WaitAndPoll(u64),
    /// Polling ends in failure.
    Fail(JobErrors),
}

/// What is done after a poll that brought `reply`. A failed call and an
/// unreadable answer end the polling in failure. An answer that was read
/// ends the polling if it holds a result or the job's status is "done".
/// After any other answer, an error status too, the service is polled again
/// after the poll interval.
pub open spec fn poll_action(reply: PollReply) -> PollAction {
    match reply {
        PollReply::SendFailed(cause) => PollAction::Fail(JobErrors::HttpError(cause)),
        PollReply::ErrorStatus => PollAction::WaitAndPoll(POLL_INTERVAL_MS),
        PollReply::Unreadable(cause) => PollAction::Fail(JobErrors::HttpError(cause)),
        PollReply::Read { responses, status } => if responses > 0 || status@ == "done"@ {
            PollAction::Done
        } else {
            PollAction::WaitAndPoll(POLL_INTERVAL_MS)
        },
    }
}

/// What is done after one poll for the results of a job.
pub fn get_job_results(reply: PollReply) -> (r: PollAction)
    ensures
        r == poll_action(reply),
{
    match reply {
        PollReply::SendFailed(cause) => PollAction::Fail(JobErrors::HttpError(cause)),
        PollReply::ErrorStatus => PollAction::WaitAndPoll(POLL_INTERVAL_MS),
        PollReply::Unreadable(cause) => PollAction::Fail(JobErrors::HttpError(cause)),
        PollReply::Read { responses, status } => {
            if responses > 0 || str_eq(status.as_str(), "done") {
                PollAction::Done
            } else {
                PollAction::WaitAndPoll(POLL_INTERVAL_MS)
            }
        },
    }
}

/// Polling goes on at the poll interval and in no other way: whatever a
/// poll brought, the polling has ended, or the next poll comes after the
/// poll interval.
pub proof fn lemma_polls_at_interval(reply: PollReply)
    ensures
        poll_action(reply) is Done || poll_action(reply) is Fail || poll_action(reply)
            == PollAction::WaitAndPoll(POLL_INTERVAL_MS),
        poll_action(reply) is Done <==> reply is Read && (reply->responses > 0
            || reply->status@ == "done"@),
        poll_action(reply) is Fail <==> reply is SendFailed || reply is Unreadable,
{
}

impl JobErrors {
    /// The error in words.
    pub open spec fn message(self) -> Seq<char> {
        match self {
            JobErrors::LowFunds =>
                "Funds are too low to create a job, top up your account at https://app.bitping.com"@,
            JobErrors::OtherFailedStatus(status) => "Failed to create job with error code "@
                + decimal_text(status as nat),
            JobErrors::UnableToFindNodes => "Unable to find nodes in the specified region"@,
            JobErrors::CustomHttpError(cause, detail) => cause@ + " "@ + detail@,
            JobErrors::HttpError(cause) => cause@,
            JobErrors::JsonError(cause) => cause@,
        }
    }

    /// The error in words.
    pub fn to_string(&self) -> (r: String)
        ensures
            r@ == self.message(),
    {
        match self {
            JobErrors::LowFunds => String::from_str(
                "Funds are too low to create a job, top up your account at https://app.bitping.com",
            ),
            JobErrors::OtherFailedStatus(status) => {
                let mut text = String::from_str("Failed to create job with error code ");
                let number = number_text(*status as usize);
                text.append(number.as_str());
                text
            },
            JobErrors::UnableToFindNodes => String::from_str(
                "Unable to find nodes in the specified region",
            ),
            JobErrors::CustomHttpError(cause, detail) => {
                let mut text = cause.clone();
                text.append(" ");
                text.append(detail.as_str());
                text
            },
            JobErrors::HttpError(cause) => cause.clone(),
            JobErrors::JsonError(cause) => cause.clone(),
        }
    }
}

impl AuthenticationErrors {
    /// The error in words.
    pub open spec fn message(self) -> Seq<char> {
        match self {
            AuthenticationErrors::LoginError => "Unable to log in"@,
            AuthenticationErrors::TokenExpired =>
                "Provided token has expired, please log in again."@,
            AuthenticationErrors::InvalidEmail => "Provided email is invalid. Please try again."@,
            AuthenticationErrors::HttpError(cause) => cause@,
            AuthenticationErrors::CredentialsFile(cause) => cause@,
            AuthenticationErrors::JsonError(cause) => cause@,
        }
    }

    /// The error in words.
    pub fn to_string(&self) -> (r: String)
        ensures
            r@ == self.message(),
    {
        match self {
            AuthenticationErrors::LoginError => String::from_str("Unable to log in"),
            AuthenticationErrors::TokenExpired => String::from_str(
                "Provided token has expired, please log in again.",
            ),
            AuthenticationErrors::InvalidEmail => String::from_str(
                "Provided email is invalid. Please try again.",
            ),
            AuthenticationErrors::HttpError(cause) => cause.clone(),
            AuthenticationErrors::CredentialsFile(cause) => cause.clone(),
            AuthenticationErrors::JsonError(cause) => cause.clone(),
        }
    }
}

} // verus!
