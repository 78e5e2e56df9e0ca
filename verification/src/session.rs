//! How a run starts: the text to translate comes from the command line,
//! the credentials from the environment, and the run ends at once where one
//! of them is missing.

use vstd::prelude::*;
use crate::request::Credentials;

verus! {

/// The environment variable that holds the identifier.
pub const SECRET_ID_VARIABLE: &'static str = "TENCENT_TRANSLATION_SECRET_ID";

/// The environment variable that holds the secret key.
pub const SECRET_KEY_VARIABLE: &'static str = "TENCENT_TRANSLATION_SECRET_KEY";

/// What a run works on: the text and the credentials.
pub struct Job {
    pub text: String,
    pub credentials: Credentials,
}

/// Why a run ends before it has begun.
#[derive(Debug)]
pub enum StartupError {
    /// No text was given on the command line.
    Usage { program: String },
    /// The identifier is not set in the environment.
    MissingSecretId,
    /// The secret key is not set in the environment.
    MissingSecretKey,
}

/// The name the program was called by: the first argument, or nothing
/// where there is none.
pub open spec fn program_name(args: Seq<String>) -> Seq<char> {
    if args.len() > 0 {
        args[0]@
    } else {
        Seq::empty()
    }
}

impl StartupError {
    /// The line shown to the user.
    pub open spec fn notice_text(self) -> Seq<char> {
        match self {
            StartupError::Usage { program } => "Invalid arguments! Usage: "@ + program@
                + " <text>"@,
            StartupError::MissingSecretId =>
                "Please set TENCENT_TRANSLATION_SECRET_ID environment variable"@,
            StartupError::MissingSecretKey =>
                "Please set TENCENT_TRANSLATION_SECRET_KEY environment variable"@,
        }
    }

    /// The error that the run ends with.
    pub open spec fn message_text(self) -> Seq<char> {
        match self {
            StartupError::Usage { program } => "Invalid arguments"@,
            StartupError::MissingSecretId => "Missing TENCENT_TRANSLATION_SECRET_ID"@,
            StartupError::MissingSecretKey => "Missing TENCENT_TRANSLATION_SECRET_KEY"@,
        }
    }

    /// The line to show to the user.
    pub fn notice(&self) -> (r: String)
        ensures
            r@ == self.notice_text(),
    {
        match self {
            StartupError::Usage { program } => {
                let mut r = String::from_str("Invalid arguments! Usage: ");
                r.append(program.as_str());
                r.append(" <text>");
                r
            },
            StartupError::MissingSecretId => String::from_str(
                "Please set TENCENT_TRANSLATION_SECRET_ID environment variable",
            ),
            StartupError::MissingSecretKey => String::from_str(
                "Please set TENCENT_TRANSLATION_SECRET_KEY environment variable",
            ),
        }
    }

    /// The error to end the run with.
    pub fn message(&self) -> (r: String)
        ensures
            r@ == self.message_text(),
    {
        match self {
            StartupError::Usage { program } => String::from_str("Invalid arguments"),
            StartupError::MissingSecretId => String::from_str(
                "Missing TENCENT_TRANSLATION_SECRET_ID",
            ),
            StartupError::MissingSecretKey => String::from_str(
                "Missing TENCENT_TRANSLATION_SECRET_KEY",
            ),
        }
    }
}

/// Starts a run from the command line `args`, the program's name first,
/// and from the two credentials as far as the environment holds them.
///
/// With fewer than two arguments the run ends with the usage error; else
/// without an identifier, with `MissingSecretId`; else without a secret
/// key, with `MissingSecretKey`. Otherwise the job is the second argument
/// with the two credentials. No request is built without a job.
pub fn startup(args: &Vec<String>, secret_id: Option<String>, secret_key: Option<String>) -> (r:
    Result<Job, StartupError>)
    ensures
        match r {
            Ok(job) => {
                &&& args@.len() >= 2
                &&& job.text@ == args@[1]@
                &&& secret_id matches Some(id) && job.credentials.secret_id@ == id@
                &&& secret_key matches Some(key) && job.credentials.secret_key@ == key@
            },
            Err(StartupError::Usage { program }) => args@.len() < 2 && program@ == program_name(
                args@,
            ),
            Err(StartupError::MissingSecretId) => args@.len() >= 2 && secret_id is None,
            Err(StartupError::MissingSecretKey) => args@.len() >= 2 && secret_id is Some
                && secret_key is None,
        },
{
    if args.len() < 2 {
        let program = if args.len() > 0 {
            args[0].clone()
        } else {
            String::new()
        };
        return Err(StartupError::Usage { program });
    }
    let secret_id = match secret_id {
        Some(value) => value,
        None => {
            return Err(StartupError::MissingSecretId);
        },
    };
    let secret_key = match secret_key {
        Some(value) => value,
        None => {
            return Err(StartupError::MissingSecretKey);
        },
    };
    Ok(Job { text: args[1].clone(), credentials: Credentials { secret_id, secret_key } })
}

} // verus!
