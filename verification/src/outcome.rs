//! What became of the child process, and how its outcome is read.

use vstd::prelude::*;
use vstd::string::StringExecFns;

use crate::text::dec_int;
use crate::text::i32_to_decimal;
use crate::text::is_wspace;
use crate::text::trim_whitespace;
use crate::text::trimmed;

verus! {

/// The ways a conversion can fail.
#[derive(Debug, Clone, PartialEq, Eq)]
pub enum ConvertError {
    /// The front-end executable could not be started; carries the operating
    /// system's description of the failure.
    Launch { message: String },
    /// The process ran but did not exit successfully; carries the exit code,
    /// or `-1` where no code could be observed.
    Exit { code: i32 },
    /// Standard output was not valid UTF-8; carries a description of the
    /// decoding failure.
    Decode { message: String },
}

/// What came of trying to launch the child process: either the launch itself
/// failed, or the process ran to completion with an exit status and captured
/// standard output.
#[derive(Debug)]
pub enum SpawnOutcome {
    /// The process could not be started at all.
    LaunchFailed { message: String },
    /// The process ran; `code` is `None` when it was terminated without an
    /// exit code (e.g. by a signal).
    Completed { code: Option<i32>, stdout: Vec<u8> },
}

/// The observed exit code, with `-1` substituted when none was obtainable.
pub open spec fn effective_exit_code(code: Option<i32>) -> i32 {
    match code {
        Some(c) => c,
        None => -1i32,
    }
}

/// The human-readable description of `e`.
pub open spec fn error_message(e: ConvertError) -> Seq<char> {
    match e {
        ConvertError::Launch { message } => "Error executing wsl.exe: "@ + message@,
        ConvertError::Exit { code } => "Error getting wslpath: "@ + dec_int(code as int),
        ConvertError::Decode { message } => "Error converting output to string: "@ + message@,
    }
}

impl ConvertError {
    /// Renders the error as a message a caller can log or surface.
    pub fn message(&self) -> (r: String)
        ensures
            r@ == error_message(*self),
    {
        match self {
            ConvertError::Launch { message } => {
                let mut r = "Error executing wsl.exe: ".to_owned();
                r.append(message.as_str());
                r
            },
            ConvertError::Exit { code } => {
                let mut r = "Error getting wslpath: ".to_owned();
                let digits = i32_to_decimal(*code);
                r.append(digits.as_str());
                r
            },
            ConvertError::Decode { message } => {
                let mut r = "Error converting output to string: ".to_owned();
                r.append(message.as_str());
                r
            },
        }
    }
}

/// Relies on `std::str::from_utf8`: it returns `Ok` exactly when the bytes
/// are valid UTF-8, and the string then holds the characters they encode.
/// The error case carries std's description of the decoding failure.
#[verifier::external_body]
fn decode_output(bytes: &[u8]) -> (r: Result<String, String>)
    ensures
        r is Ok <==> vstd::utf8::valid_utf8(bytes@),
        r matches Ok(s) ==> s@ == vstd::utf8::decode_utf8(bytes@),
{
    match std::str::from_utf8(bytes) {
        Ok(s) => Ok(s.to_owned()),
        Err(e) => Err(format!("{}", e)),
    }
}

/// Reads the outcome of one launch of the front-end: a failed launch is a
/// launch error; a nonzero (or unobtainable) exit code is an exit error; on
/// a zero exit code, standard output is decoded as UTF-8 and handed back
/// trimmed of leading and trailing whitespace.
pub fn interpret(outcome: SpawnOutcome) -> (r: Result<String, ConvertError>)
    ensures
        (outcome matches SpawnOutcome::LaunchFailed { message } ==> r == Err::<
            String,
            ConvertError,
        >(ConvertError::Launch { message })),
        (outcome matches SpawnOutcome::Completed { code, stdout } ==> {
            &&& effective_exit_code(code) != 0 ==> r == Err::<String, ConvertError>(
                ConvertError::Exit { code: effective_exit_code(code) },
            )
            &&& effective_exit_code(code) == 0 && !vstd::utf8::valid_utf8(stdout@) ==> (r matches Err(e)
                && e is Decode)
            &&& effective_exit_code(code) == 0 && vstd::utf8::valid_utf8(stdout@) ==> (r matches Ok(s)
                && s@ == trimmed(vstd::utf8::decode_utf8(stdout@)))
        }),
        (r matches Ok(s) ==> (s@.len() > 0 ==> !is_wspace(s@.first()) && !is_wspace(s@.last()))),
{
    match outcome {
        SpawnOutcome::LaunchFailed { message } => Err(ConvertError::Launch { message }),
        SpawnOutcome::Completed { code, stdout } => {
            let c: i32 = match code {
                Some(c) => c,
                None => -1,
            };
            if c != 0 {
                Err(ConvertError::Exit { code: c })
            } else {
                match decode_output(stdout.as_slice()) {
                    Ok(text) => Ok(trim_whitespace(text.as_str())),
                    Err(message) => Err(ConvertError::Decode { message }),
                }
            }
        },
    }
}

} // verus!
