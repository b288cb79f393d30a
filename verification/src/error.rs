//! The error-context model: a uniform error value that tags a low-level
//! failure with the path(s) or command name where it occurred.
//!
//! A [`Error`] wraps exactly one underlying cause — an I/O failure, a
//! structured-data parse failure, a subprocess non-zero exit, or one of the
//! failures of the HTTP-request helpers — and, for I/O and parse causes, one
//! [`IoErrorContext`]. It is constructed where a fallible operation fails,
//! immutable thereafter, and consumed for display or for the network-error
//! heuristic. All failure data of outside libraries is carried here as plain
//! values: the error kind this library reads and the human-readable rendering
//! it displays.

use vstd::prelude::*;
use vstd::string::StringExecFns;
use crate::net::HttpError;
use crate::text::{spec_decimal_int, i64_to_string};

verus! {

/// The kind of a low-level I/O failure, as far as this library reads it.
#[derive(Clone, Copy, Debug, PartialEq, Eq, Structural)]
pub enum IoErrorKind {
    /// The target of the operation already exists.
    AlreadyExists,
    /// The connection was severed by the peer mid-operation.
    BrokenPipe,
    /// The connection was aborted.
    ConnectionAborted,
    /// The connection was refused.
    ConnectionRefused,
    /// The connection was reset.
    ConnectionReset,
    /// The remote host is unreachable.
    HostUnreachable,
    /// The network is unreachable.
    NetworkUnreachable,
    /// The target of the operation does not exist.
    NotFound,
    /// The operation lacked the necessary privileges.
    PermissionDenied,
    /// The operation timed out.
    TimedOut,
    /// The stream ended before the operation could complete.
    UnexpectedEof,
    /// Any other kind.
    Other,
}

/// A low-level I/O failure: the kind this library reads, and the
/// human-readable rendering it displays.
#[derive(Clone, Debug, PartialEq, Eq)]
pub struct IoError {
    /// The failure's kind.
    pub kind: IoErrorKind,
    /// The failure's human-readable rendering.
    pub message: String,
}

/// A structured-data parse failure: its human-readable rendering.
#[derive(Clone, Debug, PartialEq, Eq)]
pub struct JsonError {
    /// The failure's human-readable rendering.
    pub message: String,
}

/// The exit status of a subprocess: its code, or nothing when the subprocess
/// was terminated by a signal.
#[derive(Clone, Copy, Debug, PartialEq, Eq)]
pub struct ExitStatusInfo {
    /// The exit code, if the subprocess exited normally.
    pub code: Option<i32>,
}

impl ExitStatusInfo {
    /// Whether the subprocess exited successfully.
    pub open spec fn spec_success(self) -> bool {
        self.code == Some(0i32)
    }

    /// Whether the subprocess exited successfully.
    pub fn success(&self) -> (r: bool)
        ensures
            r == self.spec_success(),
    {
        match self.code {
            Some(c) => c == 0,
            None => false,
        }
    }

    /// The status's rendering: its decimal code, or a note that a signal
    /// terminated the subprocess.
    pub open spec fn spec_display(self) -> Seq<char> {
        match self.code {
            Some(c) => "exit status: "@ + spec_decimal_int(c as int),
            None => "terminated by signal"@,
        }
    }

    /// Renders the status.
    pub fn display_string(&self) -> (r: String)
        ensures
            r@ == self.spec_display(),
    {
        match self.code {
            Some(c) => {
                let mut s = String::from_str("exit status: ");
                let digits = i64_to_string(c as i64);
                s.append(digits.as_str());
                s
            },
            None => String::from_str("terminated by signal"),
        }
    }
}

/// The captured output of a subprocess.
#[derive(Clone, Debug, PartialEq, Eq)]
pub struct CommandOutput {
    /// The subprocess's exit status.
    pub status: ExitStatusInfo,
    /// The bytes the subprocess wrote to standard output.
    pub stdout: Vec<u8>,
    /// The bytes the subprocess wrote to standard error.
    pub stderr: Vec<u8>,
}

/// Where an I/O error occurred: metadata attached to a low-level failure to
/// aid diagnosis.
#[derive(Clone, Debug, PartialEq, Eq)]
pub enum IoErrorContext {
    /// The error was not annotated with any context.
    Unknown,
    /// The error occurred while working with the given path.
    Path(String),
    /// The error occurred while working with the two given paths.
    DoublePath(String, String),
    /// The error occurred while trying to run a command with the given name.
    Command(String),
}

impl IoErrorContext {
    /// The context phrase of the display contract: `I/O error`, optionally
    /// with the path or paths, or the command name in backquotes.
    pub open spec fn spec_display(self) -> Seq<char> {
        match self {
            IoErrorContext::Unknown => "I/O error"@,
            IoErrorContext::Path(path) => "I/O error at "@ + path@,
            IoErrorContext::DoublePath(src, dst) => "I/O error at "@ + src@ + " and "@ + dst@,
            IoErrorContext::Command(name) => "in command `"@ + name@ + "`"@,
        }
    }

    /// Renders the context phrase.
    pub fn display_string(&self) -> (r: String)
        ensures
            r@ == self.spec_display(),
    {
        match self {
            IoErrorContext::Unknown => String::from_str("I/O error"),
            IoErrorContext::Path(path) => {
                let mut s = String::from_str("I/O error at ");
                s.append(path.as_str());
                s
            },
            IoErrorContext::DoublePath(src, dst) => {
                let mut s = String::from_str("I/O error at ");
                s.append(src.as_str());
                s.append(" and ");
                s.append(dst.as_str());
                proof {
                    assert(s@ =~= "I/O error at "@ + src@ + " and "@ + dst@);
                }
                s
            },
            IoErrorContext::Command(name) => {
                let mut s = String::from_str("in command `");
                s.append(name.as_str());
                s.append("`");
                proof {
                    assert(s@ =~= "in command `"@ + name@ + "`"@);
                }
                s
            },
        }
    }
}

/// The unified error of this library: exactly one underlying cause, with its
/// context where one applies.
#[derive(Debug, PartialEq, Eq)]
pub enum Error {
    /// A subprocess exited unsuccessfully; its full output was captured.
    CommandExit {
        /// The subprocess's name, as given to the check call.
        name: String,
        /// The subprocess's captured output.
        output: CommandOutput,
    },
    /// A subprocess exited unsuccessfully; only its exit status is known.
    CommandExitStatus {
        /// The subprocess's name, as given to the check call.
        name: String,
        /// The subprocess's exit status.
        status: ExitStatusInfo,
    },
    /// A header value that was not text.
    HeaderToStr {
        /// The failure's human-readable rendering.
        message: String,
    },
    /// A rate-limit reset header held a timestamp outside the representable
    /// range.
    InvalidDateTime,
    /// An I/O failure, with the context where it occurred.
    Io {
        /// The underlying failure.
        inner: IoError,
        /// The path or command where this error occurred, if known.
        context: IoErrorContext,
    },
    /// A structured-data parse failure, with the context where it occurred.
    Json {
        /// The underlying failure.
        inner: JsonError,
        /// The path or command where this error occurred, if known.
        context: IoErrorContext,
    },
    /// A rate-limited response that lacked the reset-timestamp header.
    MissingRateLimitResetHeader,
    /// A header value that was not an integer.
    ParseInt {
        /// The failure's human-readable rendering.
        message: String,
    },
    /// An HTTP-client failure.
    Reqwest(HttpError),
    /// A response body that failed to parse as structured data; the body text
    /// is kept for diagnosis.
    ResponseJson {
        /// The underlying parse failure.
        inner: JsonError,
        /// The response body.
        text: String,
    },
    /// A response with an HTTP error status; the body text is kept for
    /// diagnosis when it could be read.
    ResponseStatus {
        /// The underlying HTTP-client failure.
        inner: HttpError,
        /// The response body, or the rendering of the failure to read it.
        text: Result<String, String>,
    },
    /// A request with a streaming body cannot be cloned for retrying.
    UncloneableGitHubRequest,
}

impl Error {
    /// The display contract: one human-readable line combining the context
    /// phrase (where one applies) and the cause's rendering.
    pub open spec fn spec_display(self) -> Seq<char> {
        match self {
            Error::CommandExit { name, output } => "command `"@ + name@ + "` exited with "@
                + output.status.spec_display(),
            Error::CommandExitStatus { name, status } => "command `"@ + name@ + "` exited with "@
                + status.spec_display(),
            Error::HeaderToStr { message } => message@,
            Error::InvalidDateTime => "x-ratelimit-reset header is out of range for a timestamp"@,
            Error::Io { inner, context } => context.spec_display() + ": "@ + inner.message@,
            Error::Json { inner, context } => context.spec_display() + ": "@ + inner.message@,
            Error::MissingRateLimitResetHeader
                => "missing x-ratelimit-reset header in GitHub error response"@,
            Error::ParseInt { message } => message@,
            Error::Reqwest(inner) => inner.message@,
            Error::ResponseJson { inner, text } => inner.message@ + ", body:\n\n"@ + text@,
            Error::ResponseStatus { inner, text } => inner.message@ + ", body:\n\n"@ + (match text {
                Ok(t) => t@,
                Err(e) => e@,
            }),
            Error::UncloneableGitHubRequest
                => "attempted to send GitHub API request with streamed body"@,
        }
    }

    /// Renders the error as the display contract's single line.
    pub fn display_string(&self) -> (r: String)
        ensures
            r@ == self.spec_display(),
    {
        match self {
            Error::CommandExit { name, output } => {
                let mut s = String::from_str("command `");
                s.append(name.as_str());
                s.append("` exited with ");
                let status = output.status.display_string();
                s.append(status.as_str());
                proof {
                    assert(s@ =~= "command `"@ + name@ + "` exited with "@
                        + output.status.spec_display());
                }
                s
            },
            Error::CommandExitStatus { name, status } => {
                let mut s = String::from_str("command `");
                s.append(name.as_str());
                s.append("` exited with ");
                let status_text = status.display_string();
                s.append(status_text.as_str());
                proof {
                    assert(s@ =~= "command `"@ + name@ + "` exited with "@ + status.spec_display());
                }
                s
            },
            Error::HeaderToStr { message } => {
                let mut s = String::new();
                s.append(message.as_str());
                proof {
                    assert(s@ =~= message@);
                }
                s
            },
            Error::InvalidDateTime => String::from_str(
                "x-ratelimit-reset header is out of range for a timestamp",
            ),
            Error::Io { inner, context } => {
                let mut s = context.display_string();
                s.append(": ");
                s.append(inner.message.as_str());
                proof {
                    assert(s@ =~= context.spec_display() + ": "@ + inner.message@);
                }
                s
            },
            Error::Json { inner, context } => {
                let mut s = context.display_string();
                s.append(": ");
                s.append(inner.message.as_str());
                proof {
                    assert(s@ =~= context.spec_display() + ": "@ + inner.message@);
                }
                s
            },
            Error::MissingRateLimitResetHeader => String::from_str(
                "missing x-ratelimit-reset header in GitHub error response",
            ),
            Error::ParseInt { message } => {
                let mut s = String::new();
                s.append(message.as_str());
                proof {
                    assert(s@ =~= message@);
                }
                s
            },
            Error::Reqwest(inner) => {
                let mut s = String::new();
                s.append(inner.message.as_str());
                proof {
                    assert(s@ =~= inner.message@);
                }
                s
            },
            Error::ResponseJson { inner, text } => {
                let mut s = String::new();
                s.append(inner.message.as_str());
                s.append(", body:\n\n");
                s.append(text.as_str());
                proof {
                    assert(s@ =~= inner.message@ + ", body:\n\n"@ + text@);
                }
                s
            },
            Error::ResponseStatus { inner, text } => {
                let mut s = String::new();
                s.append(inner.message.as_str());
                s.append(", body:\n\n");
                match text {
                    Ok(t) => s.append(t.as_str()),
                    Err(e) => s.append(e.as_str()),
                }
                proof {
                    assert(s@ =~= inner.message@ + ", body:\n\n"@ + (match text {
                        Ok(t) => t@,
                        Err(e) => e@,
                    }));
                }
                s
            },
            Error::UncloneableGitHubRequest => String::from_str(
                "attempted to send GitHub API request with streamed body",
            ),
        }
    }
}

/// Errors with the subprocess's name and captured output unless the output's
/// status indicates success.
pub fn check_output(name: String, output: CommandOutput) -> (r: Result<CommandOutput, Error>)
    ensures
        output.status.spec_success() ==> r == Ok::<CommandOutput, Error>(output),
        !output.status.spec_success() ==> r == Err::<CommandOutput, Error>(
            Error::CommandExit { name, output },
        ),
{
    if output.status.success() {
        Ok(output)
    } else {
        Err(Error::CommandExit { name, output })
    }
}

/// Errors with the subprocess's name and exit status unless the status
/// indicates success.
pub fn check_status(name: String, status: ExitStatusInfo) -> (r: Result<ExitStatusInfo, Error>)
    ensures
        status.spec_success() ==> r == Ok::<ExitStatusInfo, Error>(status),
        !status.spec_success() ==> r == Err::<ExitStatusInfo, Error>(
            Error::CommandExitStatus { name, status },
        ),
{
    if status.success() {
        Ok(status)
    } else {
        Err(Error::CommandExitStatus { name, status })
    }
}

} // verus!
