use wheel::error::{
    CommandOutput, Error, ExitStatusInfo, IoError, IoErrorContext, IoErrorKind, JsonError,
    check_output, check_status,
};
use wheel::net::HttpError;
use wheel::text::{i64_to_string, u64_to_string};

fn io_error(kind: IoErrorKind, message: &str) -> IoError {
    IoError { kind, message: message.to_string() }
}

fn http_error(message: &str) -> HttpError {
    HttpError {
        message: message.to_string(),
        is_request: false,
        is_connect: false,
        is_timeout: false,
        status: Some(404),
    }
}

#[test]
fn display_with_one_path() {
    let e = Error::Io {
        inner: io_error(IoErrorKind::Other, "permission denied"),
        context: IoErrorContext::Path("/a/b".to_string()),
    };
    assert_eq!(e.display_string(), "I/O error at /a/b: permission denied");
}

#[test]
fn display_with_two_paths() {
    let e = Error::Io {
        inner: io_error(IoErrorKind::Other, "cause"),
        context: IoErrorContext::DoublePath("/a".to_string(), "/b".to_string()),
    };
    assert_eq!(e.display_string(), "I/O error at /a and /b: cause");
}

#[test]
fn display_with_command() {
    let e = Error::Io {
        inner: io_error(IoErrorKind::Other, "cause"),
        context: IoErrorContext::Command("foo".to_string()),
    };
    assert_eq!(e.display_string(), "in command `foo`: cause");
}

#[test]
fn display_without_context() {
    let e = Error::Io {
        inner: io_error(IoErrorKind::Other, "cause"),
        context: IoErrorContext::Unknown,
    };
    assert_eq!(e.display_string(), "I/O error: cause");
}

#[test]
fn display_of_parse_failure() {
    let e = Error::Json {
        inner: JsonError { message: "expected value at line 1".to_string() },
        context: IoErrorContext::Path("/etc/conf.json".to_string()),
    };
    assert_eq!(e.display_string(), "I/O error at /etc/conf.json: expected value at line 1");
}

#[test]
fn display_of_command_exit() {
    let e = Error::CommandExit {
        name: "foo".to_string(),
        output: CommandOutput {
            status: ExitStatusInfo { code: Some(101) },
            stdout: vec![],
            stderr: vec![],
        },
    };
    assert_eq!(e.display_string(), "command `foo` exited with exit status: 101");
    let e = Error::CommandExitStatus {
        name: "bar".to_string(),
        status: ExitStatusInfo { code: None },
    };
    assert_eq!(e.display_string(), "command `bar` exited with terminated by signal");
}

#[test]
fn display_of_response_errors() {
    let e = Error::ResponseJson {
        inner: JsonError { message: "trailing characters".to_string() },
        text: "{}".to_string(),
    };
    assert_eq!(e.display_string(), "trailing characters, body:\n\n{}");
    let e = Error::ResponseStatus {
        inner: http_error("HTTP status client error (404 Not Found)"),
        text: Ok("not found".to_string()),
    };
    assert_eq!(
        e.display_string(),
        "HTTP status client error (404 Not Found), body:\n\nnot found",
    );
    let e = Error::ResponseStatus {
        inner: http_error("HTTP status client error (404 Not Found)"),
        text: Err("connection reset".to_string()),
    };
    assert_eq!(
        e.display_string(),
        "HTTP status client error (404 Not Found), body:\n\nconnection reset",
    );
}

#[test]
fn display_of_fixed_messages() {
    assert_eq!(
        Error::MissingRateLimitResetHeader.display_string(),
        "missing x-ratelimit-reset header in GitHub error response",
    );
    assert_eq!(
        Error::UncloneableGitHubRequest.display_string(),
        "attempted to send GitHub API request with streamed body",
    );
    assert_eq!(
        Error::InvalidDateTime.display_string(),
        "x-ratelimit-reset header is out of range for a timestamp",
    );
    assert_eq!(
        Error::HeaderToStr { message: "invalid utf-8".to_string() }.display_string(),
        "invalid utf-8",
    );
    assert_eq!(
        Error::ParseInt { message: "invalid digit".to_string() }.display_string(),
        "invalid digit",
    );
    assert_eq!(Error::Reqwest(http_error("builder error")).display_string(), "builder error");
}

#[test]
fn successful_status_passes_check() {
    let output = CommandOutput {
        status: ExitStatusInfo { code: Some(0) },
        stdout: b"hello".to_vec(),
        stderr: vec![],
    };
    assert_eq!(check_output("foo".to_string(), output.clone()), Ok(output));
    let status = ExitStatusInfo { code: Some(0) };
    assert_eq!(check_status("foo".to_string(), status), Ok(status));
}

#[test]
fn unsuccessful_status_fails_check() {
    let output = CommandOutput {
        status: ExitStatusInfo { code: Some(1) },
        stdout: vec![],
        stderr: b"oops".to_vec(),
    };
    let r = check_output("foo".to_string(), output.clone());
    assert_eq!(r, Err(Error::CommandExit { name: "foo".to_string(), output }));
    let status = ExitStatusInfo { code: None };
    let r = check_status("foo".to_string(), status);
    assert_eq!(r, Err(Error::CommandExitStatus { name: "foo".to_string(), status }));
}

#[test]
fn decimal_rendering_is_exact() {
    assert_eq!(u64_to_string(0), "0");
    assert_eq!(u64_to_string(7), "7");
    assert_eq!(u64_to_string(105), "105");
    assert_eq!(u64_to_string(18446744073709551615), "18446744073709551615");
    assert_eq!(i64_to_string(0), "0");
    assert_eq!(i64_to_string(-1), "-1");
    assert_eq!(i64_to_string(1234567890), "1234567890");
    assert_eq!(i64_to_string(-9223372036854775808), "-9223372036854775808");
}
