use wheel::error::{Error, IoError, IoErrorContext, IoErrorKind};
use wheel::net::{
    HttpError, IsNetworkError, ProtoReadError, ProtoWriteError, RaceClientError, WsError,
    io_error_from_reqwest,
};

fn io_error(kind: IoErrorKind) -> IoError {
    IoError { kind, message: "cause".to_string() }
}

fn quiet_http() -> HttpError {
    HttpError {
        message: "error sending request".to_string(),
        is_request: false,
        is_connect: false,
        is_timeout: false,
        status: None,
    }
}

#[test]
fn connection_reset_is_a_network_error() {
    assert!(io_error(IoErrorKind::ConnectionReset).is_network_error());
}

#[test]
fn permission_denied_is_not_a_network_error() {
    assert!(!io_error(IoErrorKind::PermissionDenied).is_network_error());
}

#[test]
fn transient_io_kinds_classify_true() {
    for kind in [
        IoErrorKind::BrokenPipe,
        IoErrorKind::ConnectionAborted,
        IoErrorKind::ConnectionRefused,
        IoErrorKind::ConnectionReset,
        IoErrorKind::HostUnreachable,
        IoErrorKind::NetworkUnreachable,
        IoErrorKind::TimedOut,
        IoErrorKind::UnexpectedEof,
    ] {
        assert!(io_error(kind).is_network_error(), "{kind:?} should classify as transient");
    }
    for kind in [IoErrorKind::AlreadyExists, IoErrorKind::NotFound, IoErrorKind::Other] {
        assert!(!io_error(kind).is_network_error(), "{kind:?} should not classify as transient");
    }
}

#[test]
fn dns_failure_texts_classify_true() {
    for text in [
        "No such host is known. (os error 11001)",
        "failed to lookup address information: Temporary failure in name resolution",
        "failed to lookup address information: No address associated with hostname",
    ] {
        let e = IoError { kind: IoErrorKind::Other, message: text.to_string() };
        assert!(e.is_network_error(), "{text:?} should classify as transient");
    }
    let e = IoError { kind: IoErrorKind::Other, message: "no such file".to_string() };
    assert!(!e.is_network_error());
}

#[test]
fn unified_errors_classify_through_their_cause() {
    let e = Error::Io {
        inner: io_error(IoErrorKind::TimedOut),
        context: IoErrorContext::Unknown,
    };
    assert!(e.is_network_error());
    let e = Error::Io {
        inner: io_error(IoErrorKind::NotFound),
        context: IoErrorContext::Unknown,
    };
    assert!(!e.is_network_error());
    assert!(!Error::MissingRateLimitResetHeader.is_network_error());
    assert!(!Error::UncloneableGitHubRequest.is_network_error());
}

#[test]
fn http_errors_classify_by_transience_bits_and_status() {
    assert!(!quiet_http().is_network_error());
    assert!(HttpError { is_request: true, ..quiet_http() }.is_network_error());
    assert!(HttpError { is_connect: true, ..quiet_http() }.is_network_error());
    assert!(HttpError { is_timeout: true, ..quiet_http() }.is_network_error());
    assert!(HttpError { status: Some(500), ..quiet_http() }.is_network_error());
    assert!(HttpError { status: Some(503), ..quiet_http() }.is_network_error());
    assert!(!HttpError { status: Some(404), ..quiet_http() }.is_network_error());
    assert!(!HttpError { status: Some(600), ..quiet_http() }.is_network_error());
    let e = Error::Reqwest(HttpError { is_timeout: true, ..quiet_http() });
    assert!(e.is_network_error());
    let e = Error::ResponseStatus {
        inner: HttpError { status: Some(502), ..quiet_http() },
        text: Ok("bad gateway".to_string()),
    };
    assert!(e.is_network_error());
}

#[test]
fn websocket_errors_classify_by_variant() {
    assert!(WsError::AlreadyClosed.is_network_error());
    assert!(WsError::ResetWithoutClosingHandshake.is_network_error());
    assert!(WsError::Http { status: 502 }.is_network_error());
    assert!(!WsError::Http { status: 400 }.is_network_error());
    assert!(WsError::Io(io_error(IoErrorKind::BrokenPipe)).is_network_error());
    assert!(!WsError::Io(io_error(IoErrorKind::PermissionDenied)).is_network_error());
    assert!(!WsError::OtherProtocol.is_network_error());
    assert!(!WsError::Other.is_network_error());
}

#[test]
fn protocol_errors_classify_by_variant() {
    assert!(ProtoReadError::EndOfStream.is_network_error());
    assert!(ProtoReadError::Io(io_error(IoErrorKind::UnexpectedEof)).is_network_error());
    assert!(ProtoReadError::Ws(WsError::AlreadyClosed).is_network_error());
    assert!(!ProtoReadError::Other.is_network_error());
    assert!(ProtoWriteError::Io(io_error(IoErrorKind::ConnectionReset)).is_network_error());
    assert!(ProtoWriteError::Ws(WsError::Other).is_network_error() == false);
    assert!(!ProtoWriteError::Other.is_network_error());
}

#[test]
fn race_client_errors_classify_by_variant() {
    assert!(RaceClientError::EndOfStream.is_network_error());
    assert!(RaceClientError::Io(io_error(IoErrorKind::ConnectionRefused)).is_network_error());
    assert!(
        RaceClientError::Reqwest(HttpError { is_connect: true, ..quiet_http() })
            .is_network_error()
    );
    assert!(
        RaceClientError::ResponseStatus(HttpError { status: Some(500), ..quiet_http() })
            .is_network_error()
    );
    assert!(RaceClientError::Tungstenite(WsError::AlreadyClosed).is_network_error());
    for e in [
        RaceClientError::Custom,
        RaceClientError::HeaderToStr,
        RaceClientError::InvalidHeaderValue,
        RaceClientError::Json,
        RaceClientError::Task,
        RaceClientError::UrlParse,
        RaceClientError::LocationCategory,
        RaceClientError::LocationFormat,
        RaceClientError::MissingLocationHeader,
        RaceClientError::Server,
        RaceClientError::UnexpectedMessageType,
    ] {
        assert!(!e.is_network_error(), "{e:?} should not classify as transient");
    }
}

#[test]
fn http_failures_convert_to_io_failures() {
    let e = io_error_from_reqwest(HttpError { is_timeout: true, ..quiet_http() });
    assert_eq!(e.kind, IoErrorKind::TimedOut);
    assert_eq!(e.message, "error sending request");
    let e = io_error_from_reqwest(quiet_http());
    assert_eq!(e.kind, IoErrorKind::Other);
}
