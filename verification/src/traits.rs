//! Extension traits: annotating fallible results with the context where they
//! failed, and small conveniences for infallible results and local-time
//! lookups.

use vstd::prelude::*;
use vstd::string::StringExecFns;
use crate::error::{Error, IoError, IoErrorKind, JsonError, IoErrorContext};

verus! {

/// Converts a fallible result into this library's unified result, optionally
/// annotating the failure with the location where it occurred; and opts into
/// treating already-existing or missing targets as success.
pub trait IoResultExt<T>: Sized {
    /// The value after annotating any I/O-layer failure inside with the
    /// given context.
    spec fn spec_with_context(self, context: IoErrorContext) -> Result<T, Error>;

    /// The value after converting a failure on an already-existing target
    /// into the given success.
    spec fn spec_exist_ok(self, default: T) -> Self;

    /// The value after converting a failure on a missing target into the
    /// given success.
    spec fn spec_missing_ok(self, default: T) -> Self;

    /// Converts the failure, if any, without annotating it with a path or
    /// command context.
    fn at_unknown(self) -> (r: Result<T, Error>)
        ensures
            r == self.spec_with_context(IoErrorContext::Unknown),
    ;

    /// Converts the failure, if any, by annotating it with the given path.
    fn at(self, path: String) -> (r: Result<T, Error>)
        ensures
            r == self.spec_with_context(IoErrorContext::Path(path)),
    ;

    /// Converts the failure, if any, by annotating it with the two given
    /// paths.
    fn at2(self, src: String, dst: String) -> (r: Result<T, Error>)
        ensures
            r == self.spec_with_context(IoErrorContext::DoublePath(src, dst)),
    ;

    /// Converts the failure, if any, by annotating it with the given command
    /// name.
    fn at_command(self, name: String) -> (r: Result<T, Error>)
        ensures
            r == self.spec_with_context(IoErrorContext::Command(name)),
    ;

    /// Converts a failure on an already-existing target into the given
    /// success; anything else passes through unchanged.
    fn exist_ok(self, default: T) -> (r: Self)
        ensures
            r == self.spec_exist_ok(default),
    ;

    /// Converts a failure on a missing target into the given success;
    /// anything else passes through unchanged.
    fn missing_ok(self, default: T) -> (r: Self)
        ensures
            r == self.spec_missing_ok(default),
    ;
}

impl<T> IoResultExt<T> for Result<T, IoError> {
    open spec fn spec_with_context(self, context: IoErrorContext) -> Result<T, Error> {
        match self {
            Ok(value) => Ok(value),
            Err(inner) => Err(Error::Io { inner, context }),
        }
    }

    open spec fn spec_exist_ok(self, default: T) -> Self {
        match self {
            Err(e) => if e.kind is AlreadyExists {
                Ok(default)
            } else {
                Err(e)
            },
            Ok(value) => Ok(value),
        }
    }

    open spec fn spec_missing_ok(self, default: T) -> Self {
        match self {
            Err(e) => if e.kind is NotFound {
                Ok(default)
            } else {
                Err(e)
            },
            Ok(value) => Ok(value),
        }
    }

    fn at_unknown(self) -> (r: Result<T, Error>) {
        match self {
            Ok(value) => Ok(value),
            Err(inner) => Err(Error::Io { inner, context: IoErrorContext::Unknown }),
        }
    }

    fn at(self, path: String) -> (r: Result<T, Error>) {
        match self {
            Ok(value) => Ok(value),
            Err(inner) => Err(Error::Io { inner, context: IoErrorContext::Path(path) }),
        }
    }

    fn at2(self, src: String, dst: String) -> (r: Result<T, Error>) {
        match self {
            Ok(value) => Ok(value),
            Err(inner) => Err(Error::Io { inner, context: IoErrorContext::DoublePath(src, dst) }),
        }
    }

    fn at_command(self, name: String) -> (r: Result<T, Error>) {
        match self {
            Ok(value) => Ok(value),
            Err(inner) => Err(Error::Io { inner, context: IoErrorContext::Command(name) }),
        }
    }

    fn exist_ok(self, default: T) -> (r: Self) {
        match self {
            Err(e) => {
                if matches!(e.kind, IoErrorKind::AlreadyExists) {
                    Ok(default)
                } else {
                    Err(e)
                }
            },
            Ok(value) => Ok(value),
        }
    }

    fn missing_ok(self, default: T) -> (r: Self) {
        match self {
            Err(e) => {
                if matches!(e.kind, IoErrorKind::NotFound) {
                    Ok(default)
                } else {
                    Err(e)
                }
            },
            Ok(value) => Ok(value),
        }
    }
}

impl<T> IoResultExt<T> for Result<T, Error> {
    open spec fn spec_with_context(self, context: IoErrorContext) -> Result<T, Error> {
        match self {
            Err(Error::Io { inner, .. }) => Err(Error::Io { inner, context }),
            _ => self,
        }
    }

    open spec fn spec_exist_ok(self, default: T) -> Self {
        match self {
            Err(Error::Io { inner, context }) => if inner.kind is AlreadyExists {
                Ok(default)
            } else {
                Err(Error::Io { inner, context })
            },
            _ => self,
        }
    }

    open spec fn spec_missing_ok(self, default: T) -> Self {
        match self {
            Err(Error::Io { inner, context }) => if inner.kind is NotFound {
                Ok(default)
            } else {
                Err(Error::Io { inner, context })
            },
            _ => self,
        }
    }

    fn at_unknown(self) -> (r: Result<T, Error>) {
        match self {
            Err(Error::Io { inner, .. }) => Err(
                Error::Io { inner, context: IoErrorContext::Unknown },
            ),
            other => other,
        }
    }

    fn at(self, path: String) -> (r: Result<T, Error>) {
        match self {
            Err(Error::Io { inner, .. }) => Err(
                Error::Io { inner, context: IoErrorContext::Path(path) },
            ),
            other => other,
        }
    }

    fn at2(self, src: String, dst: String) -> (r: Result<T, Error>) {
        match self {
            Err(Error::Io { inner, .. }) => Err(
                Error::Io { inner, context: IoErrorContext::DoublePath(src, dst) },
            ),
            other => other,
        }
    }

    fn at_command(self, name: String) -> (r: Result<T, Error>) {
        match self {
            Err(Error::Io { inner, .. }) => Err(
                Error::Io { inner, context: IoErrorContext::Command(name) },
            ),
            other => other,
        }
    }

    fn exist_ok(self, default: T) -> (r: Self) {
        match self {
            Err(Error::Io { inner, context }) => {
                if matches!(inner.kind, IoErrorKind::AlreadyExists) {
                    Ok(default)
                } else {
                    Err(Error::Io { inner, context })
                }
            },
            other => other,
        }
    }

    fn missing_ok(self, default: T) -> (r: Self) {
        match self {
            Err(Error::Io { inner, context }) => {
                if matches!(inner.kind, IoErrorKind::NotFound) {
                    Ok(default)
                } else {
                    Err(Error::Io { inner, context })
                }
            },
            other => other,
        }
    }
}

impl<T> IoResultExt<T> for Result<T, JsonError> {
    open spec fn spec_with_context(self, context: IoErrorContext) -> Result<T, Error> {
        match self {
            Ok(value) => Ok(value),
            Err(inner) => Err(Error::Json { inner, context }),
        }
    }

    open spec fn spec_exist_ok(self, default: T) -> Self {
        self
    }

    open spec fn spec_missing_ok(self, default: T) -> Self {
        self
    }

    fn at_unknown(self) -> (r: Result<T, Error>) {
        match self {
            Ok(value) => Ok(value),
            Err(inner) => Err(Error::Json { inner, context: IoErrorContext::Unknown }),
        }
    }

    fn at(self, path: String) -> (r: Result<T, Error>) {
        match self {
            Ok(value) => Ok(value),
            Err(inner) => Err(Error::Json { inner, context: IoErrorContext::Path(path) }),
        }
    }

    fn at2(self, src: String, dst: String) -> (r: Result<T, Error>) {
        match self {
            Ok(value) => Ok(value),
            Err(inner) => Err(Error::Json { inner, context: IoErrorContext::DoublePath(src, dst) }),
        }
    }

    fn at_command(self, name: String) -> (r: Result<T, Error>) {
        match self {
            Ok(value) => Ok(value),
            Err(inner) => Err(Error::Json { inner, context: IoErrorContext::Command(name) }),
        }
    }

    fn exist_ok(self, default: T) -> (r: Self) {
        self
    }

    fn missing_ok(self, default: T) -> (r: Self) {
        self
    }
}

/// Treating already-existing targets as success is idempotent: applied to its
/// own output — now a success wherever it changed anything — it returns that
/// output unchanged, whatever default is supplied the second time.
pub proof fn lemma_exist_ok_idempotent<T>(r: Result<T, IoError>, first: T, second: T)
    ensures
        r.spec_exist_ok(first).spec_exist_ok(second) == r.spec_exist_ok(first),
{
}

/// Treating missing targets as success is idempotent, in the same sense.
pub proof fn lemma_missing_ok_idempotent<T>(r: Result<T, IoError>, first: T, second: T)
    ensures
        r.spec_missing_ok(first).spec_missing_ok(second) == r.spec_missing_ok(first),
{
}

/// Idempotence also holds at the unified-result layer.
pub proof fn lemma_exist_ok_idempotent_unified<T>(r: Result<T, Error>, first: T, second: T)
    ensures
        r.spec_exist_ok(first).spec_exist_ok(second) == r.spec_exist_ok(first),
{
}

/// Idempotence also holds at the unified-result layer.
pub proof fn lemma_missing_ok_idempotent_unified<T>(r: Result<T, Error>, first: T, second: T)
    ensures
        r.spec_missing_ok(first).spec_missing_ok(second) == r.spec_missing_ok(first),
{
}

/// The outcomes of mapping a local clock time into a time zone: the mapping
/// may be invalid (a positive transition skipped it), unique, or ambiguous (a
/// negative transition repeated it).
#[derive(Debug, Clone, Copy, PartialEq, Eq)]
pub enum LocalOutcome<T> {
    /// The local time does not exist in the zone.
    Invalid,
    /// The local time has a single representation.
    Single(T),
    /// The local time has two representations.
    Ambiguous(T, T),
}

/// The error returned by [`LocalOutcome::single_ok`].
#[derive(Debug, Clone, Copy, PartialEq, Eq)]
pub enum TimeFromLocalError<T> {
    /// The given local time representation is invalid. This may be caused by
    /// a positive timezone transition.
    Invalid,
    /// The given local time representation has multiple results and is thus
    /// ambiguous. This may be caused by a negative timezone transition.
    Ambiguous(T, T),
}

impl<T> LocalOutcome<T> {
    /// The unique result of the lookup, or the error describing why there is
    /// none.
    pub open spec fn spec_single_ok(self) -> Result<T, TimeFromLocalError<T>> {
        match self {
            LocalOutcome::Invalid => Err(TimeFromLocalError::Invalid),
            LocalOutcome::Single(value) => Ok(value),
            LocalOutcome::Ambiguous(first, second) => Err(
                TimeFromLocalError::Ambiguous(first, second),
            ),
        }
    }

    /// Returns the unique result of the lookup, and otherwise the error
    /// describing why there is none.
    pub fn single_ok(self) -> (r: Result<T, TimeFromLocalError<T>>)
        ensures
            r == self.spec_single_ok(),
    {
        match self {
            LocalOutcome::Invalid => Err(TimeFromLocalError::Invalid),
            LocalOutcome::Single(value) => Ok(value),
            LocalOutcome::Ambiguous(first, second) => Err(
                TimeFromLocalError::Ambiguous(first, second),
            ),
        }
    }
}

impl<T> TimeFromLocalError<T> {
    /// Renders the error, given the UTC renderings of the two candidate
    /// times for the ambiguous case.
    pub fn display_with(&self, first: &str, second: &str) -> (r: String)
        ensures
            self is Invalid ==> r@ == "invalid timestamp"@,
            self is Ambiguous ==> r@ == "ambiguous timestamp: could refer to "@ + first@ + " or "@
                + second@ + " UTC"@,
    {
        match self {
            TimeFromLocalError::Invalid => String::from_str("invalid timestamp"),
            TimeFromLocalError::Ambiguous(_, _) => {
                let mut s = String::from_str("ambiguous timestamp: could refer to ");
                s.append(first);
                s.append(" or ");
                s.append(second);
                s.append(" UTC");
                proof {
                    assert(s@ =~= "ambiguous timestamp: could refer to "@ + first@ + " or "@
                        + second@ + " UTC"@);
                }
                s
            },
        }
    }
}

} // verus!
