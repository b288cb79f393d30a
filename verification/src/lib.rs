//! Boilerplate for command-line program entry points, with verified contracts.
//!
//! Two independent components:
//!
//! - An entry-point builder: it takes a description of a `main`-style routine
//!   (zero or one parameter, possibly asynchronous, returning unit, `bool`, an
//!   integer status, or a result) together with a set of named configuration
//!   options, validates the options (mutually exclusive exit flags, duplicate
//!   or malformed values, unsupported diagnostics ports, bad signatures), and
//!   computes the plan a generated entry point would follow: which argument
//!   parser to build, which asynchronous runtime to bootstrap, and how the
//!   routine's return value maps to a process exit code and diagnostics.
//! - An error-context wrapper: a uniform error value tagging low-level I/O,
//!   parse and subprocess failures with the path(s) or command name where they
//!   occurred, a display contract for that context, and a heuristic that
//!   classifies failures as plausibly-transient network errors.
//!
//! All data that outside libraries would normally own (I/O error kinds,
//! HTTP-client failures, websocket failures, exit statuses) is modeled here
//! as plain values, so that every rule over it is stated and proved.

pub mod entry;
pub mod error;
pub mod exit;
pub mod net;
pub mod prompt;
pub mod retry;
pub mod text;
pub mod traits;
