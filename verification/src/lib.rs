//! Verified core of the desktop companion's backend.
//!
//! - [`deep_link`] validates the link that returns control from the browser
//!   to the application after a login.
//! - [`auth`] holds the decisions of the login session: how a login starts,
//!   what a callback leads to, and what the outcomes of the keychain and of
//!   the refresh endpoint mean.
//! - [`docker`] reads what the container runtime printed, and supervises
//!   the one sandbox process that the application runs.
//! - [`url_parts`] and [`text`] hold the parts of a URL and the helpers on
//!   strings that the others build on.
//!
//! The library takes no action on the outside world. Every operation that
//! needs the keychain, the network or a child process is described here as
//! a value, and the shell around the library performs it and reports the
//! outcome back.

pub mod auth;
pub mod deep_link;
pub mod docker;
pub mod text;
pub mod url_parts;
