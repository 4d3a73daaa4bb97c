//! Daily check-in client for one web site: the verified decisions behind a
//! run, kept apart from the I/O that carries them out.
//!
//! A run tries to check in with the session cookie on file. Where that does
//! not work it solves the site's bot challenge in a browser, logs in, saves
//! the fresh session cookie and tries once more. The library decides what to
//! do next, builds the requests and reads the replies; a driver reads and
//! writes the cookie file, drives the browser and sends the requests.
//!
//! - [`orchestrator`]: the run, one step at a time; [`laws`]: what holds of
//!   every run.
//! - [`challenge`]: the challenge solver, one step at a time.
//! - [`account`]: the account, its requests and what their replies mean.
//! - [`headers`]: header syntax and the header collection.
//! - [`store`]: the session cookie on file.
//! - [`clock`], [`text`], [`site`], [`error`]: what the others stand on.

pub mod account;
pub mod challenge;
pub mod clock;
pub mod error;
pub mod headers;
pub mod laws;
pub mod orchestrator;
pub mod site;
pub mod store;
pub mod text;

pub use account::OktiXyz;
pub use error::CheckinError;
