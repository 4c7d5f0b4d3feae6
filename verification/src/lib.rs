//! Support library for benchmarking a compiled language across several
//! execution backends, together with a small terminal-capability
//! negotiator for diagnostic output.
//!
//! The library has two independent components:
//!
//! * a benchmark resource loader: a resolver that maps fixture-relative
//!   identifiers to absolute locations under a fixed root, and a
//!   provisioning state machine that turns a fixture into a ready
//!   execution handle for one of three backends;
//! * a terminal capability negotiator that decides whether diagnostic
//!   output should use ANSI colour escapes, from a tri-state mode and
//!   the process environment.

pub mod display_color;
pub mod provision;
pub mod resolver;
pub mod version_probe;

pub use display_color::ConsoleProbe;
pub use display_color::DisplayColor;
pub use display_color::TerminalEnvironment;
pub use resolver::ResourceResolver;
