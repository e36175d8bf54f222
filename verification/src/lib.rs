//! A small command-line argument registry and validator.
//!
//! Flags are registered with a description, matched against the invocation
//! the process was started with, and queried afterwards. The registry also
//! renders a help screen and the diagnostics for an unrecognised argument.
//! Nothing here touches the process: the invocation is handed in as a
//! vector of strings, and every text that would be shown comes back as a
//! `String`.

pub mod laws;
pub mod model;
pub mod registry;
pub mod screen;
pub mod text;

pub use model::ArgsView;
pub use registry::{Argpars, ArgsObj, ParsOutcome};
pub use text::is_value_in_a_vector_str;
