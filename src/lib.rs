//! Verified core of the Slang bindings: translation of native result codes,
//! the allow-list that selects which native declarations are surfaced, and
//! the decisions that turn a link configuration into linker directives.

pub mod utils;
pub mod link;
pub mod extract;
