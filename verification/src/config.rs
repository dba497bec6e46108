//! A shared configuration value and a context that holds a counted
//! reference to it, so that cloning the context never deep-copies the
//! configuration.

use std::sync::Arc;
use vstd::prelude::*;

verus! {

/// A configuration record shared between contexts.
pub struct Config {
    pub key: String,
}

impl Config {
    pub fn new() -> (r: Config)
        ensures
            r.key@ == "value"@,
    {
        Config { key: String::from_str("value") }
    }
}

/// A context holding a counted reference to one shared configuration:
/// clones of the context share the same configuration record.
#[derive(Clone)]
pub struct Context {
    pub arc_ref: Arc<Config>,
}

} // verus!
