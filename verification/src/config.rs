//! The plugin configuration as the synchronization engine consumes it.
//!
//! The configuration document itself (a JSON object with a `plugins` array)
//! is read and decoded by the surrounding program; the engine only works on
//! the ordered list of plugin source strings.

use vstd::prelude::*;

verus! {

/// An ordered list of plugin sources. The order is significant: it drives
/// the order in which load commands are emitted.
pub struct Config {
    pub plugins: Vec<String>,
}

impl Config {
    pub fn new(plugins: Vec<String>) -> (c: Config)
        ensures
            c.plugins@ == plugins@,
    {
        Config { plugins }
    }

    /// How many plugins are configured.
    pub fn len(&self) -> (n: usize)
        ensures
            n == self.plugins@.len(),
    {
        self.plugins.len()
    }
}

} // verus!
