//! The options that a single lookup runs under.

use vstd::prelude::*;

verus! {

/// Boolean flags controlling one lookup: each relation flag independently
/// gates whether its relation list is rendered, `all` turns every relation
/// on, `json` selects raw JSON output over structured rendering, and
/// `verbose` asks for rate-limit telemetry to be surfaced.
#[derive(Clone, Copy, Debug, PartialEq, Eq, Structural)]
pub struct DisplayOptions {
    pub antonym: bool,
    pub synonym: bool,
    pub hypernym: bool,
    pub hyponym: bool,
    pub holonym: bool,
    pub all: bool,
    pub json: bool,
    pub verbose: bool,
}

impl DisplayOptions {
    /// Options with every flag off: structured rendering of definitions only.
    pub fn new() -> (r: DisplayOptions)
        ensures
            r == (DisplayOptions {
                antonym: false,
                synonym: false,
                hypernym: false,
                hyponym: false,
                holonym: false,
                all: false,
                json: false,
                verbose: false,
            }),
    {
        DisplayOptions {
            antonym: false,
            synonym: false,
            hypernym: false,
            hyponym: false,
            holonym: false,
            all: false,
            json: false,
            verbose: false,
        }
    }
}

impl Default for DisplayOptions {
    /// Same as `new`: every flag off.
    fn default() -> (r: DisplayOptions)
        ensures
            r == (DisplayOptions {
                antonym: false,
                synonym: false,
                hypernym: false,
                hyponym: false,
                holonym: false,
                all: false,
                json: false,
                verbose: false,
            }),
    {
        DisplayOptions::new()
    }
}

} // verus!
