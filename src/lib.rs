//! Start-up wiring of a webview desktop/mobile shell: which capability plugins
//! are attached for a target operating system, the builder that collects
//! them, and the short life cycle from start-up to the run loop.
use vstd::prelude::*;

pub mod builder;
pub mod lifecycle;
pub mod plugins;

verus! {

} // verus!
