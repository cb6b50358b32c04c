//! The operating system a build targets. Code that behaves differently per
//! platform takes it as a value, so that every branch can be checked.

use vstd::prelude::*;

verus! {

/// The target operating system.
#[derive(Debug, Clone, Copy, PartialEq, Eq, Structural)]
pub enum TargetOs {
    Windows,
    MacOs,
    Linux,
    /// Any other system.
    Other,
}

} // verus!
