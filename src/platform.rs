use vstd::prelude::*;

verus! {

/// The operating system families the shell tells apart.
#[derive(Clone, Copy, Debug, PartialEq, Eq, Structural)]
pub enum OsFamily {
    /// Translucency is drawn in CSS; native effects are kept off.
    Windows,
    /// The compositor offers a native vibrancy material.
    MacOs,
    /// Any other system: no native effect, no transparency.
    Other,
}

/// How the shell was built.
#[derive(Clone, Copy, Debug, PartialEq, Eq, Structural)]
pub enum BuildMode {
    Debug,
    Release,
}

} // verus!
