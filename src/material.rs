use vstd::prelude::*;

verus! {

/// The material of a surface that absorbs every ray reaching it: it never
/// scatters, so a path ending on it contributes black.
pub struct DefaultMaterial {}

} // verus!
