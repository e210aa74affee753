//! Configuration errors, detected when a run is set up.

use vstd::prelude::*;

verus! {

/// Why a noise field or an upgrade pool could not be set up.
#[derive(Clone, Copy, Debug, PartialEq, Eq, Structural)]
pub enum ConfigError {
    /// A noise field needs a wave length of at least one cell.
    ZeroWaveLength,
    /// A noise field needs a positive amplitude.
    ZeroAmplitude,
    /// A noise field needs at least one octave.
    ZeroOctaves,
    /// The pool already holds an upgrade of this category and tier.
    DuplicateUpgrade,
    /// The pool's total weight would no longer fit in a `u64`.
    WeightOverflow,
}

} // verus!
