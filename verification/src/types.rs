use vstd::prelude::*;

verus! {

/// Size in bytes of the account discriminator that precedes every
/// persisted record.
pub const DISCRIMINATOR: usize = 8;

/// Size in bytes of a persisted unsigned 64-bit field.
pub const U64: usize = 8;

} // verus!
