//! Outcome of a codec call, shared by every entry point.
use vstd::prelude::*;

verus! {

/// The window size, as a base-2 logarithm, that callers use unless they have
/// a reason to pick another.
pub const DEFAULT_WINDOW_SIZE: u32 = 22;

/// Codec outcome. It carries no payload: a caller tells failures apart only
/// by the call that produced them.
#[derive(PartialEq, Eq, Structural, Debug, Clone, Copy)]
pub enum BrotliStatus {
    Failure,
    Success,
}

} // verus!
