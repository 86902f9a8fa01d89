//! Metadata for property descriptors.
use vstd::prelude::*;

verus! {

pub const NONE: u8 = 0;
pub const READ_ONLY: u8 = 1 << 0;
pub const DONT_ENUM: u8 = 1 << 1;
pub const DONT_DELETE: u8 = 1 << 2;

} // verus!
