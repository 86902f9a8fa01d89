//! "Fast Mode" (stable hidden-class layout) versus "Dictionary Mode" (hash
//! table) storage of object properties.
use vstd::prelude::*;

verus! {

/// The storage mode of an object's properties.
pub enum ObjectMode {
    Fast,
    Dictionary,
}

} // verus!
