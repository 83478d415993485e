use vstd::prelude::*;

pub mod layout;
pub mod log;
pub mod pipeline;
pub mod select;

verus! {

/// Offset added to a zero-based output position to obtain the label number
/// of the label map that the deployed classifier was trained against.
pub const CLASS_INDEX_OFFSET: i32 = 2;

} // verus!
