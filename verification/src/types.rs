//! Plain types that describe the device under test.

use vstd::prelude::*;

verus! {

/// The flash chip that a run addresses.
#[derive(Copy, Clone, PartialEq, Eq, Debug, Structural)]
pub enum FlashChip {
    EC,
    HOST,
    SERVO,
    DEDIPROG,
}

} // verus!
