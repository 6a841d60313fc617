//! The handle through which test bodies reach the device.

use crate::types::FlashChip;
use vstd::prelude::*;

verus! {

/// Names the flashing tool to invoke and the chip it is pointed at. The
/// engine only carries the handle to the test bodies; it never uses it.
#[derive(Clone, Debug)]
pub struct FlashromCmd {
    pub path: String,
    pub fc: FlashChip,
}

} // verus!
