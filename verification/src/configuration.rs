//! What the switcher is told to do.

use crate::input_source::InputSource;
use vstd::prelude::*;

verus! {

/// The settings of the switcher. They are read once and never change.
#[derive(Debug)]
pub struct Configuration {
    /// The product identifier of the USB device to watch for.
    pub usb_product: String,
    /// The input to switch the monitor to.
    pub monitor_input: InputSource,
    /// The model name of the monitor to switch.
    pub monitor_description: String,
}

} // verus!
