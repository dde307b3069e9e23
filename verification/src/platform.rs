//! Permission hooks of the platform that grants everything without asking
//! (Windows): no accessibility gate and no input-monitoring prompt.

use vstd::prelude::*;

verus! {

/// Whether simulated key presses are allowed: always, on this platform.
pub fn check_accessibility() -> (r: bool)
    ensures
        r,
{
    true
}

/// Shows the accessibility settings: nothing to show on this platform.
pub fn prompt_accessibility() {
}

/// Shows the input-monitoring settings: nothing to show on this platform.
pub fn prompt_input_monitoring() {
}

} // verus!
