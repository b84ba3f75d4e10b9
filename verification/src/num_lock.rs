//! The num-lock switch: the library decides the LED-setting argument; the
//! process that runs the console tool lives outside it.

use vstd::prelude::*;

verus! {

/// The argument handed to the console LED tool: `+num` switches num lock
/// on, `-num` switches it off.
pub fn setleds_argument(enable: bool) -> (r: &'static str)
    ensures
        enable ==> r@ == "+num"@,
        !enable ==> r@ == "-num"@,
{
    if enable {
        "+num"
    } else {
        "-num"
    }
}

} // verus!
