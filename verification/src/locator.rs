//! Picking the joystick out of the host's input devices: the fixed hardware
//! name and the first-match search over candidate device names.

use vstd::prelude::*;

use crate::event::Error;

verus! {

/// The device name the Sense HAT joystick reports; the locator matches
/// against it exactly.
pub open spec fn sense_hat_name() -> Seq<char> {
    "Raspberry Pi Sense HAT Joystick"@
}

/// The device name the Sense HAT joystick reports, as a string.
pub fn joystick_device_name() -> (s: &'static str)
    ensures
        s@ == sense_hat_name(),
{
    "Raspberry Pi Sense HAT Joystick"
}

/// Whether a candidate device's reported name is the joystick's.
pub fn is_joystick_name(name: &String) -> (r: bool)
    ensures
        r == (name@ == sense_hat_name()),
{
    let expected: String = joystick_device_name().to_owned();
    name.eq(&expected)
}

/// Search the candidates' reported names in the order the host yielded
/// them — that order is OS-dependent and carries no meaning. Returns the
/// index of the first candidate whose name is exactly the joystick's;
/// fails with `NotFound` when no candidate matches.
pub fn locate(names: &Vec<String>) -> (res: Result<usize, Error>)
    ensures
        res matches Ok(i) ==> i < names@.len() && names@[i as int]@ == sense_hat_name() && (forall|
            j: int,
        |
            0 <= j < i ==> names@[j]@ != sense_hat_name()),
        res matches Err(e) ==> e == Error::NotFound && (forall|j: int|
            0 <= j < names@.len() ==> names@[j]@ != sense_hat_name()),
{
    let mut i: usize = 0;
    while i < names.len()
        invariant
            i <= names@.len(),
            forall|j: int| 0 <= j < i ==> names@[j]@ != sense_hat_name(),
        decreases names@.len() - i,
    {
        if is_joystick_name(&names[i]) {
            return Ok(i);
        }
        i = i + 1;
    }
    Err(Error::NotFound)
}

} // verus!
