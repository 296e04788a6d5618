//! Output device selection.
//!
//! The front end enumerates the host's output devices and hands their names
//! over; the choice of which device a playback session opens is made here.
//! Scanning keeps the last device whose name equals the requested one, and
//! reports none when no name matches, in which case the caller falls back to
//! the host's default output.

use vstd::prelude::*;

verus! {

/// The index of the chosen output device: the last position whose name is
/// the requested one, or `None` when the requested name does not occur and
/// the default output should be used instead.
#[verifier::loop_isolation(false)]
pub fn select_output_device(names: &Vec<String>, requested: &String) -> (r: Option<usize>)
    ensures
        match r {
            Some(i) => {
                &&& i < names@.len()
                &&& names@[i as int]@ == requested@
                &&& forall|j: int| i < j < names@.len() ==> names@[j]@ != requested@
            },
            None => forall|j: int| 0 <= j < names@.len() ==> names@[j]@ != requested@,
        },
{
    let mut found: Option<usize> = None;
    let mut i: usize = 0;
    while i < names.len()
        invariant
            i <= names@.len(),
            match found {
                Some(f) => {
                    &&& f < i
                    &&& names@[f as int]@ == requested@
                    &&& forall|j: int| f < j < i ==> names@[j]@ != requested@
                },
                None => forall|j: int| 0 <= j < i ==> names@[j]@ != requested@,
            },
        decreases names@.len() - i,
    {
        if names[i] == *requested {
            found = Some(i);
        }
        i = i + 1;
    }
    found
}

} // verus!
