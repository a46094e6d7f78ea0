//! The seat: which input objects are asked for when it tells what it has.

use vstd::prelude::*;
use crate::backend::wayland::{Request, WaylandState};

verus! {

/// The capability bit of pointer devices.
pub const CAPABILITY_POINTER: u32 = 1;

/// The capability bit of keyboards.
pub const CAPABILITY_KEYBOARD: u32 = 2;

/// The capability bit of touch devices.
pub const CAPABILITY_TOUCH: u32 = 4;

/// The capability bits that are known.
pub const CAPABILITY_MASK: u32 = 7;

/// The requests that answer an advertisement of capabilities: a keyboard
/// where the seat has one, then a pointer where it has one. A bitmask with
/// an unknown bit in it is passed over.
pub open spec fn capability_requests(capabilities: u32) -> Seq<Request> {
    if capabilities & !CAPABILITY_MASK != 0 {
        Seq::empty()
    } else if capabilities & CAPABILITY_KEYBOARD != 0 && capabilities & CAPABILITY_POINTER != 0 {
        seq![Request::GetKeyboard, Request::GetPointer]
    } else if capabilities & CAPABILITY_KEYBOARD != 0 {
        seq![Request::GetKeyboard]
    } else if capabilities & CAPABILITY_POINTER != 0 {
        seq![Request::GetPointer]
    } else {
        Seq::empty()
    }
}

impl WaylandState {
    /// Takes the capabilities that the seat advertises.
    pub fn seat_event(&self, capabilities: u32) -> (requests: Vec<Request>)
        ensures
            requests@ == capability_requests(capabilities),
    {
        let mut requests: Vec<Request> = Vec::new();
        if capabilities & !CAPABILITY_MASK == 0 {
            if capabilities & CAPABILITY_KEYBOARD != 0 {
                requests.push(Request::GetKeyboard);
            }
            if capabilities & CAPABILITY_POINTER != 0 {
                requests.push(Request::GetPointer);
            }
        }
        assert(requests@ =~= capability_requests(capabilities));
        requests
    }
}

} // verus!
