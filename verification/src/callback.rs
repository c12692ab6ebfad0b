//! The callback for new frames, as far as its storage goes.
//!
//! The driver keeps the closure in storage of its own and tells this crate
//! the address. The native side gets that address as user data, and hands it
//! back with every notification.

use vstd::prelude::*;

verus! {

/// The callback storage that counts: one that has an address.
pub open spec fn registered(callback: Option<usize>) -> Option<usize> {
    match callback {
        Some(c) => if c != 0 {
            Some(c)
        } else {
            None
        },
        None => None,
    }
}

/// The storage of a callback as the native side is told of it, see
/// [`registered`].
pub fn registered_callback(callback: Option<usize>) -> (c: Option<usize>)
    ensures
        c == registered(callback),
{
    match callback {
        Some(c) => if c != 0 {
            Some(c)
        } else {
            None
        },
        None => None,
    }
}

/// What the function that native code calls for each new frame does with
/// its user data: it invokes the callback stored there. Null user data name
/// no callback, and nothing is invoked.
pub fn callback_target(userdata: usize) -> (c: Option<usize>)
    ensures
        c == registered(Some(userdata)),
{
    registered_callback(Some(userdata))
}

} // verus!
