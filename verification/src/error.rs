//! What can go wrong while a sequence is carried to the controller.

use vstd::prelude::*;
use core::convert::Infallible;

verus! {

/// Failure of an operation on the controller.
#[derive(Debug, PartialEq, Eq)]
pub enum Error<E = ()> {
    /// Communication error: the bus refused a write.
    Comm(E),
    /// Pin setting error. Digital lines cannot fail, so no value of this
    /// variant exists.
    Pin(Infallible),
}

} // verus!
