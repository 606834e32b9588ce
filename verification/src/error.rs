//! The generic error values of the user-facing layer.

use vstd::prelude::*;

verus! {

/// Failures of the surrounding user interface that carry no payload; each
/// renders as a fixed message.
#[derive(Clone, Copy, PartialEq, Eq, Structural, Debug)]
pub enum GenericError {
    /// An event target could not be cast to the expected element type.
    DynCastError,
    /// A value looked up in a dynamic object was not there.
    Undefined,
}

impl GenericError {
    /// The fixed display message of this error.
    pub fn message(&self) -> (r: &'static str)
        ensures
            self is DynCastError ==> r@ == "Couldn't cast the event target."@,
            self is Undefined ==> r@ == "Couldn't find the value in a JsObject."@,
    {
        match self {
            GenericError::DynCastError => "Couldn't cast the event target.",
            GenericError::Undefined => "Couldn't find the value in a JsObject.",
        }
    }
}

} // verus!
