//! Parameters that a caller may leave out.

use vstd::prelude::*;

verus! {

/// A parameter that may be left undefined, which is not the same as given
/// the host's null.
#[derive(Clone, Copy, Debug, PartialEq, Eq)]
pub enum OptionalParam<T> {
    Undefined,
    Defined(T),
}

impl<T> OptionalParam<T> {
    /// Whether the parameter was left out.
    pub fn is_undefined(&self) -> (r: bool)
        ensures
            r == (*self is Undefined),
    {
        match self {
            OptionalParam::Undefined => true,
            OptionalParam::Defined(_) => false,
        }
    }

    /// The parameter, which must not have been left out.
    pub fn unwrap_unchecked(self) -> (r: T)
        requires
            self is Defined,
        ensures
            r == self->Defined_0,
    {
        match self {
            OptionalParam::Defined(x) => x,
            OptionalParam::Undefined => vstd::pervasive::unreached(),
        }
    }
}

} // verus!
