use vstd::prelude::*;

verus! {

/// Limits [`crate::error::ResultExt`] to results whose failure is describable.
pub trait Sealed {

}

impl<T, E: crate::error::Describe> Sealed for std::result::Result<T, E> {

}

} // verus!
