//! Mathematical models of run-time values.

use vstd::prelude::*;

verus! {

/// A value with a mathematical model that goes all the way down: strings
/// become character sequences and vectors become sequences, wherever they are
/// nested.
///
/// Types that hold text take the text as a parameter, so that one definition
/// serves for the run-time value (`String`) and for its model (`Seq<char>`).
pub trait Model {
    type M;

    spec fn model(&self) -> Self::M;
}

impl Model for String {
    type M = Seq<char>;

    open spec fn model(&self) -> Seq<char> {
        self@
    }
}

impl Model for () {
    type M = ();

    open spec fn model(&self) -> () {
        ()
    }
}

impl Model for bool {
    type M = bool;

    open spec fn model(&self) -> bool {
        *self
    }
}

impl Model for usize {
    type M = usize;

    open spec fn model(&self) -> usize {
        *self
    }
}

impl<T: Model> Model for Option<T> {
    type M = Option<T::M>;

    open spec fn model(&self) -> Option<T::M> {
        match self {
            Some(t) => Some(t.model()),
            None => None,
        }
    }
}

impl<T: Model, E: Model> Model for Result<T, E> {
    type M = Result<T::M, E::M>;

    open spec fn model(&self) -> Result<T::M, E::M> {
        match self {
            Ok(t) => Ok(t.model()),
            Err(e) => Err(e.model()),
        }
    }
}

impl<T: Model> Model for Vec<T> {
    type M = Seq<T::M>;

    open spec fn model(&self) -> Seq<T::M> {
        self@.map_values(|t: T| t.model())
    }
}

} // verus!
