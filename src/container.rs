use vstd::prelude::*;

verus! {

/// `op` has been called on `x`: some result of that call is possible.
pub open spec fn inspected<T, U, F: FnOnce(&T) -> U>(op: F, x: &T) -> bool {
    exists|u: U| op.ensures((x,), u)
}

/// A container that may hold a value, which `tap` shows to an inspector
/// before handing the container back unchanged.
pub trait Tappable<T>: Sized {
    /// The value that `tap` shows to the inspector, or `None` when there is
    /// nothing to show.
    spec fn tapped(&self) -> Option<T>;

    /// Calls `op` on a reference to the held value, if there is one, discards
    /// what it returns, and returns `self` as it was.
    fn tap<U, F: FnOnce(&T) -> U>(self, op: F) -> (r: Self)
        requires
            self.tapped() is Some ==> op.requires((&self.tapped()->0,)),
        ensures
            r == self,
            self.tapped() is Some ==> inspected(op, &self.tapped()->0),
    ;
}

impl<T> Tappable<T> for Option<T> {
    open spec fn tapped(&self) -> Option<T> {
        *self
    }

    fn tap<U, F: FnOnce(&T) -> U>(self, op: F) -> (r: Option<T>) {
        match self {
            Some(val) => {
                op(&val);
                Some(val)
            },
            None => None,
        }
    }
}

impl<T, E> Tappable<T> for Result<T, E> {
    open spec fn tapped(&self) -> Option<T> {
        match self {
            Ok(v) => Some(*v),
            Err(_) => None,
        }
    }

    fn tap<U, F: FnOnce(&T) -> U>(self, op: F) -> (r: Result<T, E>) {
        match self {
            Ok(val) => {
                op(&val);
                Ok(val)
            },
            Err(e) => Err(e),
        }
    }
}

} // verus!
