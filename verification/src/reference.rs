//! A link to something that is worth one more page: not there, known but
//! not yet read, or read. The library never fetches by itself; it says which
//! address to fetch and takes what was parsed from it.

use vstd::prelude::*;

verus! {

/// A lazily read link. It only ever moves from `Unresolved` to `Resolved`.
#[derive(Debug)]
pub enum Reference<T> {
    /// The page has no such link.
    Unavailable,
    /// The link's address is known, its target has not been read.
    Unresolved(String),
    /// The target, as read.
    Resolved(T),
}

/// Why a reference cannot be resolved or filled.
#[derive(Clone, Copy, Debug, PartialEq, Eq, Structural)]
pub enum ReferenceError {
    /// There is no link to follow.
    Unavailable,
    /// The target has been read before; what was read stays.
    AlreadyResolved,
}

/// What a caller who wants the target has to do.
#[derive(Debug)]
pub enum Resolution<'a, T> {
    /// Nothing: here is the target.
    Ready(&'a T),
    /// Fetch this address, parse what comes back, and `store` it.
    Fetch(&'a String),
}

impl<T> Reference<T> {
    /// The address that still has to be fetched, if there is one.
    pub open spec fn pending(self) -> Option<Seq<char>> {
        match self {
            Reference::Unresolved(querypath) => Some(querypath@),
            _ => None,
        }
    }

    /// The target, once it has been read.
    pub open spec fn target(self) -> Option<T> {
        match self {
            Reference::Resolved(t) => Some(t),
            _ => None,
        }
    }

    /// The reference after `value` was handed in: an unresolved one holds
    /// it, any other is unchanged.
    pub open spec fn stored(self, value: T) -> Reference<T> {
        match self {
            Reference::Unresolved(_) => Reference::Resolved(value),
            _ => self,
        }
    }

    /// The reference to the page at `querypath`, or to nothing.
    pub fn from_optional_querypath(querypath: Option<String>) -> (r: Reference<T>)
        ensures
            match querypath {
                None => r is Unavailable,
                Some(q) => r == Reference::<T>::Unresolved(q),
            },
    {
        match querypath {
            None => Reference::Unavailable,
            Some(querypath) => Reference::Unresolved(querypath),
        }
    }

    /// The target if it has been read. Never asks for a fetch.
    pub fn try_get_resolved(&self) -> (r: Option<&T>)
        ensures
            match r {
                Some(t) => self.target() == Some(*t),
                None => self.target() is None,
            },
    {
        match self {
            Reference::Resolved(t) => Some(t),
            _ => None,
        }
    }

    /// Decides how to get at the target: it is there, or one address has to
    /// be fetched, or there is no link, which is an error. A target that is
    /// there is handed out as often as it is asked for.
    pub fn resolve(&self) -> (r: Result<Resolution<'_, T>, ReferenceError>)
        ensures
            match r {
                Ok(Resolution::Ready(t)) => self.target() == Some(*t),
                Ok(Resolution::Fetch(q)) => self.pending() == Some(q@),
                Err(e) => e == ReferenceError::Unavailable && *self is Unavailable,
            },
    {
        match self {
            Reference::Unavailable => Err(ReferenceError::Unavailable),
            Reference::Unresolved(querypath) => Ok(Resolution::Fetch(querypath)),
            Reference::Resolved(t) => Ok(Resolution::Ready(t)),
        }
    }

    /// Takes the target that was parsed from the fetched page. Only an
    /// unresolved reference takes one.
    pub fn store(&mut self, value: T) -> (r: Result<(), ReferenceError>)
        ensures
            *final(self) == old(self).stored(value),
            match *old(self) {
                Reference::Unavailable => r == Err::<(), ReferenceError>(
                    ReferenceError::Unavailable,
                ),
                Reference::Unresolved(_) => r is Ok,
                Reference::Resolved(_) => r == Err::<(), ReferenceError>(
                    ReferenceError::AlreadyResolved,
                ),
            },
    {
        match self {
            Reference::Unavailable => Err(ReferenceError::Unavailable),
            Reference::Resolved(_) => Err(ReferenceError::AlreadyResolved),
            Reference::Unresolved(_) => {
                *self = Reference::Resolved(value);
                Ok(())
            },
        }
    }
}

/// A reference is read at most once: after a target is stored in an
/// unresolved reference, the reference holds that target, has no address
/// left to fetch, and a second target changes nothing.
pub proof fn lemma_resolved_once<T>(reference: Reference<T>, first: T, second: T)
    requires
        reference is Unresolved,
    ensures
        reference.pending() is Some,
        reference.target() is None,
        reference.stored(first).target() == Some(first),
        reference.stored(first).pending() is None,
        reference.stored(first).stored(second) == reference.stored(first),
{
}

/// A reference without a link never has an address to fetch and never
/// holds a target, whatever is handed to it.
pub proof fn lemma_unavailable_stays<T>(value: T)
    ensures
        Reference::<T>::Unavailable.pending() is None,
        Reference::<T>::Unavailable.target() is None,
        Reference::<T>::Unavailable.stored(value) == Reference::<T>::Unavailable,
{
}

/// A reference never has both an address to fetch and a target.
pub proof fn lemma_pending_or_target<T>(reference: Reference<T>)
    ensures
        !(reference.pending() is Some && reference.target() is Some),
        (reference is Unavailable) <==> (reference.pending() is None && reference.target() is None),
{
}

} // verus!
