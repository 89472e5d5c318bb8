//! The dispatcher: one value that holds either of two backends and forwards
//! every operation to the one it holds.
use vstd::prelude::*;

verus! {

/// Which of the two backends a dispatcher holds.
#[derive(Clone, Copy, Debug, PartialEq, Eq, Structural)]
pub enum Variant {
    /// The hardware-accelerated backend.
    Primary,
    /// The software backend.
    Secondary,
}

/// Exactly one of two backends, which it owns.
///
/// A renderer and a compositor are dispatched alike: each is a `Fallback`
/// over the two backends' own types. The variant is chosen when the value is
/// built, and no operation of this crate moves a dispatcher from one variant
/// to the other.
#[derive(Debug)]
pub enum Fallback<A, B> {
    /// The dispatcher holds the primary backend.
    Primary(A),
    /// The dispatcher holds the secondary backend.
    Secondary(B),
}

/// Whether `operation` may run on a backend whose value is `before`, with `args`.
pub open spec fn accepts<X, T, O, F: FnOnce(&mut X, T) -> O>(
    operation: F,
    before: X,
    args: T,
) -> bool {
    forall|backend: &mut X| *backend == before ==> operation.requires((backend, args))
}

impl<A, B> Fallback<A, B> {
    /// The variant that the dispatcher holds.
    pub open spec fn active(&self) -> Variant {
        match self {
            Fallback::Primary(_) => Variant::Primary,
            Fallback::Secondary(_) => Variant::Secondary,
        }
    }

    /// Tells which backend is held.
    pub fn variant(&self) -> (variant: Variant)
        ensures
            variant == self.active(),
    {
        match self {
            Fallback::Primary(_) => Variant::Primary,
            Fallback::Secondary(_) => Variant::Secondary,
        }
    }

    /// Forwards an operation that only reads the backend.
    ///
    /// `primary` and `secondary` are the same operation as each backend
    /// offers it. The one that matches the held backend runs on it, with
    /// `args` as they are, and its output is handed back as it is.
    pub fn forward<T, O, F, G>(&self, args: T, primary: F, secondary: G) -> (out: O)
        where F: FnOnce(&A, T) -> O, G: FnOnce(&B, T) -> O
        requires
            self matches Fallback::Primary(backend) ==> primary.requires((backend, args)),
            self matches Fallback::Secondary(backend) ==> secondary.requires((backend, args)),
        ensures
            self matches Fallback::Primary(backend) ==> primary.ensures((backend, args), out),
            self matches Fallback::Secondary(backend) ==> secondary.ensures((backend, args), out),
    {
        match self {
            Fallback::Primary(backend) => primary(backend, args),
            Fallback::Secondary(backend) => secondary(backend, args),
        }
    }

    /// Forwards an operation that may change the backend.
    ///
    /// The operation that matches the held backend runs on it, with `args` as
    /// they are. The dispatcher then holds the same variant, with the backend
    /// as the operation left it, and the output is handed back as it is.
    pub fn forward_mut<T, O, F, G>(&mut self, args: T, primary: F, secondary: G) -> (out: O)
        where F: FnOnce(&mut A, T) -> O, G: FnOnce(&mut B, T) -> O
        requires
            *old(self) matches Fallback::Primary(before) ==> accepts(primary, before, args),
            *old(self) matches Fallback::Secondary(before) ==> accepts(secondary, before, args),
        ensures
            final(self).active() == old(self).active(),
            *old(self) matches Fallback::Primary(before) ==> exists|backend: &mut A|
                *backend == before && *final(self) == Fallback::<A, B>::Primary(*final(backend))
                    && primary.ensures((backend, args), out),
            *old(self) matches Fallback::Secondary(before) ==> exists|backend: &mut B|
                *backend == before && *final(self) == Fallback::<A, B>::Secondary(*final(backend))
                    && secondary.ensures((backend, args), out),
    {
        match self {
            Fallback::Primary(backend) => primary(backend, args),
            Fallback::Secondary(backend) => secondary(backend, args),
        }
    }
}

} // verus!
