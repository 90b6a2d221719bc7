//! The checked shared-mutable container.

use vstd::prelude::*;

use crate::scope::borrowed_in;
use crate::scope::ScopeStack;

verus! {

/// The report of a refused access: a mutation or swap was attempted on a
/// container that is inside an open scope.  `id` is the identity of the
/// offending container.
#[derive(Clone, Copy, Debug, PartialEq, Eq, Structural)]
pub struct Violation {
    pub id: u64,
}

/// A container around one value of type `T`.
///
/// The container carries an explicit identity, standing for its address:
/// handles with equal identities denote the same container, and callers
/// give distinct containers distinct identities.  Mutating operations
/// take the execution context's [`ScopeStack`] and refuse with a
/// [`Violation`] when this container is inside an open scope.
pub struct WithCell<T> {
    id: u64,
    value: T,
}

impl<T> WithCell<T> {
    /// The identity this container was constructed with.
    pub closed spec fn ident(self) -> u64 {
        self.id
    }

    /// The value the container currently holds.
    pub closed spec fn val(self) -> T {
        self.value
    }

    /// Wrap a value, under the given identity.
    pub fn new(value: T, id: u64) -> (c: Self)
        ensures
            c.val() == value,
            c.ident() == id,
    {
        WithCell { id, value }
    }

    /// Consume the container and hand back the value it holds.
    pub fn into_inner(self) -> (t: T)
        ensures
            t == self.val(),
    {
        self.value
    }

    /// Exchange the held value for `t` and return the old one —
    /// provided no scope on this container is open in the given
    /// context.  A container inside an open scope is left untouched and
    /// the attempt is reported as a [`Violation`] naming it.
    pub fn replace(&mut self, stack: &ScopeStack, t: T) -> (r: Result<T, Violation>)
        ensures
            final(self).ident() == old(self).ident(),
            borrowed_in(stack@, old(self).ident()) ==> r == Err::<T, Violation>(
                Violation { id: old(self).ident() },
            ) && final(self).val() == old(self).val(),
            !borrowed_in(stack@, old(self).ident()) ==> r == Ok::<T, Violation>(old(self).val())
                && final(self).val() == t,
    {
        if stack.is_borrowed(self.id) {
            return Err(Violation { id: self.id });
        }
        let mut old_value = t;
        core::mem::swap(&mut self.value, &mut old_value);
        Ok(old_value)
    }

    /// Store `t`, discarding the old value: `replace` with the result
    /// dropped.  Refused, like `replace`, while this container is inside
    /// an open scope.
    pub fn set(&mut self, stack: &ScopeStack, t: T) -> (r: Result<(), Violation>)
        ensures
            final(self).ident() == old(self).ident(),
            borrowed_in(stack@, old(self).ident()) ==> r == Err::<(), Violation>(
                Violation { id: old(self).ident() },
            ) && final(self).val() == old(self).val(),
            !borrowed_in(stack@, old(self).ident()) ==> r == Ok::<(), Violation>(())
                && final(self).val() == t,
    {
        match self.replace(stack, t) {
            Ok(_) => Ok(()),
            Err(v) => Err(v),
        }
    }

    /// Exchange the values of two containers.
    ///
    /// Two handles with equal identities denote the same container;
    /// swapping a container with itself is a no-op and never a
    /// conflict.  Otherwise both containers must be outside every open
    /// scope; if either is inside one, nothing is exchanged and the
    /// violation names the first offender (`self` before `other`).
    pub fn swap(&mut self, other: &mut WithCell<T>, stack: &ScopeStack) -> (r: Result<
        (),
        Violation,
    >)
        ensures
            final(self).ident() == old(self).ident(),
            final(other).ident() == old(other).ident(),
            old(self).ident() == old(other).ident() ==> r == Ok::<(), Violation>(())
                && final(self).val() == old(self).val() && final(other).val() == old(other).val(),
            old(self).ident() != old(other).ident() && borrowed_in(stack@, old(self).ident())
                ==> r == Err::<(), Violation>(Violation { id: old(self).ident() })
                && final(self).val() == old(self).val() && final(other).val() == old(other).val(),
            old(self).ident() != old(other).ident() && !borrowed_in(stack@, old(self).ident())
                && borrowed_in(stack@, old(other).ident()) ==> r == Err::<(), Violation>(
                Violation { id: old(other).ident() },
            ) && final(self).val() == old(self).val() && final(other).val() == old(other).val(),
            old(self).ident() != old(other).ident() && !borrowed_in(stack@, old(self).ident())
                && !borrowed_in(stack@, old(other).ident()) ==> r == Ok::<(), Violation>(())
                && final(self).val() == old(other).val() && final(other).val() == old(self).val(),
    {
        if self.id == other.id {
            return Ok(());
        }
        if stack.is_borrowed(self.id) {
            return Err(Violation { id: self.id });
        }
        if stack.is_borrowed(other.id) {
            return Err(Violation { id: other.id });
        }
        core::mem::swap(&mut self.value, &mut other.value);
        Ok(())
    }

    /// A plain mutable handle on the interior value.
    ///
    /// Holding `&mut self` already grants exclusive access, so no
    /// dynamic check is needed; the projection operations build on this
    /// to narrow a handle down to one field or element.
    pub fn get_mut(&mut self) -> (r: &mut T)
        ensures
            *r == old(self).val(),
            final(self).val() == *final(r),
            final(self).ident() == old(self).ident(),
    {
        &mut self.value
    }

    /// Open a scope on this container for the duration of `f`.
    ///
    /// Re-scoping is a conflict: when this container is already inside
    /// an open scope, the callback is not run and the attempt is
    /// refused as a [`Violation`] naming the container.  Otherwise the
    /// container's identity is pushed on the scope stack, the callback
    /// receives a plain reference to the interior value, and the entry
    /// is popped again before `with` returns, so the stack always ends
    /// exactly as it began and the callback's result is handed through
    /// unchanged.  While the entry is on the stack, every mutation of
    /// this container through the checked operations is refused.
    pub fn with<U, F: FnOnce(&T) -> U>(&self, stack: &mut ScopeStack, f: F) -> (r: Result<
        U,
        Violation,
    >)
        requires
            !borrowed_in(old(stack)@, self.ident()) ==> call_requires(f, (&self.val(),)),
        ensures
            final(stack)@ == old(stack)@,
            borrowed_in(old(stack)@, self.ident()) ==> r == Err::<U, Violation>(
                Violation { id: self.ident() },
            ),
            !borrowed_in(old(stack)@, self.ident()) ==> r is Ok && call_ensures(
                f,
                (&self.val(),),
                r->Ok_0,
            ),
    {
        if stack.is_borrowed(self.id) {
            return Err(Violation { id: self.id });
        }
        stack.push(self.id);
        let r = f(&self.value);
        let _ = stack.pop();
        proof {
            assert(stack@ =~= old(stack)@);
        }
        Ok(r)
    }
}

impl<T: Copy> WithCell<T> {
    /// Copy the held value out.  Reading never conflicts with an open
    /// scope: plain references may coexist.
    pub fn get(&self) -> (t: T)
        ensures
            t == self.val(),
    {
        self.value
    }
}

impl<T: Clone> WithCell<T> {
    /// Clone the held value out.
    pub fn clone(&self) -> (t: T)
        ensures
            vstd::pervasive::cloned::<T>(self.val(), t),
    {
        self.value.clone()
    }
}

impl<T: Default> WithCell<T> {
    /// Take the held value out, leaving the type's default value in its
    /// place: `replace` with the default.  Refused, like `replace`,
    /// while this container is inside an open scope.
    pub fn take(&mut self, stack: &ScopeStack) -> (r: Result<T, Violation>)
        ensures
            final(self).ident() == old(self).ident(),
            borrowed_in(stack@, old(self).ident()) ==> r == Err::<T, Violation>(
                Violation { id: old(self).ident() },
            ) && final(self).val() == old(self).val(),
            !borrowed_in(stack@, old(self).ident()) ==> r == Ok::<T, Violation>(old(self).val())
                && call_ensures(T::default, (), final(self).val()),
    {
        let d = T::default();
        self.replace(stack, d)
    }
}

} // verus!
