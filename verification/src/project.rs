//! Projection: narrowing a handle on a container of a composite value
//! down to a handle on one field or element.
//!
//! Each projection is a pure narrowing — no value is read or copied —
//! and its contract carries the frame condition that makes projection
//! safe to hand out: writing through the projected handle changes
//! exactly the selected field or element of the parent container and
//! nothing else, and the parent's identity is untouched.  A path of
//! several selectors is one of these calls followed by plain mutable
//! reborrows of the result, one per further selector; a zero-length
//! path is the handle itself.

use vstd::prelude::*;

use crate::cell::WithCell;

verus! {

/// Project a container of a pair onto its first element.
pub fn project_fst<A, B>(c: &mut WithCell<(A, B)>) -> (r: &mut A)
    ensures
        *r == old(c).val().0,
        final(c).val() == (*final(r), old(c).val().1),
        final(c).ident() == old(c).ident(),
{
    &mut c.get_mut().0
}

/// Project a container of a pair onto its second element.
pub fn project_snd<A, B>(c: &mut WithCell<(A, B)>) -> (r: &mut B)
    ensures
        *r == old(c).val().1,
        final(c).val() == (old(c).val().0, *final(r)),
        final(c).ident() == old(c).ident(),
{
    &mut c.get_mut().1
}

/// Project a container of a pair onto both elements at once.
///
/// The two handles target disjoint memory, so they may be held and
/// written simultaneously without conflicting.
pub fn project_parts<A, B>(c: &mut WithCell<(A, B)>) -> (r: (&mut A, &mut B))
    ensures
        *r.0 == old(c).val().0,
        *r.1 == old(c).val().1,
        final(c).val() == (*final(r.0), *final(r.1)),
        final(c).ident() == old(c).ident(),
{
    let inner = c.get_mut();
    (&mut inner.0, &mut inner.1)
}

/// Project a container of a fixed-size array onto the element at index
/// `i`.
///
/// Per-element handles derived this way have the same effect as
/// reinterpreting the container of the array as an array of per-element
/// containers: writing through the handle updates exactly that element,
/// and every other element keeps its value.
pub fn project_array_elem<T, const N: usize>(c: &mut WithCell<[T; N]>, i: usize) -> (r: &mut T)
    requires
        i < N,
    ensures
        *r == old(c).val()@[i as int],
        final(c).val()@ == old(c).val()@.update(i as int, *final(r)),
        final(c).ident() == old(c).ident(),
{
    let inner = c.get_mut();
    &mut inner[i]
}

/// Project a container of a vector onto the element at index `i`.
///
/// Writing through the handle updates exactly that element; every other
/// element keeps its value.
pub fn project_elem<T>(c: &mut WithCell<Vec<T>>, i: usize) -> (r: &mut T)
    requires
        i < old(c).val()@.len(),
    ensures
        *r == old(c).val()@[i as int],
        final(c).val()@ == old(c).val()@.update(i as int, *final(r)),
        final(c).ident() == old(c).ident(),
{
    let inner = c.get_mut();
    &mut inner[i]
}

/// The frame condition of element projection, on its own: updating one
/// position of a sequence leaves every other position as it was.
pub proof fn lemma_elem_frame<T>(s: Seq<T>, i: int, j: int, x: T)
    requires
        0 <= i < s.len(),
        0 <= j < s.len(),
        j != i,
    ensures
        s.update(i, x)[j] == s[j],
        s.update(i, x)[i] == x,
{
}

} // verus!
