//! The execution-context-local record of open scoped accesses.
//!
//! A `ScopeStack` holds the identities of the containers whose scopes are
//! currently open, innermost last.  Entries are pushed when a scope
//! opens and popped when it closes, in strict LIFO order, so an identity
//! that does not appear anywhere on the stack is provably not inside any
//! open scope.  The conflict check walks the stack from the top; its
//! cost is the number of open scopes, not the number of containers.

use vstd::prelude::*;

verus! {

/// Whether the container with identity `id` has an open scope recorded
/// on a stack whose contents are `entries`.
pub open spec fn borrowed_in(entries: Seq<u64>, id: u64) -> bool {
    entries.contains(id)
}

/// The stack of currently open scopes of one execution context.
pub struct ScopeStack {
    entries: Vec<u64>,
}

impl View for ScopeStack {
    type V = Seq<u64>;

    closed spec fn view(&self) -> Seq<u64> {
        self.entries@
    }
}

impl ScopeStack {
    /// A context starts with no scope open.
    pub fn new() -> (s: Self)
        ensures
            s@ == Seq::<u64>::empty(),
    {
        ScopeStack { entries: Vec::new() }
    }

    /// How many scopes are currently open.
    pub fn depth(&self) -> (n: usize)
        ensures
            n == self@.len(),
    {
        self.entries.len()
    }

    /// Record that a scope on the container with identity `id` has
    /// opened.  The new entry becomes the innermost one.
    pub fn push(&mut self, id: u64)
        ensures
            final(self)@ == old(self)@.push(id),
    {
        self.entries.push(id);
    }

    /// Record that the innermost open scope has closed, returning the
    /// identity it was opened on, or `None` on an empty stack.
    pub fn pop(&mut self) -> (r: Option<u64>)
        ensures
            old(self)@.len() == 0 ==> r is None && final(self)@ == old(self)@,
            old(self)@.len() > 0 ==> r == Some(old(self)@.last()) && final(self)@ == old(self)@.drop_last(),
    {
        let r = self.entries.pop();
        proof {
            if old(self)@.len() > 0 {
                assert(self@ =~= old(self)@.drop_last());
            }
        }
        r
    }

    /// The conflict check: walk the open scopes from the innermost
    /// outward and report whether `id` appears among them.
    pub fn is_borrowed(&self, id: u64) -> (r: bool)
        ensures
            r == borrowed_in(self@, id),
    {
        let n = self.entries.len();
        let mut i: usize = n;
        while i > 0
            invariant
                i <= n,
                n == self@.len(),
                forall|j: int| i <= j < n ==> self@[j] != id,
            decreases i,
        {
            i = i - 1;
            if self.entries[i] == id {
                return true;
            }
        }
        false
    }
}

/// Opening a scope on a container makes that very container borrowed:
/// inside the scope, every mutation of it is refused.
pub proof fn lemma_push_borrows_own(entries: Seq<u64>, id: u64)
    ensures
        borrowed_in(entries.push(id), id),
{
    assert(entries.push(id)[entries.len() as int] == id);
}

/// Opening a scope on one container never makes an unrelated container
/// borrowed: a mutation of the unrelated one is still admitted.
pub proof fn lemma_push_spares_unrelated(entries: Seq<u64>, id: u64, other: u64)
    requires
        other != id,
        !borrowed_in(entries, other),
    ensures
        !borrowed_in(entries.push(id), other),
{
    assert forall|j: int| 0 <= j < entries.push(id).len() implies entries.push(id)[j] != other by {
        if j < entries.len() {
            assert(entries.push(id)[j] == entries[j]);
        }
    }
}

/// Nested scopes: after opening scopes on `x`, `y` and `z` in turn, the
/// middle container `y` is borrowed, while a container `w` distinct from
/// all three and not already inside an open scope is not.
pub proof fn lemma_nested_scopes(entries: Seq<u64>, x: u64, y: u64, z: u64, w: u64)
    requires
        w != x,
        w != y,
        w != z,
        !borrowed_in(entries, w),
    ensures
        borrowed_in(entries.push(x).push(y).push(z), y),
        !borrowed_in(entries.push(x).push(y).push(z), w),
{
    let s = entries.push(x).push(y);
    // y went on the stack when its scope opened, and pushing z keeps it
    // there.
    lemma_push_borrows_own(entries.push(x), y);
    let i = choose|i: int| 0 <= i < s.len() && s[i] == y;
    assert(s.push(z)[i] == y);
    // w was outside every open scope and none of the three pushes adds
    // it.
    lemma_push_spares_unrelated(entries, x, w);
    lemma_push_spares_unrelated(entries.push(x), y, w);
    lemma_push_spares_unrelated(s, z, w);
}

} // verus!
