//! Shared-mutable containers with runtime conflict detection.
//!
//! The crate has two halves.
//!
//! The first is [`WithCell`], a container granting access to one value
//! through replace/set/swap/take operations that are *checked*: each one
//! first consults a [`ScopeStack`], the explicit record of currently open
//! scoped accesses, and refuses with a [`Violation`] whenever the
//! container it would mutate is inside an open scope.  The
//! [`WithCell::with`] operation opens such a scope: it pushes the
//! container's identity, hands the callback a plain reference to the
//! interior value, and pops the entry again on the way out, leaving the
//! stack exactly as it found it.  Re-scoping is checked the same way as
//! mutation: `with` on a container whose scope is already open is
//! itself refused as a [`Violation`].
//!
//! The second half is a projection engine: from a handle on a container
//! holding a composite value (a pair, an array, a vector), it derives a
//! handle on one field or element, with a contract pinning down that
//! mutation through the derived handle changes exactly that field and
//! nothing else.
//!
//! Identity is explicit in this model: every container carries a `u64`
//! identity chosen at construction, standing for the container's address.
//! Two handles with the same identity stand for the same container;
//! callers keep identities of distinct containers distinct.  Each
//! execution context owns one `ScopeStack`; the stack is never shared
//! across contexts.

pub mod cell;
pub mod project;
pub mod scope;

pub use cell::Violation;
pub use cell::WithCell;
pub use scope::ScopeStack;
