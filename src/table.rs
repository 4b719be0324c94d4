//! The table of in-flight operations: a slab, whose keys are stable while
//! an entry lives and are reused once it is removed.

use vstd::prelude::*;

use crate::task::TaskType;
use slab::Slab;

verus! {

#[verifier::external_type_specification]
#[verifier::external_body]
#[verifier::reject_recursive_types(T)]
pub struct ExSlab<T>(Slab<T>);

/// The entries of a slab of operations, by key.
pub uninterp spec fn slab_items(s: Slab<TaskType>) -> Map<usize, TaskType>;

/// Relies on slab::Slab::new: a slab with no entries.
#[verifier::external_body]
pub(crate) fn table_new() -> (r: Slab<TaskType>)
    ensures
        slab_items(r).dom() == Set::<usize>::empty(),
{
    Slab::new()
}

/// Relies on slab::Slab::insert: the value is stored under a key that no
/// entry held, which is returned; the count of entries grows by one, so
/// it must not be at its maximum.
#[verifier::external_body]
pub(crate) fn table_insert(s: &mut Slab<TaskType>, t: TaskType) -> (k: usize)
    requires
        slab_items(*old(s)).dom().len() < usize::MAX,
    ensures
        !slab_items(*old(s)).dom().contains(k),
        slab_items(*final(s)) == slab_items(*old(s)).insert(k, t),
{
    s.insert(t)
}

/// Relies on slab::Slab::remove: the entry under the key, which must be
/// present (else it panics), is taken out and returned.
#[verifier::external_body]
pub(crate) fn table_remove(s: &mut Slab<TaskType>, k: usize) -> (t: TaskType)
    requires
        slab_items(*old(s)).dom().contains(k),
    ensures
        t == slab_items(*old(s))[k],
        slab_items(*final(s)) == slab_items(*old(s)).remove(k),
{
    s.remove(k)
}

/// Relies on slab::Slab::contains: whether an entry is stored under the key.
#[verifier::external_body]
pub(crate) fn table_contains(s: &Slab<TaskType>, k: usize) -> (r: bool)
    ensures
        r == slab_items(*s).dom().contains(k),
{
    s.contains(k)
}

/// Relies on slab::Slab::len: the number of entries.
#[verifier::external_body]
pub(crate) fn table_len(s: &Slab<TaskType>) -> (r: usize)
    ensures
        r == slab_items(*s).dom().len(),
{
    s.len()
}

} // verus!
