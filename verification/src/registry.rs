//! Opaque Handle Registry: the table behind every boundary call. A handle is
//! a process-unique non-zero integer naming a slot that owns one native
//! object. Slots are never reused: destroying a handle leaves a tombstone,
//! so a stale or mistyped handle is a detectable error, never corruption.

use vstd::prelude::*;

use crate::errors::HandleError;

verus! {

/// What one registry slot owns. `M` is the model payload, `T` the tensor
/// payload; a destroyed slot keeps its place as `Freed`.
pub enum Payload<M, T> {
    Model(M),
    Tensor(T),
    Freed,
}

/// Is `h` a handle the table with contents `table` has ever issued?
pub open spec fn handle_issued<M, T>(table: Seq<Payload<M, T>>, h: u64) -> bool {
    1 <= h && h as int <= table.len()
}

/// What a typed model lookup of `h` yields on `table`.
pub open spec fn resolve_model<M, T>(table: Seq<Payload<M, T>>, h: u64) -> Result<
    M,
    HandleError,
> {
    if !handle_issued(table, h) {
        Err(HandleError::Unknown)
    } else {
        match table[h as int - 1] {
            Payload::Model(m) => Ok(m),
            Payload::Tensor(_) => Err(HandleError::TypeMismatch),
            Payload::Freed => Err(HandleError::UseAfterFree),
        }
    }
}

/// What a typed tensor lookup of `h` yields on `table`.
pub open spec fn resolve_tensor<M, T>(table: Seq<Payload<M, T>>, h: u64) -> Result<
    T,
    HandleError,
> {
    if !handle_issued(table, h) {
        Err(HandleError::Unknown)
    } else {
        match table[h as int - 1] {
            Payload::Tensor(t) => Ok(t),
            Payload::Model(_) => Err(HandleError::TypeMismatch),
            Payload::Freed => Err(HandleError::UseAfterFree),
        }
    }
}

/// The slot table. Its single shared instance sits behind the host shell's
/// lock; each operation here is one critical section.
pub struct Registry<M, T> {
    slots: Vec<Payload<M, T>>,
}

impl<M, T> Registry<M, T> {
    /// The slots, in order of issue.
    pub closed spec fn table(self) -> Seq<Payload<M, T>> {
        self.slots@
    }

    /// An empty registry: no handle has ever been issued.
    pub fn new() -> (r: Self)
        ensures
            r.table() == Seq::<Payload<M, T>>::empty(),
    {
        Registry { slots: Vec::new() }
    }

    /// How many handles have ever been issued.
    pub fn issued_count(&self) -> (n: usize)
        ensures
            n == self.table().len(),
    {
        self.slots.len()
    }

    /// Take ownership of a model and issue a fresh handle for it: non-zero,
    /// and distinct from every handle this registry has ever issued.
    pub fn create_model(&mut self, value: M) -> (h: u64)
        requires
            old(self).table().len() < u64::MAX,
        ensures
            final(self).table() == old(self).table().push(Payload::Model(value)),
            h as int == old(self).table().len() + 1,
            handle_issued(final(self).table(), h),
            !handle_issued(old(self).table(), h),
            forall|h2: u64|
                handle_issued(old(self).table(), h2) ==> h2 != h && handle_issued(
                    final(self).table(),
                    h2,
                ),
    {
        let h = (self.slots.len() as u64) + 1;
        self.slots.push(Payload::Model(value));
        h
    }

    /// Take ownership of a tensor and issue a fresh handle for it.
    pub fn create_tensor(&mut self, value: T) -> (h: u64)
        requires
            old(self).table().len() < u64::MAX,
        ensures
            final(self).table() == old(self).table().push(Payload::Tensor(value)),
            h as int == old(self).table().len() + 1,
            handle_issued(final(self).table(), h),
            !handle_issued(old(self).table(), h),
            forall|h2: u64|
                handle_issued(old(self).table(), h2) ==> h2 != h && handle_issued(
                    final(self).table(),
                    h2,
                ),
    {
        let h = (self.slots.len() as u64) + 1;
        self.slots.push(Payload::Tensor(value));
        h
    }

    /// Resolve a handle to the model it names, read-only. A handle never
    /// issued, a handle naming a tensor, and a destroyed handle each fail
    /// with their own error.
    pub fn borrow_model(&self, h: u64) -> (r: Result<&M, HandleError>)
        ensures
            match r {
                Ok(m) => resolve_model(self.table(), h) == Ok::<M, HandleError>(*m),
                Err(e) => resolve_model(self.table(), h) == Err::<M, HandleError>(e),
            },
    {
        if h == 0 || h > self.slots.len() as u64 {
            return Err(HandleError::Unknown);
        }
        let i = (h - 1) as usize;
        match &self.slots[i] {
            Payload::Model(m) => Ok(m),
            Payload::Tensor(_) => Err(HandleError::TypeMismatch),
            Payload::Freed => Err(HandleError::UseAfterFree),
        }
    }

    /// Resolve a handle to the tensor it names, read-only.
    pub fn borrow_tensor(&self, h: u64) -> (r: Result<&T, HandleError>)
        ensures
            match r {
                Ok(t) => resolve_tensor(self.table(), h) == Ok::<T, HandleError>(*t),
                Err(e) => resolve_tensor(self.table(), h) == Err::<T, HandleError>(e),
            },
    {
        if h == 0 || h > self.slots.len() as u64 {
            return Err(HandleError::Unknown);
        }
        let i = (h - 1) as usize;
        match &self.slots[i] {
            Payload::Tensor(t) => Ok(t),
            Payload::Model(_) => Err(HandleError::TypeMismatch),
            Payload::Freed => Err(HandleError::UseAfterFree),
        }
    }

    /// Destroy the model a handle names, handing its owned value back so the
    /// caller drops it exactly once. Destroying an already-destroyed handle
    /// is rejected, never a silent no-op; every other slot is untouched.
    pub fn destroy_model(&mut self, h: u64) -> (r: Result<M, HandleError>)
        ensures
            match r {
                Ok(m) => {
                    &&& resolve_model(old(self).table(), h) == Ok::<M, HandleError>(m)
                    &&& final(self).table() == old(self).table().update(
                        h as int - 1,
                        Payload::Freed,
                    )
                },
                Err(e) => {
                    &&& resolve_model(old(self).table(), h) == Err::<M, HandleError>(e)
                    &&& final(self).table() == old(self).table()
                },
            },
    {
        if h == 0 || h > self.slots.len() as u64 {
            return Err(HandleError::Unknown);
        }
        let i = (h - 1) as usize;
        let cur = self.slots.remove(i);
        match cur {
            Payload::Model(m) => {
                self.slots.insert(i, Payload::Freed);
                proof {
                    assert(self.slots@ =~= old(self).slots@.update(i as int, Payload::Freed));
                }
                Ok(m)
            },
            Payload::Tensor(t) => {
                self.slots.insert(i, Payload::Tensor(t));
                proof {
                    assert(self.slots@ =~= old(self).slots@);
                }
                Err(HandleError::TypeMismatch)
            },
            Payload::Freed => {
                self.slots.insert(i, Payload::Freed);
                proof {
                    assert(self.slots@ =~= old(self).slots@);
                }
                Err(HandleError::UseAfterFree)
            },
        }
    }

    /// Destroy the tensor a handle names.
    pub fn destroy_tensor(&mut self, h: u64) -> (r: Result<T, HandleError>)
        ensures
            match r {
                Ok(t) => {
                    &&& resolve_tensor(old(self).table(), h) == Ok::<T, HandleError>(t)
                    &&& final(self).table() == old(self).table().update(
                        h as int - 1,
                        Payload::Freed,
                    )
                },
                Err(e) => {
                    &&& resolve_tensor(old(self).table(), h) == Err::<T, HandleError>(e)
                    &&& final(self).table() == old(self).table()
                },
            },
    {
        if h == 0 || h > self.slots.len() as u64 {
            return Err(HandleError::Unknown);
        }
        let i = (h - 1) as usize;
        let cur = self.slots.remove(i);
        match cur {
            Payload::Tensor(t) => {
                self.slots.insert(i, Payload::Freed);
                proof {
                    assert(self.slots@ =~= old(self).slots@.update(i as int, Payload::Freed));
                }
                Ok(t)
            },
            Payload::Model(m) => {
                self.slots.insert(i, Payload::Model(m));
                proof {
                    assert(self.slots@ =~= old(self).slots@);
                }
                Err(HandleError::TypeMismatch)
            },
            Payload::Freed => {
                self.slots.insert(i, Payload::Freed);
                proof {
                    assert(self.slots@ =~= old(self).slots@);
                }
                Err(HandleError::UseAfterFree)
            },
        }
    }
}

/// Law: the handle a table of `n` slots issues next is distinct from every
/// handle it has issued, so any run of creations yields pairwise-distinct
/// handles.
pub proof fn lemma_fresh_handle_distinct<M, T>(table: Seq<Payload<M, T>>, h: u64)
    requires
        handle_issued(table, h),
    ensures
        table.len() + 1 != h,
{
}

/// Law: destroying one handle does not change what any other handle
/// resolves to, for either payload kind.
pub proof fn lemma_destroy_preserves_others<M, T>(
    table: Seq<Payload<M, T>>,
    destroyed: u64,
    other: u64,
)
    requires
        handle_issued(table, destroyed),
        other != destroyed,
    ensures
        resolve_model(table.update(destroyed as int - 1, Payload::Freed), other) == resolve_model(
            table,
            other,
        ),
        resolve_tensor(table.update(destroyed as int - 1, Payload::Freed), other) == resolve_tensor(
            table,
            other,
        ),
{
}

} // verus!
