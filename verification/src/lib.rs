use vstd::prelude::*;

verus! {

/// A scoped handle that temporarily extends a caller-owned vector.
///
/// The handle takes the exclusive borrow of a target vector, appends a batch
/// of values to its tail, and remembers how many elements it added. While the
/// handle is alive it is the only access path to the target: the combined
/// contents (original prefix followed by the appended batch) can be read
/// through [`Self::as_vec`] or copied out with [`Self::snapshot_owned`], and
/// nothing can mutate the target through the handle.
///
/// Calling [`Self::revert`] consumes the handle, removes exactly the appended
/// elements from the tail, and returns the borrow to the caller, whose vector
/// then holds precisely what it held before construction. `revert` is the one
/// release path: a handle that merely goes out of scope gives the borrow back
/// without truncating, so every handle should end in a `revert` call.
pub struct TemporaryVec<'a, T> {
    inner: &'a mut Vec<T>,
    len: usize,
}

impl<'a, T> TemporaryVec<'a, T> {
    /// The combined contents the handle currently presents: the original
    /// prefix of the target followed by the appended batch.
    pub closed spec fn contents(self) -> Seq<T> {
        self.inner@
    }

    /// How many elements this handle appended; fixed at construction.
    pub closed spec fn appended(self) -> nat {
        self.len as nat
    }

    /// The exclusive borrow of the target vector held by this handle, for
    /// relating the handle to the caller's vector in contracts.
    pub closed spec fn target_ref(self) -> &'a mut Vec<T> {
        self.inner
    }

    /// The appended elements never outnumber the combined contents.
    #[verifier::type_invariant]
    pub closed spec fn wf(self) -> bool {
        self.len <= self.inner@.len()
    }

    /// The original prefix: the combined contents with the appended tail
    /// removed. This is what the target holds again after `revert`.
    pub open spec fn original(self) -> Seq<T> {
        self.contents().take(self.contents().len() - self.appended())
    }

    /// The appended tail: the last `appended()` elements of the contents.
    pub open spec fn batch(self) -> Seq<T> {
        self.contents().skip(self.contents().len() - self.appended())
    }

    /// Appends `values` to the tail of `target` by moving them, in order, and
    /// returns the handle that will remove exactly those elements again.
    pub fn onto(target: &'a mut Vec<T>, values: Vec<T>) -> (r: TemporaryVec<'a, T>)
        ensures
            r.appended() == values@.len(),
            r.contents() == old(target)@ + values@,
            *final(r.target_ref()) == *final(target),
    {
        let len = values.len();
        let mut values = values;
        target.append(&mut values);
        TemporaryVec { inner: target, len }
    }

    /// Appends a clone of each element of `values` to the tail of `target`,
    /// in order, leaving the caller's batch untouched, and returns the handle
    /// that will remove exactly those elements again.
    pub fn onto_from_clone(target: &'a mut Vec<T>, values: &[T]) -> (r: TemporaryVec<'a, T>) where
        T: Clone,

        ensures
            r.appended() == values@.len(),
            r.contents().len() == old(target)@.len() + values@.len(),
            forall|i: int|
                0 <= i < old(target)@.len() ==> r.contents()[i] == old(target)@[i],
            forall|i: int|
                #![trigger r.contents()[old(target)@.len() + i]]
                0 <= i < values@.len() ==> cloned::<T>(
                    values@[i],
                    r.contents()[old(target)@.len() + i],
                ),
            *final(r.target_ref()) == *final(target),
    {
        let len = values.len();
        target.extend_from_slice(values);
        TemporaryVec { inner: target, len }
    }

    /// A read-only view of the combined contents backed by the live target.
    pub fn as_vec(&self) -> (r: &Vec<T>)
        ensures
            r@ == self.contents(),
    {
        &*self.inner
    }

    /// A newly allocated vector holding a clone of each combined element, in
    /// order, independent of the target: mutating it never changes the
    /// target or the handle's view.
    pub fn snapshot_owned(&self) -> (r: Vec<T>) where T: Clone
        ensures
            r@.len() == self.contents().len(),
            forall|i: int|
                0 <= i < self.contents().len() ==> cloned::<T>(self.contents()[i], r@[i]),
    {
        (*self.inner).clone()
    }

    /// Consumes the handle, removes exactly the appended elements from the
    /// tail of the target, and returns the borrow to the caller: the target
    /// is left holding the original prefix alone.
    pub fn revert(self)
        ensures
            final(self.target_ref())@ == self.original(),
    {
        proof {
            use_type_invariant(&self);
        }
        let TemporaryVec { inner, len } = self;
        let new_len = inner.len() - len;
        inner.truncate(new_len);
    }
}

/// Law (round trip): a handle built by moving batch `b` onto a target that
/// held `s` presents `s + b`, and reverting it leaves the target holding
/// exactly `s` again, element for element.
pub proof fn lemma_revert_restores_original<'a, T>(s: Seq<T>, b: Seq<T>, r: TemporaryVec<'a, T>)
    requires
        r.contents() == s + b,
        r.appended() == b.len(),
    ensures
        r.original() == s,
        r.batch() == b,
{
    assert(r.original() =~= s);
    assert(r.batch() =~= b);
}

/// Law (tail correctness during life): a handle built from a target that held
/// `s` and a batch `b` presents a view whose length is the sum of the two
/// lengths and whose last `b.len()` elements equal `b`, in append order.
pub proof fn lemma_live_view_tail<'a, T>(s: Seq<T>, b: Seq<T>, r: TemporaryVec<'a, T>)
    requires
        r.contents() == s + b,
        r.appended() == b.len(),
    ensures
        r.contents().len() == s.len() + b.len(),
        r.contents().skip(s.len() as int) == b,
        forall|i: int| 0 <= i < b.len() ==> r.contents()[s.len() + i] == b[i],
{
    assert(r.contents().skip(s.len() as int) =~= b);
}

/// Law (clone-path restoration): whatever the appended tail holds — for the
/// clone mode it holds clones, not the batch elements themselves — reverting
/// a handle whose first `s.len()` elements equal `s` and whose tail is the
/// `n` appended elements leaves the target holding exactly `s`.
pub proof fn lemma_clone_revert_restores_original<'a, T>(
    s: Seq<T>,
    n: nat,
    r: TemporaryVec<'a, T>,
)
    requires
        r.appended() == n,
        r.contents().len() == s.len() + n,
        forall|i: int| 0 <= i < s.len() ==> r.contents()[i] == s[i],
    ensures
        r.original() == s,
{
    assert(r.original() =~= s);
}

} // verus!
