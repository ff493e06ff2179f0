//! Loops that walk one or two slices in index order.
//!
//! Every container operation is one of these loops with a function for the
//! work on a single element. A loop that allocates writes each slot of the new
//! storage once, through [`Uninit`], and hands the storage out only when every
//! slot has been written.
use vstd::prelude::*;

verus! {

/// The two operands of an element-wise operation differ in length.
#[derive(Clone, Copy, Debug, PartialEq, Eq, Structural)]
pub struct LengthMismatch {
    /// The length of the left operand, or of the destination.
    pub left: usize,
    /// The length of the right operand, or of the source.
    pub right: usize,
}

/// Heap storage for a fixed number of elements, some of them not written yet.
///
/// The slots are written in index order, each once. The storage becomes a
/// boxed slice only through [`Uninit::finish`], which asks that all of them
/// have been written, so a slot is never read before it holds a value.
pub struct Uninit<T> {
    slots: Vec<T>,
    len: usize,
}

/// Hands the storage of a vector over to a boxed slice, with
/// `Vec::into_boxed_slice`. The slice holds the vector's elements in their
/// order.
#[verifier::external_body]
pub(crate) fn into_boxed<T>(v: Vec<T>) -> (b: Box<[T]>)
    ensures
        b@ == v@,
{
    v.into_boxed_slice()
}

/// Gives up ownership of a boxed slice for a reference that lasts as long as
/// the program, with `Box::leak`. The storage is never released; the reference
/// sees the elements that the box held, in their order.
#[verifier::external_body]
pub(crate) fn leak<T: 'static>(b: Box<[T]>) -> (r: &'static mut [T])
    ensures
        r@ == b@,
{
    Box::leak(b)
}

impl<T> Uninit<T> {
    /// The values written so far, in slot order.
    pub closed spec fn written(&self) -> Seq<T> {
        self.slots@
    }

    pub closed spec fn spec_capacity(&self) -> usize {
        self.len
    }

    /// The number of slots.
    #[verifier::when_used_as_spec(spec_capacity)]
    pub fn capacity(&self) -> (n: usize)
        ensures
            n == self.spec_capacity(),
    {
        self.len
    }

    /// Acquires storage for `len` elements, none of them written.
    pub fn new(len: usize) -> (r: Uninit<T>)
        ensures
            r.written() == Seq::<T>::empty(),
            r.capacity() == len,
    {
        Uninit { slots: Vec::with_capacity(len), len }
    }

    /// The number of slots already written.
    pub fn filled(&self) -> (n: usize)
        ensures
            n == self.written().len(),
    {
        self.slots.len()
    }

    /// Writes the next slot.
    pub fn write(&mut self, value: T)
        requires
            old(self).written().len() < old(self).capacity(),
        ensures
            final(self).written() == old(self).written().push(value),
            final(self).capacity() == old(self).capacity(),
    {
        self.slots.push(value);
    }

    /// Turns fully written storage into a boxed slice.
    pub fn finish(self) -> (r: Box<[T]>)
        requires
            self.written().len() == self.capacity(),
        ensures
            r@ == self.written(),
    {
        into_boxed(self.slots)
    }
}

/// Copies a slice into fresh heap storage.
pub fn copied<T: Copy>(src: &[T]) -> (r: Box<[T]>)
    ensures
        r@ == src@,
{
    let n: usize = src.len();
    let mut out: Uninit<T> = Uninit::new(n);
    let mut i: usize = 0;
    while i < n
        invariant
            n == src@.len(),
            0 <= i <= n,
            out.capacity() == n,
            out.written() == src@.take(i as int),
        decreases n - i,
    {
        out.write(src[i]);
        i += 1;
    }
    out.finish()
}

/// Overwrites `dst` with the elements of `src`.
pub fn copy_into<T: Copy>(dst: &mut [T], src: &[T])
    requires
        old(dst)@.len() == src@.len(),
    ensures
        final(dst)@ == src@,
{
    let n: usize = src.len();
    let mut i: usize = 0;
    while i < n
        invariant
            n == src@.len(),
            dst@.len() == n,
            0 <= i <= n,
            forall|j: int| 0 <= j < i ==> dst@[j] == src@[j],
        decreases n - i,
    {
        dst[i] = src[i];
        i += 1;
    }
    assert(dst@ =~= src@);
}

/// Applies `g` to every element of `src`, into fresh heap storage.
pub fn mapped<T: Copy, U, G: Fn(T) -> U>(src: &[T], g: &G) -> (r: Box<[U]>)
    requires
        forall|i: int| 0 <= i < src@.len() ==> g.requires((#[trigger] src@[i],)),
    ensures
        r@.len() == src@.len(),
        forall|i: int| 0 <= i < src@.len() ==> g.ensures((src@[i],), #[trigger] r@[i]),
{
    let n: usize = src.len();
    let mut out: Uninit<U> = Uninit::new(n);
    let mut i: usize = 0;
    while i < n
        invariant
            n == src@.len(),
            0 <= i <= n,
            out.capacity() == n,
            out.written().len() == i,
            forall|j: int| 0 <= j < n ==> g.requires((#[trigger] src@[j],)),
            forall|j: int| 0 <= j < i ==> g.ensures((src@[j],), #[trigger] out.written()[j]),
        decreases n - i,
    {
        let v = g(src[i]);
        out.write(v);
        i += 1;
    }
    out.finish()
}

/// Replaces every element of `dst` by what `g` makes of it.
pub fn map_assign<T: Copy, G: Fn(T) -> T>(dst: &mut [T], g: &G)
    requires
        forall|i: int| 0 <= i < old(dst)@.len() ==> g.requires((#[trigger] old(dst)@[i],)),
    ensures
        final(dst)@.len() == old(dst)@.len(),
        forall|i: int|
            0 <= i < old(dst)@.len() ==> g.ensures((old(dst)@[i],), #[trigger] final(dst)@[i]),
{
    let n: usize = dst.len();
    let mut i: usize = 0;
    while i < n
        invariant
            dst@.len() == n,
            old(dst)@.len() == n,
            0 <= i <= n,
            forall|j: int| 0 <= j < n ==> g.requires((#[trigger] old(dst)@[j],)),
            forall|j: int| 0 <= j < i ==> g.ensures((old(dst)@[j],), #[trigger] dst@[j]),
            forall|j: int| i <= j < n ==> dst@[j] == old(dst)@[j],
        decreases n - i,
    {
        let v = g(dst[i]);
        dst[i] = v;
        i += 1;
    }
}

/// Writes to every slot of `dst` what `g` makes of the element of `src` at
/// the same index.
pub fn map_into<T: Copy, U, G: Fn(T) -> U>(dst: &mut [U], src: &[T], g: &G)
    requires
        old(dst)@.len() == src@.len(),
        forall|i: int| 0 <= i < src@.len() ==> g.requires((#[trigger] src@[i],)),
    ensures
        final(dst)@.len() == src@.len(),
        forall|i: int| 0 <= i < src@.len() ==> g.ensures((src@[i],), #[trigger] final(dst)@[i]),
{
    let n: usize = src.len();
    let mut i: usize = 0;
    while i < n
        invariant
            n == src@.len(),
            dst@.len() == n,
            0 <= i <= n,
            forall|j: int| 0 <= j < n ==> g.requires((#[trigger] src@[j],)),
            forall|j: int| 0 <= j < i ==> g.ensures((src@[j],), #[trigger] dst@[j]),
        decreases n - i,
    {
        let v = g(src[i]);
        dst[i] = v;
        i += 1;
    }
}

/// Applies `g` to the elements of `a` and `b` at each index, into fresh heap
/// storage.
pub fn zipped<T: Copy, U: Copy, V, G: Fn(T, U) -> V>(a: &[T], b: &[U], g: &G) -> (r: Box<[V]>)
    requires
        a@.len() == b@.len(),
        forall|i: int| 0 <= i < a@.len() ==> g.requires((#[trigger] a@[i], b@[i])),
    ensures
        r@.len() == a@.len(),
        forall|i: int| 0 <= i < a@.len() ==> g.ensures((a@[i], b@[i]), #[trigger] r@[i]),
{
    let n: usize = a.len();
    let mut out: Uninit<V> = Uninit::new(n);
    let mut i: usize = 0;
    while i < n
        invariant
            n == a@.len(),
            n == b@.len(),
            0 <= i <= n,
            out.capacity() == n,
            out.written().len() == i,
            forall|j: int| 0 <= j < n ==> g.requires((#[trigger] a@[j], b@[j])),
            forall|j: int| 0 <= j < i ==> g.ensures((a@[j], b@[j]), #[trigger] out.written()[j]),
        decreases n - i,
    {
        let v = g(a[i], b[i]);
        out.write(v);
        i += 1;
    }
    out.finish()
}

/// Replaces every element of `dst` by what `g` makes of it and of the element
/// of `rhs` at the same index.
pub fn zip_assign<T: Copy, U: Copy, G: Fn(T, U) -> T>(dst: &mut [T], rhs: &[U], g: &G)
    requires
        old(dst)@.len() == rhs@.len(),
        forall|i: int| 0 <= i < rhs@.len() ==> g.requires((#[trigger] old(dst)@[i], rhs@[i])),
    ensures
        final(dst)@.len() == rhs@.len(),
        forall|i: int|
            0 <= i < rhs@.len() ==> g.ensures((old(dst)@[i], rhs@[i]), #[trigger] final(dst)@[i]),
{
    let n: usize = rhs.len();
    let mut i: usize = 0;
    while i < n
        invariant
            n == rhs@.len(),
            dst@.len() == n,
            old(dst)@.len() == n,
            0 <= i <= n,
            forall|j: int| 0 <= j < n ==> g.requires((#[trigger] old(dst)@[j], rhs@[j])),
            forall|j: int| 0 <= j < i ==> g.ensures((old(dst)@[j], rhs@[j]), #[trigger] dst@[j]),
            forall|j: int| i <= j < n ==> dst@[j] == old(dst)@[j],
        decreases n - i,
    {
        let v = g(dst[i], rhs[i]);
        dst[i] = v;
        i += 1;
    }
}

/// Writes to every slot of `dst` what `g` makes of the elements of `a` and `b`
/// at the same index.
pub fn zip_into<T: Copy, U: Copy, V, G: Fn(T, U) -> V>(dst: &mut [V], a: &[T], b: &[U], g: &G)
    requires
        old(dst)@.len() == a@.len(),
        a@.len() == b@.len(),
        forall|i: int| 0 <= i < a@.len() ==> g.requires((#[trigger] a@[i], b@[i])),
    ensures
        final(dst)@.len() == a@.len(),
        forall|i: int| 0 <= i < a@.len() ==> g.ensures((a@[i], b@[i]), #[trigger] final(dst)@[i]),
{
    let n: usize = a.len();
    let mut i: usize = 0;
    while i < n
        invariant
            n == a@.len(),
            n == b@.len(),
            dst@.len() == n,
            0 <= i <= n,
            forall|j: int| 0 <= j < n ==> g.requires((#[trigger] a@[j], b@[j])),
            forall|j: int| 0 <= j < i ==> g.ensures((a@[j], b@[j]), #[trigger] dst@[j]),
        decreases n - i,
    {
        let v = g(a[i], b[i]);
        dst[i] = v;
        i += 1;
    }
}

/// Calls `g` on every index below `n`, in order, into fresh heap storage.
pub fn tabulated<V, G: Fn(usize) -> V>(n: usize, g: &G) -> (r: Box<[V]>)
    requires
        forall|i: usize| i < n ==> #[trigger] g.requires((i,)),
    ensures
        r@.len() == n,
        forall|i: usize| i < n ==> g.ensures((i,), #[trigger] r@[i as int]),
{
    let mut out: Uninit<V> = Uninit::new(n);
    let mut i: usize = 0;
    while i < n
        invariant
            0 <= i <= n,
            out.capacity() == n,
            out.written().len() == i,
            forall|j: usize| j < n ==> #[trigger] g.requires((j,)),
            forall|j: usize| j < i ==> g.ensures((j,), #[trigger] out.written()[j as int]),
        decreases n - i,
    {
        let v = g(i);
        out.write(v);
        i += 1;
    }
    out.finish()
}

/// Writes to every slot of `dst` what `g` returns for its index.
pub fn tabulate_into<V, G: Fn(usize) -> V>(dst: &mut [V], g: &G)
    requires
        forall|i: usize| i < old(dst)@.len() ==> #[trigger] g.requires((i,)),
    ensures
        final(dst)@.len() == old(dst)@.len(),
        forall|i: usize| i < old(dst)@.len() ==> g.ensures((i,), #[trigger] final(dst)@[i as int]),
{
    let n: usize = dst.len();
    let mut i: usize = 0;
    while i < n
        invariant
            dst@.len() == n,
            old(dst)@.len() == n,
            0 <= i <= n,
            forall|j: usize| j < n ==> #[trigger] g.requires((j,)),
            forall|j: usize| j < i ==> g.ensures((j,), #[trigger] dst@[j as int]),
        decreases n - i,
    {
        let v = g(i);
        dst[i] = v;
        i += 1;
    }
}

} // verus!
