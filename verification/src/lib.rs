//! Calling-convention polymorphism: pass a value by value, by shared
//! reference, or by mutable reference, with the choice made by a type-level
//! parameter rather than hard-coded in a function's signature.
//!
//! To parameterize a function by calling convention, specify that it takes
//! some `T: By<'a, C>` for a convention `C`, and say that its input is of
//! type `<T as By<'a, C>>::Type`. This is essentially a defunctionalization
//! of the reference operators: the *implementor* of a trait can pick the
//! calling convention for a value passed into (or out of) a function defined
//! in that trait, rather than this being hardcoded in the trait definition.

use vstd::prelude::*;
use vstd::std_specs::convert::FromSpec;

mod sealed;

verus! {

/// There are three fundamental ways to pass a `T` as input or return a `T` as
/// output: by [`Val`]ue, by shared immutable [`Ref`]erence, and by unique
/// [`Mut`]able reference.
///
/// This is a sealed trait, implemented for exactly these three conventions.
pub trait Convention: sealed::Convention + Sized {
    /// The canonical singleton token of this convention.
    const TOKEN: Self;
}

/// Taking a `T` by [`Val`]ue means taking a `T` as input to or output from a
/// function.
#[derive(Debug, Clone, Copy, PartialEq, Eq, PartialOrd, Ord, Hash, Default)]
pub struct Val;

/// Taking a `T` by [`Ref`]erence means taking `&'a T` as input to or output
/// from a function.
#[derive(Debug, Clone, Copy, PartialEq, Eq, PartialOrd, Ord, Hash, Default)]
pub struct Ref;

/// Taking a `T` by [`Mut`]able reference means taking `&'a mut T` as input to
/// or output from a function.
#[derive(Debug, Clone, Copy, PartialEq, Eq, PartialOrd, Ord, Hash, Default)]
pub struct Mut;

impl Convention for Val {
    const TOKEN: Self = Val;
}

impl Convention for Ref {
    const TOKEN: Self = Ref;
}

impl Convention for Mut {
    const TOKEN: Self = Mut;
}

/// To get the type of `T` via calling convention `C`, write
/// `<T as By<'a, C>>::Type`.
///
/// The spec function [`By::value`] gives every shape a logical reading: the
/// `T` that can be read through the shape at a given moment. Contracts that
/// are generic over a convention are stated over this reading.
pub trait By<'a, C: Convention>: Sized {
    /// The type of `Self` when called by convention `C`.
    type Type;

    /// The owned value currently readable through a shape: the shape itself
    /// under [`Val`], the referent under [`Ref`] and [`Mut`].
    spec fn value(this: Self::Type) -> Self;

    /// Copy a thing of unknown calling convention, returning an owned value.
    fn copy(this: Self::Type) -> (r: Self) where Self: Copy
        ensures
            r == Self::value(this),
    ;

    /// Clone a thing of unknown calling convention, returning an owned value.
    fn clone(this: Self::Type) -> (r: Self) where Self: Clone
        ensures
            cloned(Self::value(this), r),
    ;
}

impl<'a, T> By<'a, Val> for T {
    type Type = T;

    open spec fn value(this: T) -> T {
        this
    }

    fn copy(this: T) -> (r: T) where T: Copy {
        this
    }

    fn clone(this: T) -> (r: T) where T: Clone {
        this
    }
}

impl<'a, T: 'a> By<'a, Ref> for T {
    type Type = &'a T;

    open spec fn value(this: &'a T) -> T {
        *this
    }

    fn copy(this: &'a T) -> (r: T) where T: Copy {
        *this
    }

    fn clone(this: &'a T) -> (r: T) where T: Clone {
        this.clone()
    }
}

impl<'a, T: 'a> By<'a, Mut> for T {
    type Type = &'a mut T;

    open spec fn value(this: &'a mut T) -> T {
        *this
    }

    fn copy(this: &'a mut T) -> (r: T) where T: Copy {
        copy_via_mut(this)
    }

    fn clone(this: &'a mut T) -> (r: T) where T: Clone {
        clone_via_mut(this)
    }
}

/// Copy out of an exclusive view. The copy equals the referent, and the
/// referent itself is left untouched for the rest of the view's lifetime.
pub fn copy_via_mut<'a, T: Copy>(this: &'a mut T) -> (r: T)
    ensures
        r == *old(this),
        *final(this) == *old(this),
{
    *this
}

/// Clone out of an exclusive view. The result is a clone of the referent,
/// and the referent itself is left untouched for the rest of the view's
/// lifetime.
pub fn clone_via_mut<'a, T: Clone>(this: &'a mut T) -> (r: T)
    ensures
        cloned(*old(this), r),
        *final(this) == *old(this),
{
    (*this).clone()
}

/// Convert between different calling conventions.
///
/// Only some conversions are sensible, due to the ownership discipline. These
/// are the valid ones, with the constraints on the underlying type `T` noted:
///
/// | Can I convert... | ... to [`Val`] (`T`)  | ... to [`Ref`] (`&'a T`) | ... to [`Mut`] (`&'a mut T`) |
/// | :--------------------------------- | :------------------ | :------ | :------ |
/// | **from [`Val`] (`T`) ...**         | (valid for all `T`) | no*     | no*     |
/// | **from [`Ref`] (`&'a T`) ...**     | `T: 'a +` [`Clone`] | `T: 'a` | no**    |
/// | **from [`Mut`] (`&'a mut T`) ...** | `T: 'a +` [`Clone`] | `T: 'a` | `T: 'a` |
///
/// > \* Impossible because references can't outlive the data they borrow.
/// >
/// > \** Impossible because potentially-aliased data can't be mutably
/// > referenced.
///
/// Requesting any other pair of conventions does not type-check: the trait
/// simply has no implementation for it, and [`Convention`] is sealed, so no
/// further implementation can ever be added from outside this crate.
pub trait Convert<'a, From: Convention, To: Convention> where
    Self: By<'a, To> + By<'a, From>,
 {
    /// How the conversion relates a value read through the source shape to
    /// one read through the result shape: equality for the conversions that
    /// pass a value or view through unchanged ([`Val`] to [`Val`], [`Ref`]
    /// to [`Ref`], and the two reborrowing conversions out of [`Mut`]), and
    /// [`cloned`] for the duplicating conversions into [`Val`].
    spec fn converts_to(from_value: Self, to_value: Self) -> bool;

    /// Convert from one calling convention to another.
    ///
    /// Because of the generic parameters on the trait, this often requires
    /// rather explicit type annotations.
    ///
    /// The contract relates the value readable through the result shape to
    /// the value readable through the source shape when the conversion ran.
    /// The per-shape conversions ([`reborrow`], [`narrow`],
    /// [`copy_via_mut`], [`clone_via_mut`]) state the sharper, prophetic
    /// facts about exclusive views that cannot be phrased over the opaque
    /// shape types here.
    fn convert(from: <Self as By<'a, From>>::Type) -> (r: <Self as By<'a, To>>::Type)
        ensures
            <Self as Convert<'a, From, To>>::converts_to(
                <Self as By<'a, From>>::value(from),
                <Self as By<'a, To>>::value(r),
            ),
    ;
}

impl<'a, T> Convert<'a, Val, Val> for T {
    open spec fn converts_to(from_value: T, to_value: T) -> bool {
        from_value == to_value
    }

    fn convert(from: T) -> (r: T) {
        from
    }
}

impl<'a, T: 'a + Clone> Convert<'a, Ref, Val> for T {
    open spec fn converts_to(from_value: T, to_value: T) -> bool {
        cloned(from_value, to_value)
    }

    fn convert(from: &'a T) -> (r: T) {
        from.clone()
    }
}

impl<'a, T: 'a + Clone> Convert<'a, Mut, Val> for T {
    open spec fn converts_to(from_value: T, to_value: T) -> bool {
        cloned(from_value, to_value)
    }

    fn convert(from: &'a mut T) -> (r: T) {
        clone_via_mut(from)
    }
}

impl<'a, T: 'a> Convert<'a, Ref, Ref> for T {
    open spec fn converts_to(from_value: T, to_value: T) -> bool {
        from_value == to_value
    }

    fn convert(from: &'a T) -> (r: &'a T) {
        from
    }
}

impl<'a, T: 'a> Convert<'a, Mut, Ref> for T {
    open spec fn converts_to(from_value: T, to_value: T) -> bool {
        from_value == to_value
    }

    fn convert(from: &'a mut T) -> (r: &'a T) {
        narrow(from)
    }
}

impl<'a, T: 'a> Convert<'a, Mut, Mut> for T {
    open spec fn converts_to(from_value: T, to_value: T) -> bool {
        from_value == to_value
    }

    fn convert(from: &'a mut T) -> (r: &'a mut T) {
        reborrow(from)
    }
}

/// The identity conversion out of an exclusive view: the same view is passed
/// through unchanged. Reading through the result sees the original referent,
/// and writes through the result land in the original storage.
pub fn reborrow<'a, T>(from: &'a mut T) -> (r: &'a mut T)
    ensures
        *r == *old(from),
        *final(from) == *final(r),
{
    from
}

/// Narrow an exclusive view to a read-only view of the same storage.
/// Reading through the result yields exactly what the exclusive view showed
/// when it was narrowed, and the storage cannot change for the rest of the
/// view's lifetime.
pub fn narrow<'a, T>(from: &'a mut T) -> (r: &'a T)
    ensures
        *r == *old(from),
        *final(from) == *old(from),
{
    &*from
}

/// A type that logically contains a `T` and can hand out a read-only view
/// of it, the specified counterpart of `AsRef`.
///
/// The implementor says, through [`Holds::held`], which `T` a value
/// contains; [`Holds::held_ref`] must hand out a view of exactly that `T`.
pub trait Holds<T>: Sized {
    /// The `T` that a value of this type contains.
    spec fn held(&self) -> T;

    /// Borrow a read-only view of the contained `T`.
    fn held_ref(&self) -> (r: &T)
        ensures
            *r == self.held(),
    ;
}

/// A type that can also hand out an exclusive view of the `T` it contains,
/// the specified counterpart of `AsMut`.
///
/// [`HoldsMut::with_held`] says how replacing the contained `T` changes the
/// whole value; writes through the view handed out by
/// [`HoldsMut::held_mut`] must land there and change nothing else.
pub trait HoldsMut<T>: Holds<T> {
    /// The whole value, with its contained `T` replaced by `t`.
    spec fn with_held(&self, t: T) -> Self;

    /// Borrow an exclusive view of the contained `T`.
    fn held_mut(&mut self) -> (r: &mut T)
        ensures
            *r == old(self).held(),
            *final(self) == old(self).with_held(*final(r)),
    ;
}

impl<T, U> Holds<T> for (T, U) {
    open spec fn held(&self) -> T {
        self.0
    }

    fn held_ref(&self) -> (r: &T) {
        &self.0
    }
}

impl<T, U> HoldsMut<T> for (T, U) {
    open spec fn with_held(&self, t: T) -> Self {
        (t, self.1)
    }

    fn held_mut(&mut self) -> (r: &mut T) {
        &mut self.0
    }
}

/// The generalization of [`From`], [`Holds`], and [`HoldsMut`]: in a
/// calling-convention polymorphic context, this trait invokes the
/// appropriate adaptation from a source type `Self` to a related target
/// type `T`, depending on the applicable calling convention.
///
/// Under [`Val`] the adaptation is the ownership-transferring conversion
/// `T::from`; under [`Ref`] it borrows a read-only view of the contained
/// `T`; under [`Mut`] it borrows an exclusive view of the contained `T`.
/// The two borrowing adaptations copy nothing: they hand out views into the
/// source's own storage.
pub trait As<'a, C: Convention, T: By<'a, C>>: By<'a, C> {
    /// How the result shape relates to the source shape: exactly the
    /// outcomes that the underlying adaptation admits.
    spec fn adapts_to(this: <Self as By<'a, C>>::Type, r: <T as By<'a, C>>::Type) -> bool;

    /// Adapt a shape of `Self` into the corresponding shape of `T`, using
    /// whichever adaptation the ambient convention `C` calls for.
    fn as_convention(this: <Self as By<'a, C>>::Type) -> (r: <T as By<'a, C>>::Type)
        ensures
            <Self as As<'a, C, T>>::adapts_to(this, r),
    ;
}

impl<'a, T: From<S>, S> As<'a, Val, T> for S {
    open spec fn adapts_to(this: S, r: T) -> bool {
        call_ensures(T::from, (this,), r)
    }

    fn as_convention(this: S) -> (r: T) {
        this.into()
    }
}

impl<'a, T: 'a, S: 'a + Holds<T>> As<'a, Ref, T> for S {
    open spec fn adapts_to(this: &'a S, r: &'a T) -> bool {
        *r == this.held()
    }

    fn as_convention(this: &'a S) -> (r: &'a T) {
        this.held_ref()
    }
}

impl<'a, T: 'a, S: 'a + HoldsMut<T>> As<'a, Mut, T> for S {
    open spec fn adapts_to(this: &'a mut S, r: &'a mut T) -> bool {
        *r == this.held()
    }

    fn as_convention(this: &'a mut S) -> (r: &'a mut T) {
        this.held_mut()
    }
}

/// The identity and narrowing conversions preserve the readable value
/// exactly: for the three conversions whose source and target shapes view or
/// own the same storage ([`Val`] to [`Val`], [`Ref`] to [`Ref`], [`Mut`] to
/// [`Mut`]) and for the narrowing conversion ([`Mut`] to [`Ref`]), the
/// conversion relation is precisely equality of the readable values.
pub proof fn lemma_pass_through_is_exact<T>(a: T, b: T)
    ensures
        <T as Convert<Val, Val>>::converts_to(a, b) <==> a == b,
        <T as Convert<Ref, Ref>>::converts_to(a, b) <==> a == b,
        <T as Convert<Mut, Mut>>::converts_to(a, b) <==> a == b,
        <T as Convert<Mut, Ref>>::converts_to(a, b) <==> a == b,
{
}

/// Under [`Val`], adaptation agrees with the owned conversion: whenever
/// `T::from` obeys its specification, the adapted value is exactly the value
/// that converting directly would have produced.
pub proof fn lemma_adapt_val_is_owned_conversion<S, T: From<S>>(s: S, t: T)
    requires
        <S as As<Val, T>>::adapts_to(s, t),
        <T as FromSpec<S>>::obeys_from_spec(),
    ensures
        t == <T as FromSpec<S>>::from_spec(s),
{
}

/// The two duplicating conversions into [`Val`] relate source and result by
/// [`cloned`]: the result is an independent owned value that `T`'s `clone`
/// could have produced from the source (or, where cloning is a copy, the
/// source itself).
pub proof fn lemma_duplication_is_clone<T: Clone>(a: T, b: T)
    ensures
        <T as Convert<Ref, Val>>::converts_to(a, b) <==> cloned(a, b),
        <T as Convert<Mut, Val>>::converts_to(a, b) <==> cloned(a, b),
{
}

} // verus!
