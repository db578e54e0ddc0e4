//! Provider of [`One`].

use vstd::prelude::*;

verus! {

use vstd::std_specs::cmp::PartialEqSpec;
use vstd::std_specs::convert::FromSpec;

/// The failure raised when a slot's value is read, written or taken while the
/// slot is empty, that is, after the value has already been taken out (or when
/// none was ever placed in it).
#[derive(Clone, Copy, Debug, PartialEq, Eq, Structural)]
pub struct EmptyAccess;

impl EmptyAccess {
    /// A diagnostic text naming the cause of the failure, so that a misuse is
    /// distinguishable from an ordinary missing value.
    pub fn message(&self) -> (text: String)
        ensures
            text@ == "Value taken already."@,
    {
        "Value taken already.".to_string()
    }
}

/// Wrapper to handle value consumption.
///
/// This type acts as a slot for a saved value: the value can be read and
/// overwritten freely while it is present, and can be consumed only once via
/// [`take`](Self::take). After `take`, every access fails.
///
/// Internally, this type is a simple newtype of [`Option`], but it centralizes
/// the "has this already been taken?" contract in one place instead of leaving
/// it to every access site.
#[derive(Clone, Copy, Debug, Eq, Hash, Ord, PartialOrd)]
pub struct One<T>(Option<T>);

impl<T> One<T> {
    /// The optional holder behind the wrapper: `Some` while a value is present.
    pub closed spec fn optional(self) -> Option<T> {
        self.0
    }

    /// True while the slot still holds a value.
    pub open spec fn is_present(self) -> bool {
        self.optional() is Some
    }

    /// The value the slot holds, meaningful only while one is present.
    pub open spec fn contents(self) -> T
        recommends
            self.is_present(),
    {
        self.optional()->Some_0
    }

    /// The slot that holds `value`: the one that `new` and `from` build.
    pub closed spec fn slot_with(value: T) -> One<T> {
        One(Some(value))
    }

    /// Creates an instance holding `value`.
    pub fn new(value: T) -> (slot: Self)
        ensures
            slot.is_present(),
            slot.contents() == value,
            slot == Self::slot_with(value),
    {
        Self(Some(value))
    }

    /// Creates an empty instance.
    pub fn none() -> (slot: Self)
        ensures
            !slot.is_present(),
    {
        Self(None)
    }

    /// Returns `true` if a value is still present.
    pub fn present(this: &Self) -> (r: bool)
        ensures
            r == this.is_present(),
    {
        this.0.is_some()
    }

    /// Dereferences the saved value for reading.
    pub fn read(this: &Self) -> (value: &T)
        requires
            this.is_present(),
        ensures
            *value == this.contents(),
    {
        Self::expect(this.0.as_ref())
    }

    /// Dereferences the saved value for writing: the slot stays present and
    /// afterwards holds whatever the caller leaves behind the reference.
    pub fn write(this: &mut Self) -> (value: &mut T)
        requires
            old(this).is_present(),
        ensures
            *value == old(this).contents(),
            final(this).is_present(),
            final(this).contents() == *final(value),
    {
        Self::expect(this.0.as_mut())
    }

    /// Takes the value out of this wrapper, leaving it permanently empty.
    pub fn take(this: &mut Self) -> (value: T)
        requires
            old(this).is_present(),
        ensures
            value == old(this).contents(),
            !final(this).is_present(),
    {
        Self::expect(this.0.take())
    }

    /// Reads the saved value without panicking, reporting [`EmptyAccess`]
    /// when the slot is empty.
    pub fn try_read(this: &Self) -> (r: Result<&T, EmptyAccess>)
        ensures
            this.is_present() <==> r is Ok,
            r is Ok ==> *r->Ok_0 == this.contents(),
            r is Err ==> r->Err_0 == EmptyAccess,
    {
        match this.0.as_ref() {
            Some(value) => Ok(value),
            None => Err(EmptyAccess),
        }
    }

    /// Dereferences the saved value for writing without panicking, reporting
    /// [`EmptyAccess`] and leaving the slot untouched when it is empty.
    pub fn try_write(this: &mut Self) -> (r: Result<&mut T, EmptyAccess>)
        ensures
            old(this).is_present() <==> r is Ok,
            r is Ok ==> *r->Ok_0 == old(this).contents(),
            r is Ok ==> final(this).is_present() && final(this).contents() == *final(r->Ok_0),
            r is Err ==> r->Err_0 == EmptyAccess && *final(this) == *old(this),
    {
        match this.0.as_mut() {
            Some(value) => Ok(value),
            None => Err(EmptyAccess),
        }
    }

    /// Takes the value out of this wrapper without panicking, reporting
    /// [`EmptyAccess`] when it was already taken; the slot is empty afterwards
    /// either way.
    pub fn try_take(this: &mut Self) -> (r: Result<T, EmptyAccess>)
        ensures
            old(this).is_present() <==> r is Ok,
            r is Ok ==> r->Ok_0 == old(this).contents(),
            r is Err ==> r->Err_0 == EmptyAccess && *final(this) == *old(this),
            !final(this).is_present(),
    {
        match this.0.take() {
            Some(value) => Ok(value),
            None => Err(EmptyAccess),
        }
    }

    /// Returns some value of argument.
    fn expect<V>(x: Option<V>) -> (value: V)
        requires
            x is Some,
        ensures
            value == x->Some_0,
    {
        x.expect("Value taken already.")
    }
}

impl<T> Default for One<T> {
    /// Defaults to an empty instance, as the underlying optional holder does.
    fn default() -> (slot: Self)
        ensures
            !slot.is_present(),
    {
        Self::none()
    }
}

impl<T> From<T> for One<T> {
    /// Converts a bare value into the slot holding it, exactly as `new` does.
    fn from(value: T) -> (slot: Self)
        ensures
            slot.is_present(),
            slot.contents() == value,
            slot == One::slot_with(value),
    {
        Self::new(value)
    }
}

impl<T> vstd::std_specs::convert::FromSpecImpl<T> for One<T> {
    open spec fn obeys_from_spec() -> bool {
        true
    }

    open spec fn from_spec(value: T) -> Self {
        One::slot_with(value)
    }
}

impl<T: PartialEq> PartialEq for One<T> {
    /// Two slots are equal when both are empty, or both hold equal values.
    fn eq(&self, other: &Self) -> (r: bool) {
        self.0 == other.0
    }
}

impl<T: PartialEq> vstd::std_specs::cmp::PartialEqSpecImpl for One<T> {
    open spec fn obeys_eq_spec() -> bool {
        T::obeys_eq_spec()
    }

    open spec fn eq_spec(&self, other: &One<T>) -> bool {
        match (self.optional(), other.optional()) {
            (Option::None, Option::None) => true,
            (Option::Some(x), Option::Some(y)) => x.eq_spec(&y),
            _ => false,
        }
    }
}

/// A slot is determined by what can be observed of it: two slots with the same
/// presence and, when present, the same contents are the very same slot.
pub proof fn lemma_observational_identity<T>(s1: One<T>, s2: One<T>)
    requires
        s1.is_present() == s2.is_present(),
        s1.is_present() ==> s1.contents() == s2.contents(),
    ensures
        s1 == s2,
{
    assert(s1.optional() == s2.optional());
}

/// Equality law: two slots holding values compare as their values do, a slot
/// holding a value never compares equal to an empty slot, and two empty slots
/// compare equal.
pub proof fn lemma_slot_equality<T: PartialEq>(s1: One<T>, s2: One<T>)
    ensures
        s1.is_present() && s2.is_present() ==> (s1.eq_spec(&s2) <==> s1.contents().eq_spec(
            &s2.contents(),
        )),
        s1.is_present() != s2.is_present() ==> !s1.eq_spec(&s2),
        !s1.is_present() && !s2.is_present() ==> s1.eq_spec(&s2),
{
}

/// Conversion law: conversion from a bare value builds exactly the slot that
/// explicit construction with that value builds: present, and holding that
/// value.
pub proof fn lemma_convert_matches_construct<T>(value: T)
    ensures
        One::<T>::from_spec(value) == One::<T>::slot_with(value),
        One::<T>::slot_with(value).is_present(),
        One::<T>::slot_with(value).contents() == value,
{
}

} // verus!
