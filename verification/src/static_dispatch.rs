//! The static surface: the provider type is a type parameter, so each call
//! site is bound to one concrete provider type when the program is built.
//!
//! A sequence handed to this surface holds provider values themselves, all
//! of one type and therefore of one size. Providers of different types do
//! not fit into one such sequence.

use crate::capability::Doubler;
use vstd::prelude::*;

verus! {

/// Transforms `input` with one provider, taken by reference.
///
/// ```
/// use dyn_trait::{foo, First, Second};
///
/// assert_eq!(foo(&First, 5), 10);
/// assert_eq!(foo(&Second::default(), 10), 20);
/// ```
///
/// A type that does not implement the capability is turned away when the
/// program is built:
///
/// ```compile_fail
/// use dyn_trait::{foo, Third};
///
/// foo(&Third, 5);
/// ```
pub fn foo<T: Doubler>(doubler: &T, input: u32) -> (out: u32)
    ensures
        out == doubler.spec_double(input),
{
    doubler.double(input)
}

/// Transforms `input` with the first provider of a sequence of providers of
/// one concrete type. The sequence holds at least one provider.
///
/// ```
/// use dyn_trait::{foo_arr, First};
///
/// assert_eq!(foo_arr(&[First, First], 5), 10);
/// ```
///
/// Providers of two types do not make one sequence. This is found when the
/// program is built, not when it runs:
///
/// ```compile_fail
/// use dyn_trait::{foo_arr, First, Second};
///
/// foo_arr(&[First, Second::default()], 5);
/// ```
pub fn foo_arr<T: Doubler>(doubler: &[T], input: u32) -> (out: u32)
    requires
        doubler@.len() > 0,
    ensures
        out == doubler@[0].spec_double(input),
{
    doubler[0].double(input)
}

} // verus!
