//! The dynamic surface: the provider is reached through a handle that hides
//! its concrete type, and the implementation is found when the call is made.
//!
//! A borrowed handle is `&dyn Doubler`: it leads to a provider that someone
//! else owns. An owned handle is `Box<dyn Doubler>`: the provider was moved
//! into it and lives as long as the handle does. Handles all have one size,
//! so a sequence of handles may lead to providers of different types.

use crate::capability::Doubler;
use vstd::prelude::*;

verus! {

/// Transforms `input` with the provider behind a borrowed handle.
///
/// ```
/// use dyn_trait::{foo_dyn, First, Second};
///
/// assert_eq!(foo_dyn(&First, 5), 10);
/// assert_eq!(foo_dyn(&Second::default(), 10), 20);
/// ```
///
/// A handle can only be formed from a type that implements the capability:
///
/// ```compile_fail
/// use dyn_trait::{foo_dyn, Third};
///
/// foo_dyn(&Third, 5);
/// ```
pub fn foo_dyn(doubler: &dyn Doubler, input: u32) -> (out: u32)
    ensures
        out == doubler.spec_double(input),
{
    doubler.double(input)
}

/// Transforms `input` with the provider behind an owned handle. The handle,
/// and the provider with it, is dropped when the call returns.
///
/// ```
/// use dyn_trait::{box_foo_dyn, First};
///
/// assert_eq!(box_foo_dyn(Box::new(First), 5), 10);
/// ```
///
/// The provider moves into the handle, so the binding it came from cannot
/// be used afterwards:
///
/// ```compile_fail
/// use dyn_trait::{box_foo_dyn, foo, First};
///
/// let provider = First;
/// box_foo_dyn(Box::new(provider), 5);
/// foo(&provider, 5);
/// ```
pub fn box_foo_dyn(doubler: Box<dyn Doubler>, input: u32) -> (out: u32)
    ensures
        out == doubler.spec_double(input),
{
    doubler.double(input)
}

/// Transforms `input` with the provider behind the first handle of a
/// sequence of borrowed handles. The sequence holds at least one handle.
///
/// ```
/// use dyn_trait::{foo_dyn_arr, Doubler, First, Second};
///
/// let first = First;
/// let second = Second::default();
/// let handles: [&dyn Doubler; 2] = [&first, &second];
/// assert_eq!(foo_dyn_arr(&handles, 5), 10);
/// ```
pub fn foo_dyn_arr(doubler: &[&dyn Doubler], input: u32) -> (out: u32)
    requires
        doubler@.len() > 0,
    ensures
        out == doubler@[0].spec_double(input),
{
    doubler[0].double(input)
}

} // verus!
