//! What holds of the two surfaces taken together.
//!
//! The static surface returns `provider.spec_double(input)` for the provider
//! it is given, and the dynamic surface returns `handle.spec_double(input)`
//! for the handle it is given. The laws below say that the two are the same
//! value where the handle was formed from that provider: hiding the concrete
//! type changes when the implementation is chosen and nothing else.
//!
//! Each law is stated for the provider types of this library, because a
//! handle is formed from a value of a concrete type; every provider value of
//! that type and every input is covered.

use crate::capability::Doubler;
use crate::providers::{First, Second};
use vstd::prelude::*;

verus! {

/// A borrowed handle to a `First` assigns to every input what the `First`
/// itself assigns to it.
pub proof fn lemma_first_borrowed_handle_agrees(provider: First, input: u32)
    ensures
        ({
            let handle: &dyn Doubler = &provider;
            handle.spec_double(input) == provider.spec_double(input)
        }),
{
}

/// A borrowed handle to a `Second` assigns to every input what the `Second`
/// itself assigns to it, whatever its buffer holds.
pub proof fn lemma_second_borrowed_handle_agrees(provider: Second, input: u32)
    ensures
        ({
            let handle: &dyn Doubler = &provider;
            handle.spec_double(input) == provider.spec_double(input)
        }),
{
}

/// An owned handle into which a `First` was moved assigns to every input
/// what the `First` assigned to it before the move.
pub proof fn lemma_first_owned_handle_agrees(provider: First, input: u32)
    ensures
        ({
            let handle: Box<dyn Doubler> = Box::new(provider);
            handle.spec_double(input) == provider.spec_double(input)
        }),
{
}

/// An owned handle into which a `Second` was moved assigns to every input
/// what the `Second` assigned to it before the move.
pub proof fn lemma_second_owned_handle_agrees(provider: Second, input: u32)
    ensures
        ({
            let handle: Box<dyn Doubler> = Box::new(provider);
            handle.spec_double(input) == provider.spec_double(input)
        }),
{
}

/// A sequence made of a borrowed handle to a `First` followed by a borrowed
/// handle to a `Second` keeps each handle at its place: the handle at a place
/// assigns to every input what the provider it was formed from assigns to it.
pub proof fn lemma_mixed_handles_keep_their_places(first: First, second: Second, input: u32)
    ensures
        ({
            let handles = Seq::<&dyn Doubler>::empty().push(&first).push(&second);
            &&& handles.len() == 2
            &&& handles[0].spec_double(input) == first.spec_double(input)
            &&& handles[1].spec_double(input) == second.spec_double(input)
        }),
{
    // What `push` does to length and places, said of these two handles.
    let none = Seq::<&dyn Doubler>::empty();
    let one = none.push(&first);
    vstd::seq::axiom_seq_push_len::<&dyn Doubler>(none, &first);
    vstd::seq::axiom_seq_push_index_same::<&dyn Doubler>(none, &first, 0);
    vstd::seq::axiom_seq_push_len::<&dyn Doubler>(one, &second);
    vstd::seq::axiom_seq_push_index_different::<&dyn Doubler>(one, &second, 0);
    vstd::seq::axiom_seq_push_index_same::<&dyn Doubler>(one, &second, 1);
}

} // verus!
