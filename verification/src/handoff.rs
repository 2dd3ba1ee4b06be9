//! Handing a borrowed text down a chain of calls.
//!
//! [`a`] passes its argument on to [`b`], and [`b`] to [`c`]. Only [`c`]
//! answers: it builds an owned string, which travels back up the chain by
//! value, so that no reference to a local leaves the function that made it.

use vstd::prelude::*;

verus! {

/// Hands `data` to [`b`] and returns its reply.
pub fn a(data: &str) -> (reply: String)
    ensures
        reply@ == "whatever"@,
{
    b(data)
}

/// Hands `data` to [`c`] and returns its reply.
pub fn b(data: &str) -> (reply: String)
    ensures
        reply@ == "whatever"@,
{
    c(data)
}

/// The end of the chain. The reply is the text `whatever`, owned by the
/// caller, for every `data`.
pub fn c(data: &str) -> (reply: String)
    ensures
        reply@ == "whatever"@,
{
    "whatever".to_owned()
}

} // verus!
