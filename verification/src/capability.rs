//! The capability that providers implement.

use vstd::prelude::*;

verus! {

/// The transform capability: from a 32-bit input to a 32-bit output.
///
/// Implementing this trait is all that a type needs in order to take part
/// in dispatch. The capability asks nothing of the provider's layout and
/// fixes no particular output: each provider says what its transform means
/// by defining [`Doubler::spec_double`], and its executable
/// [`Doubler::double`] must return exactly that value, for every input.
///
/// So the output is a function of the provider and the input alone. A call
/// cannot fail, and two calls on the same provider with the same input
/// return the same value.
///
/// A provider that doubles has to say what it returns where twice the input
/// does not fit in 32 bits. The providers of this library saturate; see
/// [`saturating_double`].
///
/// What the dispatch surfaces promise of a provider rests on its `double`
/// having been verified against its `spec_double`. A provider written
/// outside verified code supplies `spec_double` as an ordinary method, which
/// is never run, and nothing has then compared the two.
pub trait Doubler {
    /// The output that this provider assigns to `data`.
    spec fn spec_double(&self, data: u32) -> u32;

    /// Transforms `data`.
    fn double(&self, data: u32) -> (out: u32)
        ensures
            out == self.spec_double(data),
    ;
}

/// Twice `data`, held at `u32::MAX` where twice `data` does not fit in 32
/// bits.
///
/// This is the overflow policy of the providers of this library: the output
/// saturates and never wraps around. It is exact for every input up to
/// `u32::MAX / 2`, and `u32::MAX` for every larger one.
pub open spec fn saturating_double(data: u32) -> u32 {
    if 2 * data <= u32::MAX {
        (2 * data) as u32
    } else {
        u32::MAX
    }
}

} // verus!
