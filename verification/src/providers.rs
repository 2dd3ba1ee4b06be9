//! The provider types: two that implement the capability with different
//! storage footprints, and one that does not implement it.

use crate::capability::Doubler;
use vstd::prelude::*;

verus! {

/// A provider without any stored data.
pub struct First;

/// A provider that carries an inline buffer of thirty bytes.
///
/// The buffer shows that the size of a provider has nothing to do with
/// whether it implements the capability: the transform never reads it.
pub struct Second {
    data: [u8; 30],
}

/// A type that does not implement the capability. Neither surface accepts
/// it, and no handle can be formed from it: a program that tries does not
/// build.
pub struct Third;

impl View for Second {
    type V = Seq<u8>;

    /// The thirty bytes of the buffer.
    closed spec fn view(&self) -> Seq<u8> {
        self.data@
    }
}

impl Default for Second {
    /// A provider whose buffer holds thirty zero bytes.
    fn default() -> (provider: Second)
        ensures
            provider@ == Seq::new(30, |i: int| 0u8),
    {
        let provider = Second { data: [0u8; 30] };
        assert(provider@ =~= Seq::new(30, |i: int| 0u8));
        provider
    }
}

impl Doubler for First {
    /// `First` doubles, and saturates at `u32::MAX`.
    open spec fn spec_double(&self, data: u32) -> u32 {
        crate::capability::saturating_double(data)
    }

    fn double(&self, data: u32) -> (out: u32) {
        match data.checked_mul(2) {
            Some(twice) => twice,
            None => u32::MAX,
        }
    }
}

impl Doubler for Second {
    /// `Second` doubles, and saturates at `u32::MAX`, whatever its buffer
    /// holds.
    open spec fn spec_double(&self, data: u32) -> u32 {
        crate::capability::saturating_double(data)
    }

    fn double(&self, data: u32) -> (out: u32) {
        match data.checked_mul(2) {
            Some(twice) => twice,
            None => u32::MAX,
        }
    }
}

} // verus!
