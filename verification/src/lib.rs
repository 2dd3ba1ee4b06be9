//! A capability dispatch layer.
//!
//! One capability, [`Doubler`], is implemented by provider types that have
//! nothing else in common. A provider is reached in one of two ways:
//!
//! - through the static surface ([`static_dispatch`]), where the provider
//!   type is a type parameter and every call site is bound to one concrete
//!   type when the program is built;
//! - through the dynamic surface ([`dynamic_dispatch`]), where the call goes
//!   through a handle that hides the concrete type, and the implementation
//!   is found when the call is made.
//!
//! Every function of both surfaces promises the same thing: it returns the
//! value that the provider's own meaning of the capability,
//! [`Doubler::spec_double`], assigns to the input. Which surface a caller
//! picks decides when the implementation is chosen, never what comes back;
//! [`laws`] states this for the providers of this library.
//!
//! [`handoff`] is a small companion: a chain of calls that passes a borrowed
//! text down and an owned text back.

pub mod capability;
pub mod dynamic_dispatch;
pub mod handoff;
pub mod laws;
pub mod providers;
pub mod static_dispatch;

pub use capability::Doubler;
pub use dynamic_dispatch::{box_foo_dyn, foo_dyn, foo_dyn_arr};
pub use providers::{First, Second, Third};
pub use static_dispatch::{foo, foo_arr};
