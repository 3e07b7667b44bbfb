//! The register names an instruction can address.

use vstd::prelude::*;

pub use crate::flags::Flags;

verus! {

/// The three general-purpose registers.
#[derive(Clone, Copy, Debug, PartialEq, Eq, Structural)]
pub enum Registers {
    A,
    X,
    Y,
}

} // verus!
