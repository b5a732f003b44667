//! The languages the interface can be shown in.

use vstd::prelude::*;

verus! {

/// Interface language.
#[derive(Clone, Copy, Debug, PartialEq, Eq, Structural)]
pub enum Language {
    /// Vietnamese.
    VI,
    /// English.
    EN,
}

} // verus!
