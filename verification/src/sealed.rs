//! Seals the set of calling conventions: only the three convention tags
//! defined in this crate may implement the public `Convention` trait.

use vstd::prelude::*;

verus! {

pub trait Convention {
}

impl Convention for crate::Val {
}

impl Convention for crate::Ref {
}

impl Convention for crate::Mut {
}

} // verus!
