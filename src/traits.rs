//! Traits that a user's types implement to describe what a pipeline is fed.
use vstd::prelude::*;

verus! {

/// A value that a dispatch hands over as push constants: the byte offset
/// it goes to, and its bytes.
pub trait PushConstant {
    fn range<'a>(&'a self) -> (usize, &'a [u8]);
}

impl PushConstant for () {
    fn range<'a>(&'a self) -> (usize, &'a [u8]) {
        (0, &[])
    }
}

/// A type that describes the resources a pipeline binds.
pub trait BindingSignature {}

} // verus!
