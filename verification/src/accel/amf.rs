use vstd::prelude::*;

verus! {

/// AMD acceleration (AMF encoders).
#[derive(Debug, Clone, Copy, PartialEq, Eq, Structural)]
pub struct Amf;

} // verus!
