//! Generation of XACML access-control requests from application labels:
//! one request document for each API label of an application, optionally
//! paired with the numbered file it is saved under.

use vstd::prelude::*;

pub mod kebab;
pub mod label;
pub mod request;
pub mod save;

verus! {

/// Relies on `String::push`: the character is appended at the end.
pub assume_specification[ String::push ](s: &mut String, ch: char)
    ensures
        final(s)@ == old(s)@.push(ch),
;

} // verus!
