//! A tiny color-classification library: an RGB triple (or a six-digit hex
//! color string) is judged "orange" by a fixed threshold rule, and a small
//! authentication demo gates one route behind a password cookie and an API
//! key header. All decision logic lives here, verified; the HTTP front end
//! around it only moves bytes.

pub mod auth;
pub mod hex;
pub mod orange;

use vstd::prelude::*;

verus! {

/// The greeting served at the service root.
pub fn index() -> (r: &'static str)
    ensures
        r@ == "is it orange?"@,
{
    "is it orange?"
}

} // verus!
