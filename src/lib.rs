//! Import pipeline for raw camera images: filtered discovery, a content-addressed
//! thumbnail cache and a date-bucketed organizer, with the I/O left to the caller.
use vstd::prelude::*;
use vstd::string::*;

pub mod text;
pub mod fingerprint;
pub mod error;
pub mod extension;
pub mod discover;
pub mod capture_date;
pub mod thumbnail;
pub mod organizer;

verus! {

/// The greeting shown by the application's front end.
pub fn greet(name: &str) -> (r: String)
    ensures
        r@ == "Hello, "@ + name@ + "! You've been greeted from Rust!"@,
{
    let mut out = String::from_str("Hello, ");
    out.append(name);
    out.append("! You've been greeted from Rust!");
    out
}

} // verus!
