//! A small-internet fetch library: it resolves a text URL to one of the
//! Gemini, Gopher or Finger protocols, normalizes the request that goes on
//! the wire, and interprets what the server sends back.

pub mod gemini;
pub mod resolver;
pub mod text;

use vstd::prelude::*;
use vstd::string::StringExecFns;

verus! {

/// The fixed page a fresh session starts on.
pub fn get_start_page() -> (r: String)
    ensures
        r@ == "gemini://gemini.circumlunar.space/"@,
{
    let s: String = "gemini://gemini.circumlunar.space/".to_owned();
    s
}

/// The demo greeting: a fixed salutation around the caller's name.
pub fn greet(name: String) -> (r: String)
    ensures
        r@ == "Hello, "@ + name@ + "!"@,
{
    let mut s: String = "Hello, ".to_owned();
    s.append(name.as_str());
    s.append("!");
    s
}

} // verus!
