//! A greeting.

use vstd::prelude::*;

verus! {

pub const HELLO: &'static str = "Hello ";

pub const WORLD: &'static str = "World";

pub const BANG: &'static str = "!";

/// Greets by name, and the world where no name is given.
pub fn greet(name: Option<&str>) -> (greeting: String)
    ensures
        greeting@ == HELLO@ + match name {
            Some(given) => given@,
            None => WORLD@,
        } + BANG@,
{
    let name = match name {
        Some(given) => given,
        None => WORLD,
    };
    String::from_str(HELLO).concat(name).concat(BANG)
}

} // verus!
