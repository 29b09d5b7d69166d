use vstd::prelude::*;

pub mod error;
mod private;

verus! {

/// The greeting for `name`, or for the world when no name is given.
pub open spec fn greeting(name: Option<Seq<char>>) -> Seq<char> {
    let who = match name {
        Some(n) => n,
        None => "world"@,
    };
    "Hello, "@ + who + "!"@
}

/// Greets `name`, or the world when no name is given.
pub fn say_hello(name: Option<&str>) -> (r: String)
    ensures
        r@ == greeting(
            match name {
                Some(n) => Some(n@),
                None => None,
            },
        ),
{
    let who = match name {
        Some(n) => n,
        None => "world",
    };
    let mut r = "Hello, ".to_owned();
    r.append(who);
    r.append("!");
    r
}

} // verus!
