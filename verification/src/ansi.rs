//! ANSI colourisation as an explicit, verified operation: a colour prefix,
//! the text, then the reset sequence — or the text untouched when colour
//! output is off. Colour enablement is always an explicit argument, never
//! process-wide state.

use vstd::prelude::*;
use vstd::string::*;

verus! {

/// The reset sequence that ends every coloured span.
pub open spec fn spec_reset() -> Seq<char> {
    "\u{1b}[0m"@
}

/// `prefix`, then the text, then the reset sequence — or the text alone
/// when colour output is off.
pub open spec fn spec_paint(prefix: Seq<char>, s: Seq<char>, colored: bool) -> Seq<char> {
    if colored {
        prefix + s + spec_reset()
    } else {
        s
    }
}

pub fn paint(prefix: &str, s: &str, colored: bool) -> (r: String)
    ensures
        r@ == spec_paint(prefix@, s@, colored),
{
    if colored {
        String::from_str(prefix).concat(s).concat("\u{1b}[0m")
    } else {
        String::from_str(s)
    }
}

} // verus!
