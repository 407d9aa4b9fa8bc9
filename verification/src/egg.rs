//! The display-flavor suffix: once in a while, when the configuration
//! allows it, a view title gets a playful tail.

use vstd::prelude::*;
use vstd::string::StringExecFns;
use crate::client::random_below;

verus! {

/// How many flavor phrases there are.
pub open spec fn egg_count() -> nat {
    6
}

/// The flavor phrase with the given number.
pub open spec fn spec_egg(i: int) -> Seq<char> {
    if i == 0 {
        " - made with coffee"@
    } else if i == 1 {
        " - made with tea"@
    } else if i == 2 {
        " - made with something"@
    } else if i == 3 {
        " - made with cars"@
    } else if i == 4 {
        " - made with dry wall"@
    } else {
        " - made with chocolate milk"@
    }
}

/// The flavor phrase with the given number.
fn egg_phrase(i: u64) -> (r: &'static str)
    requires
        i < egg_count(),
    ensures
        r@ == spec_egg(i as int),
{
    if i == 0 {
        " - made with coffee"
    } else if i == 1 {
        " - made with tea"
    } else if i == 2 {
        " - made with something"
    } else if i == 3 {
        " - made with cars"
    } else if i == 4 {
        " - made with dry wall"
    } else {
        " - made with chocolate milk"
    }
}

/// Draws the title suffix: empty when flavor is off, and nineteen times out
/// of twenty also when it is on; otherwise one of the fixed phrases.
pub fn get_random_easter_egg(show_easter_eggs: bool) -> (r: String)
    ensures
        !show_easter_eggs ==> r@ == Seq::<char>::empty(),
        r@ == Seq::<char>::empty() || exists|i: int|
            0 <= i < egg_count() && r@ == #[trigger] spec_egg(i),
{
    if !show_easter_eggs {
        return String::new();
    }
    let roll = random_below(100);
    if roll >= 5 {
        return String::new();
    }
    let idx = random_below(6);
    let phrase = egg_phrase(idx);
    let r = phrase.to_owned();
    proof {
        assert(r@ == spec_egg(idx as int));
    }
    r
}

} // verus!
