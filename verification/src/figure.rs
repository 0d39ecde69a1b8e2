//! Readings as the display shows them.

use vstd::prelude::*;

verus! {

/// A reading rendered as decimal text at the two precisions the display
/// uses: rounded to a whole number for the menu bar title, and to one
/// decimal place for the dropdown menu.
pub struct Figure {
    pub rounded: String,
    pub one_decimal: String,
}

/// `prefix`, then `value`, then `suffix`.
pub fn labelled(prefix: &str, value: &str, suffix: &str) -> (r: String)
    ensures
        r@ == prefix@ + value@ + suffix@,
{
    let mut r = prefix.to_owned();
    r.append(value);
    r.append(suffix);
    r
}

} // verus!
