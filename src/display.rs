use vstd::prelude::*;

use crate::binary64::{is_zero, zero_bits};

verus! {

/// The text shown for `value`, given its shortest round-trip decimal text
/// `shortest` and its text rounded to three decimals `rounded`: both zeros
/// show as `0`; otherwise the rounded text is shown only where it is strictly
/// shorter.
pub open spec fn shown_text(value: u64, shortest: &str, rounded: &str) -> Seq<char> {
    if zero_bits(value) {
        "0"@
    } else if shortest.len() <= rounded.len() {
        shortest@
    } else {
        rounded@
    }
}

/// The text to display for `value`, chosen between its two renderings as
/// `shown_text` says.
pub fn format_value(value: u64, shortest: &str, rounded: &str) -> (r: String)
    ensures
        r@ == shown_text(value, shortest, rounded),
{
    if is_zero(value) {
        "0".to_owned()
    } else if shortest.len() <= rounded.len() {
        shortest.to_owned()
    } else {
        rounded.to_owned()
    }
}

} // verus!
