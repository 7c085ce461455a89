//! The names of the snap fractions.
use vstd::prelude::*;

verus! {

/// The name of a snap fraction written in decimal: a half, a third, a
/// quarter, a fifth and a sixth have their names as fractions, in the
/// digits in which single precision prints them; any other text is its own
/// name.
pub open spec fn frac_name(decimal: Seq<char>) -> Seq<char> {
    if decimal == "0.5"@ {
        "1/2"@
    } else if decimal == "0.33333334"@ {
        "1/3"@
    } else if decimal == "0.25"@ {
        "1/4"@
    } else if decimal == "0.2"@ {
        "1/5"@
    } else if decimal == "0.16666667"@ {
        "1/6"@
    } else {
        decimal
    }
}

/// The name of the snap fraction that `decimal` writes.
pub fn to_frac_string(decimal: &String) -> (r: String)
    ensures
        r@ == frac_name(decimal@),
{
    if *decimal == "0.5".to_owned() {
        "1/2".to_owned()
    } else if *decimal == "0.33333334".to_owned() {
        "1/3".to_owned()
    } else if *decimal == "0.25".to_owned() {
        "1/4".to_owned()
    } else if *decimal == "0.2".to_owned() {
        "1/5".to_owned()
    } else if *decimal == "0.16666667".to_owned() {
        "1/6".to_owned()
    } else {
        decimal.clone()
    }
}

} // verus!
