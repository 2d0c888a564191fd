//! The fixed `geo` label that every exported metric carries.
use vstd::prelude::*;
use vstd::string::*;

verus! {

/// The region label: country code and region name joined by a dash (`US-CA`).
pub fn geo_label(country: &str, region: &str) -> (r: String)
    ensures
        r@ == country@ + "-"@ + region@,
{
    let mut s = String::from_str(country);
    s.append("-");
    s.append(region);
    s
}

} // verus!
