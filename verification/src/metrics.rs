use vstd::prelude::*;
use vstd::string::StringExecFns;

verus! {

/// Builds the full name of one dispatcher metric by putting the common
/// prefix and an underscore in front of the short name.
pub fn prefixed_metrics(name: &str) -> (r: String)
    ensures
        r@ == "cartesi_rollups_dispatcher"@ + "_"@ + name@,
{
    let mut full = String::from_str("cartesi_rollups_dispatcher");
    full.append("_");
    full.append(name);
    full
}

} // verus!
