use vstd::prelude::*;

verus! {

/// The DEX accounts trusted to receive deposited funds.
pub open spec fn is_whitelisted(dex: Seq<char>) -> bool {
    dex == "ref"@ || dex == "jumbo"@
}

/// Membership test of the whitelist.
pub fn is_whitelisted_dex(dex: &String) -> (r: bool)
    ensures
        r == is_whitelisted(dex@),
{
    let ref_dex = "ref".to_owned();
    let jumbo_dex = "jumbo".to_owned();
    *dex == ref_dex || *dex == jumbo_dex
}

} // verus!
