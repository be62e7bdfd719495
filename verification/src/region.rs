//! Region information from the client, and the one remap the multi-search
//! provider needs: the client's `SG2` code is `SG` on the provider's side;
//! every other code passes through unchanged.

use vstd::prelude::*;
use vstd::string::{StrSliceExecFns, StringExecFns};
use crate::strutil::str_eq;

verus! {

/// The client's locale report. Only the web region drives behaviour; the
/// other fields are absent under some client versions.
pub struct RegionInfo {
    pub locale: Option<String>,
    pub region: Option<String>,
    pub web_language: Option<String>,
    pub web_region: String,
}

/// The provider-side spelling of a region code.
pub open spec fn remapped_region(r: Seq<char>) -> Seq<char> {
    if r == "SG2"@ {
        "SG"@
    } else {
        r
    }
}

/// Remaps a region code for the provider.
pub fn remap_region(r: &str) -> (out: String)
    ensures
        out@ == remapped_region(r@),
{
    if str_eq(r, "SG2") {
        String::from_str("SG")
    } else {
        r.to_owned()
    }
}

} // verus!
