//! The one read of the Jikan API: the full-detail URL for one catalog
//! entry. The caller sends the request and keeps the response as raw JSON.

use vstd::prelude::*;
use vstd::string::StringExecFns;
use crate::text::{dec_of, u32_to_string};

verus! {

/// The Jikan full-detail URL for one entry.
pub fn get_anime_url(id: u32) -> (r: String)
    ensures
        r@ == "https://api.jikan.moe/v4/anime/"@ + dec_of(id as nat) + "/full"@,
{
    let mut url = String::from_str("https://api.jikan.moe/v4/anime/");
    let ds = u32_to_string(id);
    url.append(ds.as_str());
    url.append("/full");
    url
}

} // verus!
