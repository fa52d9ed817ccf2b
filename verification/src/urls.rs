//! Links into the market site.

use vstd::prelude::*;

verus! {

/// The item page for a slug.
pub fn market_url(slug: &str) -> (r: String)
    ensures
        r@ == "https://warframe.market/items/"@ + slug@,
{
    let mut r = String::from_str("https://warframe.market/items/");
    r.append(slug);
    r
}

/// The profile page for a user name.
pub fn profile_url(username: &str) -> (r: String)
    ensures
        r@ == "https://warframe.market/profile/"@ + username@,
{
    let mut r = String::from_str("https://warframe.market/profile/");
    r.append(username);
    r
}

} // verus!
