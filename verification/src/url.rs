//! The two request URLs of the trivia service, built exactly as the
//! program always issued them.

use vstd::prelude::*;
use vstd::string::*;

verus! {

/// The fixed endpoint that lists the categories.
pub fn categories_url() -> (r: &'static str)
    ensures
        r@ == "https://opentdb.com/api_category.php"@,
{
    "https://opentdb.com/api_category.php"
}

/// The question endpoint for a given amount and category, with the amount
/// and category passed on verbatim as query parameters.
pub fn questions_url(amount: &str, category: &str) -> (r: String)
    ensures
        r@ == "https://opentdb.com/api.php?amount="@ + amount@ + "&category="@ + category@
            + "&type=multiple"@,
{
    let mut url = String::from_str("https://opentdb.com/api.php?amount=");
    url.append(amount);
    url.append("&category=");
    url.append(category);
    url.append("&type=multiple");
    url
}

} // verus!
