//! The address from which templates for a set of technologies are fetched.
use vstd::prelude::*;
use crate::rules::texts;

verus! {

/// Names joined with `,`.
pub open spec fn comma_joined(v: Seq<Seq<char>>) -> Seq<char>
    decreases v.len(),
{
    if v.len() == 0 {
        Seq::empty()
    } else if v.len() == 1 {
        v[0]
    } else {
        comma_joined(v.drop_last()) + ","@ + v.last()
    }
}

/// The template service's address for a list of technology names.
pub fn template_url(technologies: &Vec<String>) -> (r: String)
    ensures
        r@ == "https://www.toptal.com/developers/gitignore/api/"@ + comma_joined(texts(technologies@)),
{
    let mut list = String::new();
    let mut k: usize = 0;
    while k < technologies.len()
        invariant
            k <= technologies@.len(),
            list@ == comma_joined(texts(technologies@.subrange(0, k as int))),
        decreases technologies@.len() - k,
    {
        assert(texts(technologies@.subrange(0, k + 1)).drop_last() =~= texts(technologies@.subrange(0, k as int)));
        if k > 0 {
            list.append(",");
        }
        list.append(technologies[k].as_str());
        k = k + 1;
    }
    assert(technologies@.subrange(0, k as int) =~= technologies@);
    let mut url = String::from_str("https://www.toptal.com/developers/gitignore/api/");
    url.append(list.as_str());
    url
}

} // verus!
