use vstd::prelude::*;
use vstd::string::StringExecFns;

verus! {

/// The remote-addressable path of one object: its kind's namespaced
/// collection path, a slash, then its name.
pub open spec fn self_url_spec(collection: Seq<char>, name: Seq<char>) -> Seq<char> {
    collection + seq!['/'] + name
}

/// Builds the canonical path of an object from the path of its kind's
/// collection in its namespace and its name.
pub fn self_url(collection: &str, name: &str) -> (r: String)
    ensures
        r@ == self_url_spec(collection@, name@),
{
    let mut url = String::from_str(collection);
    proof {
        reveal_strlit("/");
    }
    url.append("/");
    url.append(name);
    url
}

} // verus!
