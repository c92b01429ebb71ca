use vstd::prelude::*;
use vstd::string::*;

verus! {

/// The sibling file a state is written to before it replaces `path`.
pub fn temp_path(path: &str) -> (r: String)
    ensures
        r@ == path@ + ".tmp"@,
{
    let mut r = String::from_str(path);
    r.append(".tmp");
    r
}

} // verus!
