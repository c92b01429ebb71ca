use vstd::prelude::*;
use vstd::string::*;

verus! {

pub open spec fn sep_at(s: Seq<char>, i: int) -> bool {
    0 <= i && i + 3 <= s.len() && s[i] == ':' && s[i + 1] == '/' && s[i + 2] == '/'
}

/// The index of the first `"://"` in `s`, if any.
pub open spec fn first_sep(s: Seq<char>) -> Option<int> {
    if exists|i: int| sep_at(s, i) {
        Some(choose|i: int| sep_at(s, i) && forall|j: int| 0 <= j < i ==> !sep_at(s, j))
    } else {
        None
    }
}

pub open spec fn masked(url: Seq<char>) -> Seq<char> {
    match first_sep(url) {
        Some(i) => url.subrange(0, i + 3) + "[HIDDEN_ENDPOINT EVEN IF RUNNING LOCALLY]"@,
        None => "[HOST-HIDDEN]"@,
    }
}

proof fn lemma_first_sep(s: Seq<char>, i: int)
    requires
        sep_at(s, i),
        forall|j: int| 0 <= j < i ==> !sep_at(s, j),
    ensures
        first_sep(s) == Some(i),
{
    let k = choose|k: int| sep_at(s, k) && forall|j: int| 0 <= j < k ==> !sep_at(s, j);
    assert(sep_at(s, k) && forall|j: int| 0 <= j < k ==> !sep_at(s, j));
    if k < i {
        assert(!sep_at(s, k));
    } else if k > i {
        assert(!sep_at(s, i));
    }
}

/// The endpoint as printed at start-up: its scheme, with host and path hidden.
pub fn mask_endpoint(url: &str) -> (r: String)
    ensures
        r@ == masked(url@),
{
    let n = url.unicode_len();
    let mut i: usize = 0;
    while n >= 3 && i <= n - 3
        invariant
            i <= n,
            n == url@.len(),
            forall|j: int| 0 <= j < i ==> !sep_at(url@, j),
        decreases n - i,
    {
        if url.get_char(i) == ':' && url.get_char(i + 1) == '/' && url.get_char(i + 2) == '/' {
            proof {
                lemma_first_sep(url@, i as int);
            }
            let mut r = String::from_str(url.substring_char(0, i + 3));
            r.append("[HIDDEN_ENDPOINT EVEN IF RUNNING LOCALLY]");
            return r;
        }
        i = i + 1;
    }
    assert forall|j: int| !sep_at(url@, j) by {
        if 0 <= j < i {
        } else if sep_at(url@, j) {
            assert(j + 3 <= n);
        }
    }
    String::from_str("[HOST-HIDDEN]")
}

} // verus!
