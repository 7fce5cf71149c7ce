use vstd::prelude::*;

verus! {

/// Whether a thumbnail reference names a remote resource: it begins with `http`.
pub open spec fn is_remote_reference(r: Seq<char>) -> bool {
    r.len() >= 4 && r.subrange(0, 4) == "http"@
}

/// Character-wise equality of two strings.
pub fn same_text(a: &str, b: &str) -> (r: bool)
    ensures
        r == (a@ == b@),
{
    let n = a.unicode_len();
    if n != b.unicode_len() {
        return false;
    }
    let mut i: usize = 0;
    while i < n
        invariant
            n == a@.len(),
            n == b@.len(),
            i <= n,
            forall|j: int| 0 <= j < i ==> a@[j] == b@[j],
        decreases n - i,
    {
        if a.get_char(i) != b.get_char(i) {
            return false;
        }
        i += 1;
    }
    assert(a@ =~= b@);
    true
}

/// Whether `s` begins with the literal prefix `http`.
pub fn is_remote(s: &str) -> (r: bool)
    ensures
        r == is_remote_reference(s@),
{
    let n = s.unicode_len();
    if n < 4 {
        return false;
    }
    let prefix = s.substring_char(0, 4);
    same_text(prefix, "http")
}

/// A fresh `String` holding the characters of `s`.
pub fn owned(s: &str) -> (r: String)
    ensures
        r@ == s@,
{
    String::from_str(s)
}

/// A copy of an optional string.
pub fn copy_text(o: &Option<String>) -> (r: Option<String>)
    ensures
        r == *o,
{
    match o {
        Some(s) => Some(s.clone()),
        None => None,
    }
}

} // verus!
