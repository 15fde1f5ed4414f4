use vstd::prelude::*;
use vstd::string::StrSliceExecFns;

verus! {

/// The position of the first `c` in `s`, if `s` holds one.
pub open spec fn first_index_of(s: Seq<char>, c: char) -> Option<int> {
    if exists|i: int| 0 <= i < s.len() && s[i] == c {
        Some(choose|i: int| 0 <= i < s.len() && s[i] == c && forall|j: int| 0 <= j < i ==> s[j] != c)
    } else {
        None
    }
}

/// Whether two strings hold the same characters.
pub fn text_eq(a: &str, b: &str) -> (r: bool)
    ensures
        r == (a@ == b@),
{
    let n = a.unicode_len();
    if n != b.unicode_len() {
        return false;
    }
    let mut i: usize = 0;
    while i < n
        invariant
            n == a@.len(),
            n == b@.len(),
            i <= n,
            forall|j: int| 0 <= j < i ==> a@[j] == b@[j],
        decreases n - i,
    {
        if a.get_char(i) != b.get_char(i) {
            return false;
        }
        i = i + 1;
    }
    assert(a@ =~= b@);
    true
}

/// Whether `s` is one of the entries of `list`.
pub fn contains_text(list: &Vec<String>, s: &str) -> (r: bool)
    ensures
        r == exists|i: int| 0 <= i < list@.len() && list@[i]@ == s@,
{
    let mut i: usize = 0;
    while i < list.len()
        invariant
            i <= list@.len(),
            forall|j: int| 0 <= j < i ==> list@[j]@ != s@,
        decreases list@.len() - i,
    {
        if text_eq(list[i].as_str(), s) {
            return true;
        }
        i = i + 1;
    }
    false
}

/// Splits `s` around the first `c`: the part before it and the part after it.
pub fn split_once_at(s: &str, c: char) -> (r: Option<(String, String)>)
    ensures
        first_index_of(s@, c) is None <==> r is None,
        r matches Some((a, b)) ==> {
            let k = first_index_of(s@, c)->0;
            &&& a@ == s@.subrange(0, k)
            &&& b@ == s@.subrange(k + 1, s@.len() as int)
        },
{
    let n = s.unicode_len();
    let mut i: usize = 0;
    while i < n
        invariant
            n == s@.len(),
            i <= n,
            forall|j: int| 0 <= j < i ==> s@[j] != c,
        decreases n - i,
    {
        if s.get_char(i) == c {
            let ghost k = first_index_of(s@, c);
            assert(k matches Some(x) && x == i) by {
                assert(0 <= i < s@.len() && s@[i as int] == c);
                let x = k->0;
                if x < i {
                } else if x > i {
                }
            };
            let a = s.substring_char(0, i).to_owned();
            let b = s.substring_char(i + 1, n).to_owned();
            return Some((a, b));
        }
        i = i + 1;
    }
    None
}

} // verus!
