//! Small verified string helpers shared by the rest of the library.
use vstd::prelude::*;
use vstd::string::*;

verus! {

/// Compare two string slices for equality of their characters.
pub fn text_eq(a: &str, b: &str) -> (r: bool)
    ensures
        r == (a@ == b@),
{
    let x = String::from_str(a);
    let y = String::from_str(b);
    x == y
}

/// Whether `v` holds a string equal to `x`.
pub fn contains_text(v: &Vec<String>, x: &String) -> (r: bool)
    ensures
        r == v.deep_view().contains(x@),
{
    let mut j: usize = 0;
    while j < v.len()
        invariant
            0 <= j <= v.len(),
            forall|k: int| 0 <= k < j ==> v.deep_view()[k] != x@,
        decreases v.len() - j,
    {
        if v[j] == *x {
            assert(v.deep_view()[j as int] == x@);
            return true;
        }
        j += 1;
    }
    false
}

/// Copy a vector of strings, keeping every element.
pub fn copy_texts(v: &Vec<String>) -> (r: Vec<String>)
    ensures
        r.deep_view() == v.deep_view(),
{
    let mut out: Vec<String> = Vec::new();
    let mut i: usize = 0;
    while i < v.len()
        invariant
            0 <= i <= v.len(),
            out.deep_view() == v.deep_view().take(i as int),
        decreases v.len() - i,
    {
        let ghost before = out.deep_view();
        assert(before.len() == i);
        let item = v[i].clone();
        assert(item@ == v.deep_view()[i as int]);
        out.push(item);
        assert(out.deep_view() =~= before.push(v.deep_view()[i as int]));
        assert(out.deep_view() =~= v.deep_view().take(i + 1));
        i += 1;
    }
    assert(v.deep_view().take(v.len() as int) =~= v.deep_view());
    out
}

} // verus!
