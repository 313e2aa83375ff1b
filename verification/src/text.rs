//! Small helpers on strings and optional strings, with their models.

use vstd::prelude::*;
use vstd::string::*;

verus! {

/// The characters of an optional string, where there is one.
pub open spec fn opt_text(o: Option<String>) -> Option<Seq<char>> {
    match o {
        Some(s) => Some(s@),
        None => None,
    }
}

/// An empty text stands for an absent value.
pub open spec fn text_to_opt(s: Seq<char>) -> Option<Seq<char>> {
    if s.len() == 0 {
        None
    } else {
        Some(s)
    }
}

/// An absent value is shown as the empty text.
pub open spec fn opt_to_text(o: Option<Seq<char>>) -> Seq<char> {
    match o {
        Some(s) => s,
        None => Seq::empty(),
    }
}

/// Turns an editable text into an optional value: empty means absent.
pub fn non_empty(s: String) -> (r: Option<String>)
    ensures
        opt_text(r) == text_to_opt(s@),
        r matches Some(t) ==> t == s,
{
    if s.as_str().is_empty() {
        None
    } else {
        Some(s)
    }
}

/// Turns an optional value into an editable text: absent means empty.
pub fn or_empty(o: Option<String>) -> (r: String)
    ensures
        r@ == opt_to_text(opt_text(o)),
        o matches Some(t) ==> r == t,
{
    match o {
        Some(s) => s,
        None => String::new(),
    }
}

/// A copy of an optional string.
pub fn clone_opt(o: &Option<String>) -> (r: Option<String>)
    ensures
        r == *o,
{
    match o {
        Some(s) => Some(s.clone()),
        None => None,
    }
}

/// The characters of each string of a sequence, in order.
pub open spec fn texts(v: Seq<String>) -> Seq<Seq<char>> {
    v.map_values(|s: String| s@)
}

/// A copy of a list of strings.
pub fn clone_strings(v: &Vec<String>) -> (r: Vec<String>)
    ensures
        texts(r@) == texts(v@),
{
    let mut r: Vec<String> = Vec::new();
    let mut i: usize = 0;
    while i < v.len()
        invariant
            i <= v.len(),
            r.len() == i,
            forall|j: int| 0 <= j < i ==> r[j]@ == v[j]@,
        decreases v.len() - i,
    {
        r.push(v[i].clone());
        i += 1;
    }
    assert(texts(r@) =~= texts(v@));
    r
}

/// Whether a list of strings holds `s`.
pub fn contains_text(v: &Vec<String>, s: &String) -> (r: bool)
    ensures
        r == texts(v@).contains(s@),
{
    let mut i: usize = 0;
    while i < v.len()
        invariant
            i <= v.len(),
            forall|j: int| 0 <= j < i ==> texts(v@)[j] != s@,
        decreases v.len() - i,
    {
        if v[i] == *s {
            assert(texts(v@)[i as int] == s@);
            return true;
        }
        i += 1;
    }
    false
}

/// A list of texts without every occurrence of `s`.
pub open spec fn without(v: Seq<Seq<char>>, s: Seq<char>) -> Seq<Seq<char>> {
    v.filter(|t: Seq<char>| t != s)
}

/// A copy of a list of strings without every occurrence of `s`; what stays
/// keeps its order.
pub fn without_text(v: &Vec<String>, s: &String) -> (r: Vec<String>)
    ensures
        texts(r@) == without(texts(v@), s@),
{
    let ghost all = texts(v@);
    let ghost keep = |t: Seq<char>| t != s@;
    let mut r: Vec<String> = Vec::new();
    let mut i: usize = 0;
    proof {
        assert(all.take(0) =~= Seq::<Seq<char>>::empty());
        assert(texts(r@) =~= Seq::<Seq<char>>::empty());
        reveal(Seq::filter);
    }
    while i < v.len()
        invariant
            i <= v.len(),
            all == texts(v@),
            keep == |t: Seq<char>| t != s@,
            texts(r@) == all.take(i as int).filter(keep),
        decreases v.len() - i,
    {
        proof {
            reveal(Seq::filter);
            assert(all.take(i + 1).drop_last() =~= all.take(i as int));
            assert(all.take(i + 1).last() == v[i as int]@);
        }
        if !(v[i] == *s) {
            let ghost before = r@;
            r.push(v[i].clone());
            assert(texts(r@) =~= texts(before).push(v[i as int]@));
        }
        i += 1;
    }
    assert(all.take(v.len() as int) =~= all);
    r
}

} // verus!
