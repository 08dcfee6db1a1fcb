//! Copying and comparing values by their content.
use crate::text;
use vstd::prelude::*;

verus! {

/// The content of an optional value.
pub open spec fn content<T: View>(o: Option<T>) -> Option<T::V> {
    match o {
        Some(v) => Some(v@),
        None => None,
    }
}

/// The contents of a list.
pub open spec fn contents<T: View>(s: Seq<T>) -> Seq<T::V> {
    s.map_values(|v: T| v@)
}

/// A value that can be copied with its content and compared by it.
pub trait Plain: View + Sized {
    fn duplicate(&self) -> (r: Self)
        ensures
            r@ == self@,
    ;

    fn alike(&self, other: &Self) -> (r: bool)
        ensures
            r == (self@ == other@),
    ;
}

impl Plain for String {
    fn duplicate(&self) -> (r: Self) {
        self.clone()
    }

    fn alike(&self, other: &Self) -> (r: bool) {
        text::same(self.as_str(), other.as_str())
    }
}

/// A copy of an optional value.
pub fn copy_option<T: Plain>(o: &Option<T>) -> (r: Option<T>)
    ensures
        content(r) == content(*o),
{
    match o {
        Some(v) => Some(v.duplicate()),
        None => None,
    }
}

/// A copy of a list.
pub fn copy_list<T: Plain>(s: &[T]) -> (r: Vec<T>)
    ensures
        contents(r@) == contents(s@),
{
    let mut r: Vec<T> = Vec::new();
    for i in 0..s.len()
        invariant
            contents(r@) == contents(s@).take(i as int),
    {
        let ghost before = contents(r@);
        r.push(s[i].duplicate());
        assert(contents(r@) == before.push(s@[i as int]@));
    }
    assert(contents(s@).take(s@.len() as int) == contents(s@));
    r
}

/// Whether two optional values have the same content.
pub fn options_alike<T: Plain>(a: &Option<T>, b: &Option<T>) -> (r: bool)
    ensures
        r == (content(*a) == content(*b)),
{
    match (a, b) {
        (Some(x), Some(y)) => x.alike(y),
        (None, None) => true,
        _ => false,
    }
}

/// Whether two lists have the same contents.
pub fn lists_alike<T: Plain>(a: &[T], b: &[T]) -> (r: bool)
    ensures
        r == (contents(a@) == contents(b@)),
{
    if a.len() != b.len() {
        assert(contents(a@).len() != contents(b@).len());
        return false;
    }
    for i in 0..a.len()
        invariant
            a@.len() == b@.len(),
            forall|j: int| 0 <= j < i ==> (#[trigger] a@[j])@ == b@[j]@,
    {
        if !a[i].alike(&b[i]) {
            assert(contents(a@)[i as int] != contents(b@)[i as int]);
            return false;
        }
    }
    assert(contents(a@) == contents(b@));
    true
}

} // verus!
