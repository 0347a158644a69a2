//! Collections of strings and of name/value string pairs that are handed
//! to the C library as arrays of C strings.

use vstd::prelude::*;
use vstd::utf8::encode_utf8;

use crate::strings::first_nul;

verus! {

/// Whether a string can be a C string: its UTF-8 bytes hold no NUL.
pub open spec fn c_compatible(s: Seq<char>) -> bool {
    first_nul(encode_utf8(s)) is None
}

/// The characters of each string of a list.
pub open spec fn strings_view(v: Seq<String>) -> Seq<Seq<char>> {
    v.map_values(|s: String| s@)
}

/// The characters of each string of a list of string slices.
pub open spec fn str_list_view(v: Seq<&str>) -> Seq<Seq<char>> {
    v.map_values(|s: &str| s@)
}

/// The characters of each pair of a list.
pub open spec fn string_pairs_view(v: Seq<(String, String)>) -> Seq<(Seq<char>, Seq<char>)> {
    v.map_values(|p: (String, String)| (p.0@, p.1@))
}

/// The characters of each pair of a list of string-slice pairs.
pub open spec fn str_pairs_view(v: Seq<(&str, &str)>) -> Seq<(Seq<char>, Seq<char>)> {
    v.map_values(|p: (&str, &str)| (p.0@, p.1@))
}

/// A collection of strings for a C API that takes an array of C strings.
#[derive(Debug)]
pub struct StringCollection {
    /// The strings, in order.
    pub coll: Vec<String>,
}

impl View for StringCollection {
    type V = Seq<Seq<char>>;

    open spec fn view(&self) -> Seq<Seq<char>> {
        strings_view(self.coll@)
    }
}

impl StringCollection {
    /// Creates a StringCollection from string references.
    pub fn new(coll: &[&str]) -> (r: Self)
        requires
            forall|i: int| 0 <= i < coll@.len() ==> c_compatible(#[trigger] coll@[i]@),
        ensures
            r@ == str_list_view(coll@),
    {
        let mut strings: Vec<String> = Vec::new();
        let mut i: usize = 0;
        while i < coll.len()
            invariant
                i <= coll@.len(),
                strings_view(strings@) == str_list_view(coll@.take(i as int)),
            decreases coll@.len() - i,
        {
            let ghost old_s = strings@;
            strings.push(String::from_str(coll[i]));
            assert(strings_view(strings@) =~= strings_view(old_s).push(coll@[i as int]@));
            assert(coll@.take(i + 1) =~= coll@.take(i as int).push(coll@[i as int]));
            i = i + 1;
            assert(strings_view(strings@) =~= str_list_view(coll@.take(i as int)));
        }
        assert(coll@.take(i as int) =~= coll@);
        StringCollection { coll: strings }
    }

    /// Returns true if the collection contains no elements.
    pub fn is_empty(&self) -> (r: bool)
        ensures
            r == (self@.len() == 0),
    {
        self.coll.len() == 0
    }

    /// Gets the number of strings in the collection.
    pub fn len(&self) -> (r: usize)
        ensures
            r == self@.len(),
    {
        self.coll.len()
    }
}

impl Default for StringCollection {
    /// An empty collection.
    fn default() -> (r: Self)
        ensures
            r@ == Seq::<Seq<char>>::empty(),
    {
        let r = StringCollection { coll: Vec::new() };
        assert(r@ =~= Seq::<Seq<char>>::empty());
        r
    }
}

impl Clone for StringCollection {
    /// Copies the collection.
    fn clone(&self) -> (r: Self)
        ensures
            r@ == self@,
    {
        let mut strings: Vec<String> = Vec::new();
        let mut i: usize = 0;
        while i < self.coll.len()
            invariant
                i <= self.coll@.len(),
                strings_view(strings@) == strings_view(self.coll@).take(i as int),
            decreases self.coll@.len() - i,
        {
            let ghost old_s = strings@;
            strings.push(self.coll[i].clone());
            assert(strings_view(strings@) =~= strings_view(old_s).push(self.coll@[i as int]@));
            i = i + 1;
            assert(strings_view(strings@) =~= strings_view(self.coll@).take(i as int));
        }
        let r = StringCollection { coll: strings };
        assert(r@ =~= self@);
        r
    }
}

/// A collection of name/value string pairs for a C API that takes an
/// array of C string pairs.
#[derive(Debug)]
pub struct NameValueCollection {
    /// The name/value pairs, in order.
    pub coll: Vec<(String, String)>,
}

impl View for NameValueCollection {
    type V = Seq<(Seq<char>, Seq<char>)>;

    open spec fn view(&self) -> Seq<(Seq<char>, Seq<char>)> {
        string_pairs_view(self.coll@)
    }
}

impl NameValueCollection {
    /// Creates a NameValueCollection from string pair references.
    pub fn new(coll: &[(&str, &str)]) -> (r: Self)
        requires
            forall|i: int|
                0 <= i < coll@.len() ==> c_compatible(#[trigger] coll@[i].0@) && c_compatible(
                    coll@[i].1@,
                ),
        ensures
            r@ == str_pairs_view(coll@),
    {
        let mut pairs: Vec<(String, String)> = Vec::new();
        let mut i: usize = 0;
        while i < coll.len()
            invariant
                i <= coll@.len(),
                string_pairs_view(pairs@) == str_pairs_view(coll@.take(i as int)),
            decreases coll@.len() - i,
        {
            let (n, v) = coll[i];
            let ghost old_p = pairs@;
            pairs.push((String::from_str(n), String::from_str(v)));
            assert(string_pairs_view(pairs@) =~= string_pairs_view(old_p).push((coll@[i as int].0@, coll@[i as int].1@)));
            assert(coll@.take(i + 1) =~= coll@.take(i as int).push(coll@[i as int]));
            i = i + 1;
            assert(string_pairs_view(pairs@) =~= str_pairs_view(coll@.take(i as int)));
        }
        assert(coll@.take(i as int) =~= coll@);
        NameValueCollection { coll: pairs }
    }

    /// Returns true if the collection contains no elements.
    pub fn is_empty(&self) -> (r: bool)
        ensures
            r == (self@.len() == 0),
    {
        self.coll.len() == 0
    }

    /// Gets the number of pairs in the collection.
    pub fn len(&self) -> (r: usize)
        ensures
            r == self@.len(),
    {
        self.coll.len()
    }
}

impl Default for NameValueCollection {
    /// An empty collection.
    fn default() -> (r: Self)
        ensures
            r@ == Seq::<(Seq<char>, Seq<char>)>::empty(),
    {
        let r = NameValueCollection { coll: Vec::new() };
        assert(r@ =~= Seq::<(Seq<char>, Seq<char>)>::empty());
        r
    }
}

impl Clone for NameValueCollection {
    /// Copies the collection.
    fn clone(&self) -> (r: Self)
        ensures
            r@ == self@,
    {
        let mut pairs: Vec<(String, String)> = Vec::new();
        let mut i: usize = 0;
        while i < self.coll.len()
            invariant
                i <= self.coll@.len(),
                string_pairs_view(pairs@) == string_pairs_view(self.coll@).take(i as int),
            decreases self.coll@.len() - i,
        {
            let p = &self.coll[i];
            let ghost old_p = pairs@;
            pairs.push((p.0.clone(), p.1.clone()));
            assert(string_pairs_view(pairs@) =~= string_pairs_view(old_p).push((self.coll@[i as int].0@, self.coll@[i as int].1@)));
            i = i + 1;
            assert(string_pairs_view(pairs@) =~= string_pairs_view(self.coll@).take(i as int));
        }
        let r = NameValueCollection { coll: pairs };
        assert(r@ =~= self@);
        r
    }
}

} // verus!
