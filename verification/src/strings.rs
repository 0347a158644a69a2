//! Character-level string helpers used by topic handling and properties.

use vstd::prelude::*;
use vstd::string::*;

use crate::errors::Error;

verus! {

/// Copies the characters of a string into a vector.
pub fn str_to_chars(s: &str) -> (r: Vec<char>)
    ensures
        r@ == s@,
{
    let n = s.unicode_len();
    let mut v: Vec<char> = Vec::new();
    let mut i: usize = 0;
    while i < n
        invariant
            n == s@.len(),
            i <= n,
            v@ == s@.take(i as int),
        decreases n - i,
    {
        v.push(s.get_char(i));
        i = i + 1;
        assert(v@ =~= s@.take(i as int));
    }
    assert(v@ =~= s@);
    v
}

/// Compares two character sequences for equality.
pub fn chars_equal(a: &[char], b: &[char]) -> (r: bool)
    ensures
        r == (a@ == b@),
{
    if a.len() != b.len() {
        return false;
    }
    let mut i: usize = 0;
    while i < a.len()
        invariant
            a@.len() == b@.len(),
            i <= a@.len(),
            forall|j: int| 0 <= j < i ==> a@[j] == b@[j],
        decreases a.len() - i,
    {
        if a[i] != b[i] {
            return false;
        }
        i = i + 1;
    }
    assert(a@ =~= b@);
    true
}

/// Compares two strings for equality of their characters.
pub fn str_equals(a: &str, b: &str) -> (r: bool)
    ensures
        r == (a@ == b@),
{
    let va = str_to_chars(a);
    let vb = str_to_chars(b);
    chars_equal(va.as_slice(), vb.as_slice())
}

/// Whether a character sequence contains a character.
pub fn chars_contain(s: &[char], c: char) -> (r: bool)
    ensures
        r == s@.contains(c),
{
    let mut i: usize = 0;
    while i < s.len()
        invariant
            i <= s@.len(),
            forall|j: int| 0 <= j < i ==> s@[j] != c,
        decreases s.len() - i,
    {
        if s[i] == c {
            assert(s@[i as int] == c);
            return true;
        }
        i = i + 1;
    }
    false
}

/// The text of a string without a NUL character, as C strings need.
pub open spec fn no_nul(s: Seq<char>) -> bool {
    !s.contains('\0')
}


/// A Rust string value that can become an owned `String`.
pub trait IntoText: Sized {
    /// The characters of the value.
    spec fn text_view(&self) -> Seq<char>;

    /// Converts the value into a `String`.
    fn into_text(self) -> (r: String)
        ensures
            r@ == self.text_view(),
    ;
}

impl<'a> IntoText for &'a str {
    open spec fn text_view(&self) -> Seq<char> {
        self@
    }

    fn into_text(self) -> (r: String) {
        String::from_str(self)
    }
}

impl IntoText for String {
    open spec fn text_view(&self) -> Seq<char> {
        self@
    }

    fn into_text(self) -> (r: String) {
        self
    }
}


/// The position of the first NUL byte, if there is one.
pub open spec fn first_nul(bytes: Seq<u8>) -> Option<int>
    decreases bytes.len(),
{
    if bytes.len() == 0 {
        None
    } else if bytes.last() == 0 {
        match first_nul(bytes.drop_last()) {
            Some(i) => Some(i),
            None => Some(bytes.len() - 1),
        }
    } else {
        first_nul(bytes.drop_last())
    }
}

/// Finds the first NUL byte of a string's UTF-8 encoding.
pub fn nul_position(s: &str) -> (r: Option<usize>)
    ensures
        match first_nul(s.spec_bytes()) {
            Some(i) => (r matches Some(p) && p == i) && 0 <= i < s.spec_bytes().len(),
            None => r is None,
        },
{
    proof {
        lemma_first_nul_bounds(s.spec_bytes());
    }
    let bytes = s.as_bytes();
    let mut i: usize = 0;
    let ghost b = s.spec_bytes();
    assert(b.take(0) =~= Seq::<u8>::empty());
    while i < bytes.len()
        invariant
            b == bytes@,
            b == s.spec_bytes(),
            i <= b.len(),
            first_nul(b.take(i as int)) is None,
        decreases b.len() - i,
    {
        assert(b.take(i + 1).drop_last() =~= b.take(i as int));
        if bytes[i] == 0 {
            proof {
                assert(b.take(i + 1).last() == 0);
                assert(first_nul(b.take(i + 1)) == Some(i as int));
                lemma_first_nul_prefix(b, i + 1);
            }
            return Some(i);
        }
        i = i + 1;
    }
    assert(b.take(i as int) =~= b);
    None
}

/// The first NUL is a position of the sequence that holds a NUL.
proof fn lemma_first_nul_bounds(b: Seq<u8>)
    ensures
        first_nul(b) matches Some(i) ==> 0 <= i < b.len() && b[i] == 0,
    decreases b.len(),
{
    if b.len() > 0 {
        lemma_first_nul_bounds(b.drop_last());
    }
}

/// A NUL found in a prefix is the first NUL of the whole sequence.
proof fn lemma_first_nul_prefix(b: Seq<u8>, n: int)
    requires
        0 <= n <= b.len(),
        first_nul(b.take(n)) is Some,
    ensures
        first_nul(b) == first_nul(b.take(n)),
    decreases b.len() - n,
{
    if n < b.len() {
        assert(b.take(n + 1).drop_last() =~= b.take(n));
        lemma_first_nul_prefix(b, n + 1);
    } else {
        assert(b.take(n) =~= b);
    }
}

/// Copies a string that is to be handed to the C library as a C string,
/// failing with the position of its first NUL byte if it has one.
pub fn c_string(s: &str) -> (r: Result<String, Error>)
    ensures
        match first_nul(s.spec_bytes()) {
            Some(i) => r matches Err(Error::Nul(p)) && p == i,
            None => r matches Ok(t) && t@ == s@,
        },
{
    match nul_position(s) {
        Some(p) => Err(Error::Nul(p)),
        None => Ok(String::from_str(s)),
    }
}

} // verus!
