//! Text as the window server and the configuration write it.

use vstd::prelude::*;

verus! {

/// The code point of a character, with the letters `A` to `Z` taken as `a` to
/// `z` and every other character as it is.
pub open spec fn folded(c: char) -> int {
    if 'A' <= c <= 'Z' {
        c as int + ('a' as int - 'A' as int)
    } else {
        c as int
    }
}

/// Two texts that differ at most in the case of ASCII letters.
pub open spec fn same_but_for_ascii_case(a: Seq<char>, b: Seq<char>) -> bool {
    &&& a.len() == b.len()
    &&& forall|i: int| 0 <= i < a.len() ==> #[trigger] folded(a[i]) == folded(b[i])
}

pub proof fn lemma_ascii_case_is_symmetric(a: Seq<char>, b: Seq<char>)
    requires
        same_but_for_ascii_case(a, b),
    ensures
        same_but_for_ascii_case(b, a),
{
    assert forall|i: int| 0 <= i < b.len() implies #[trigger] folded(b[i]) == folded(a[i]) by {
        assert(folded(a[i]) == folded(b[i]));
    }
}

pub proof fn lemma_ascii_case_is_transitive(a: Seq<char>, b: Seq<char>, c: Seq<char>)
    requires
        same_but_for_ascii_case(b, c),
    ensures
        same_but_for_ascii_case(a, b) ==> same_but_for_ascii_case(a, c),
{
    if same_but_for_ascii_case(a, b) {
        assert forall|i: int| 0 <= i < a.len() implies #[trigger] folded(a[i]) == folded(c[i]) by {
            assert(folded(b[i]) == folded(c[i]));
        }
    }
}

/// A hexadecimal digit in either case.
pub open spec fn is_hex_digit(c: char) -> bool {
    ||| '0' <= c <= '9'
    ||| 'a' <= c <= 'f'
    ||| 'A' <= c <= 'F'
}

/// The characters of `s` in upper case, by Unicode's rules.
pub uninterp spec fn uppercase(s: Seq<char>) -> Seq<char>;

/// Trusted: `str::to_uppercase` depends on the text alone. How single
/// characters are mapped, which is Unicode's matter, is left unsaid.
pub assume_specification[ str::to_uppercase ](s: &str) -> (r: String)
    ensures
        r@ == uppercase(s@),
;

/// The text that `{:?}` shows for `s`: quoted, with escapes.
pub uninterp spec fn quoted(s: Seq<char>) -> Seq<char>;

/// Trusted: `<str as Debug>::fmt`, by way of `format!`, gives a text that
/// depends on the `str` alone. Which characters are escaped, and how, is left
/// unsaid.
#[verifier::external_body]
pub(crate) fn quote(s: &str) -> (r: String)
    ensures
        r@ == quoted(s@),
{
    format!("{:?}", s)
}

/// The characters of a text, in order.
pub fn characters(s: &str) -> (r: Vec<char>)
    ensures
        r@ == s@,
{
    let mut r: Vec<char> = Vec::new();
    for c in it: s.chars()
        invariant
            it.seq() == s@,
            r@ == s@.take(it.index()),
    {
        proof {
            assert(s@.take(it.index() + 1) =~= s@.take(it.index()).push(c));
        }
        r.push(c);
    }
    assert(s@.take(s@.len() as int) =~= s@);
    r
}

/// The text of an optional string.
pub open spec fn text_of(s: Option<String>) -> Option<Seq<char>> {
    match s {
        Some(s) => Some(s@),
        None => None,
    }
}

/// The text of an optional string slice.
pub open spec fn text_of_str(s: Option<&str>) -> Option<Seq<char>> {
    match s {
        Some(s) => Some(s@),
        None => None,
    }
}

/// A second copy of an optional string.
pub fn copy_of(s: &Option<String>) -> (r: Option<String>)
    ensures
        text_of(r) == text_of(*s),
{
    match s {
        Some(s) => Some(s.as_str().to_owned()),
        None => None,
    }
}

fn fold(c: char) -> (code: u32)
    ensures
        code == folded(c),
{
    if 'A' <= c && c <= 'Z' {
        c as u32 + 32
    } else {
        c as u32
    }
}

/// Whether two texts are equal but for the case of ASCII letters.
pub fn eq_ignore_ascii_case(a: &str, b: &str) -> (r: bool)
    ensures
        r == same_but_for_ascii_case(a@, b@),
{
    let left = characters(a);
    let right = characters(b);
    if left.len() != right.len() {
        return false;
    }
    let mut i: usize = 0;
    while i < left.len()
        invariant
            left@ == a@,
            right@ == b@,
            left@.len() == right@.len(),
            i <= left@.len(),
            forall|j: int| 0 <= j < i ==> #[trigger] folded(left@[j]) == folded(right@[j]),
        decreases left@.len() - i,
    {
        if fold(left[i]) != fold(right[i]) {
            return false;
        }
        i += 1;
    }
    true
}

/// Whether `c` is a hexadecimal digit.
pub fn is_ascii_hexdigit(c: char) -> (r: bool)
    ensures
        r == is_hex_digit(c),
{
    ('0' <= c && c <= '9') || ('a' <= c && c <= 'f') || ('A' <= c && c <= 'F')
}

} // verus!
