//! What the comparisons of text answer, character by character.

use vstd::prelude::*;

use crate::text;

verus! {

/// There are sixteen hexadecimal digits, six of them in two cases, and no
/// other.
pub proof fn law_hexadecimal_digits(c: char, r: bool)
    requires
        call_ensures(text::is_ascii_hexdigit, (c,), r),
    ensures
        r <==> {
            ||| c == '0' || c == '1' || c == '2' || c == '3' || c == '4'
            ||| c == '5' || c == '6' || c == '7' || c == '8' || c == '9'
            ||| c == 'a' || c == 'b' || c == 'c' || c == 'd' || c == 'e' || c == 'f'
            ||| c == 'A' || c == 'B' || c == 'C' || c == 'D' || c == 'E' || c == 'F'
        },
{
}

/// Two characters that are the same, or a letter from `a` to `z` and its
/// capital, whose code is 32 less.
pub open spec fn same_letter(c: char, d: char) -> bool {
    ||| c == d
    ||| 'a' <= c <= 'z' && c as int == d as int + 32
    ||| 'a' <= d <= 'z' && d as int == c as int + 32
}

/// Texts are equal but for case when they have the same letters at the same
/// places.
pub proof fn law_case_is_all_that_is_ignored(a: &str, b: &str, r: bool)
    requires
        call_ensures(text::eq_ignore_ascii_case, (a, b), r),
    ensures
        r <==> a@.len() == b@.len() && forall|i: int|
            0 <= i < a@.len() ==> same_letter(#[trigger] a@[i], b@[i]),
{
    lemma_same_letters(a@, b@);
}

/// Folding the case of two texts compares them letter by letter.
pub proof fn lemma_same_letters(a: Seq<char>, b: Seq<char>)
    ensures
        text::same_but_for_ascii_case(a, b) <==> a.len() == b.len() && forall|i: int|
            0 <= i < a.len() ==> same_letter(#[trigger] a[i], b[i]),
{
    if text::same_but_for_ascii_case(a, b) {
        assert forall|i: int| 0 <= i < a.len() implies same_letter(#[trigger] a[i], b[i]) by {
            assert(text::folded(a[i]) == text::folded(b[i]));
        }
    }
}

/// A text has as many characters as it has, each at its place.
pub proof fn law_characters_of_a_text(s: &str, r: Vec<char>)
    requires
        call_ensures(text::characters, (s,), r),
    ensures
        r@.len() == s@.len(),
        forall|i: int| 0 <= i < s@.len() ==> #[trigger] r@[i] == s@[i],
{
}

/// A copy is there when the string is, and says the same.
pub proof fn law_copy_says_the_same(s: &Option<String>, r: Option<String>)
    requires
        call_ensures(text::copy_of, (s,), r),
    ensures
        match (*s, r) {
            (Some(s), Some(r)) => r@ == s@,
            (None, None) => true,
            _ => false,
        },
{
}

} // verus!
