//! Which texts name a display, and how the names are written.

use vstd::prelude::*;

use crate::sys::display_selector;
use crate::sys::display_selector::DisplaySelector;
use crate::text;

verus! {

/// A character that is one of the letters given by its two cases.
pub open spec fn either(c: char, small: char, capital: char) -> bool {
    c == small || c == capital
}

/// The word "builtin" in any mixture of cases.
pub open spec fn spells_builtin(s: Seq<char>) -> bool {
    &&& s.len() == 7
    &&& either(s[0], 'b', 'B')
    &&& either(s[1], 'u', 'U')
    &&& either(s[2], 'i', 'I')
    &&& either(s[3], 'l', 'L')
    &&& either(s[4], 't', 'T')
    &&& either(s[5], 'i', 'I')
    &&& either(s[6], 'n', 'N')
}

/// The word "main" in any mixture of cases.
pub open spec fn spells_main(s: Seq<char>) -> bool {
    &&& s.len() == 4
    &&& either(s[0], 'm', 'M')
    &&& either(s[1], 'a', 'A')
    &&& either(s[2], 'i', 'I')
    &&& either(s[3], 'n', 'N')
}

/// The word "primary" in any mixture of cases.
pub open spec fn spells_primary(s: Seq<char>) -> bool {
    &&& s.len() == 7
    &&& either(s[0], 'p', 'P')
    &&& either(s[1], 'r', 'R')
    &&& either(s[2], 'i', 'I')
    &&& either(s[3], 'm', 'M')
    &&& either(s[4], 'a', 'A')
    &&& either(s[5], 'r', 'R')
    &&& either(s[6], 'y', 'Y')
}

/// 36 characters: dashes at places 8, 13, 18 and 23, and a hexadecimal digit in
/// either case at every other place.
pub open spec fn is_written_uuid(s: Seq<char>) -> bool {
    &&& s.len() == 36
    &&& s[8] == '-' && s[13] == '-' && s[18] == '-' && s[23] == '-'
    &&& forall|i: int|
        0 <= i < 36 && i != 8 && i != 13 && i != 18 && i != 23 ==> {
            ||| '0' <= #[trigger] s[i] <= '9'
            ||| 'a' <= s[i] <= 'f'
            ||| 'A' <= s[i] <= 'F'
        }
}

proof fn lemma_same_as_word(s: Seq<char>, word: Seq<char>)
    ensures
        text::same_but_for_ascii_case(s, word) <==> s.len() == word.len() && forall|i: int|
            0 <= i < s.len() ==> text::folded(#[trigger] s[i]) == text::folded(word[i]),
{
    if text::same_but_for_ascii_case(s, word) {
        assert forall|i: int| 0 <= i < s.len() implies text::folded(#[trigger] s[i])
            == text::folded(word[i]) by {
            assert(text::folded(s[i]) == text::folded(word[i]));
        }
    }
}

proof fn lemma_aliases(s: Seq<char>)
    ensures
        display_selector::is_builtin_alias(s) <==> spells_builtin(s) || spells_main(s)
            || spells_primary(s),
{
    reveal_strlit("builtin");
    reveal_strlit("main");
    reveal_strlit("primary");
    lemma_same_as_word(s, "builtin"@);
    lemma_same_as_word(s, "main"@);
    lemma_same_as_word(s, "primary"@);
    if text::same_but_for_ascii_case(s, "builtin"@) {
        assert(text::folded(s[0]) == text::folded('b') && text::folded(s[1]) == text::folded('u')
            && text::folded(s[2]) == text::folded('i') && text::folded(s[3]) == text::folded('l')
            && text::folded(s[4]) == text::folded('t') && text::folded(s[5]) == text::folded('i')
            && text::folded(s[6]) == text::folded('n'));
    }
    if text::same_but_for_ascii_case(s, "main"@) {
        assert(text::folded(s[0]) == text::folded('m') && text::folded(s[1]) == text::folded('a')
            && text::folded(s[2]) == text::folded('i') && text::folded(s[3]) == text::folded('n'));
    }
    if text::same_but_for_ascii_case(s, "primary"@) {
        assert(text::folded(s[0]) == text::folded('p') && text::folded(s[1]) == text::folded('r')
            && text::folded(s[2]) == text::folded('i') && text::folded(s[3]) == text::folded('m')
            && text::folded(s[4]) == text::folded('a') && text::folded(s[5]) == text::folded('r')
            && text::folded(s[6]) == text::folded('y'));
    }
}

proof fn lemma_uuids(s: Seq<char>)
    ensures
        display_selector::has_uuid_shape(s) <==> is_written_uuid(s),
{
    if display_selector::has_uuid_shape(s) {
        assert(s[8] == '-' && s[13] == '-' && s[18] == '-' && s[23] == '-');
    }
}

/// Any text in the form of a UUID is taken for one, whichever of the digits it
/// is made of, and no other text is.
pub proof fn law_uuids_are_recognized(s: &str, r: bool)
    requires
        call_ensures(display_selector::is_display_uuid, (s,), r),
    ensures
        r <==> is_written_uuid(s@),
{
    lemma_uuids(s@);
}

/// Any text in the form of a UUID reads as that UUID, character by character,
/// and nothing else reads as a UUID.
pub proof fn law_uuids_are_read(s: &str, r: Result<DisplaySelector, String>)
    requires
        call_ensures(DisplaySelector::parse, (s,), r),
    ensures
        r matches Ok(DisplaySelector::Uuid(_)) <==> is_written_uuid(s@),
        r matches Ok(DisplaySelector::Uuid(uuid)) ==> uuid@ == s@,
{
    lemma_uuids(s@);
    lemma_aliases(s@);
}

/// The built-in display has three names, in any case, and no other.
pub proof fn law_builtin_has_three_names(s: &str, r: Result<DisplaySelector, String>)
    requires
        call_ensures(DisplaySelector::parse, (s,), r),
    ensures
        r matches Ok(DisplaySelector::Builtin) <==> spells_builtin(s@) || spells_main(s@)
            || spells_primary(s@),
{
    lemma_uuids(s@);
    lemma_aliases(s@);
}

/// Any other text is an error, which says what was expected and quotes the
/// text.
pub proof fn law_other_names_are_errors(s: &str, r: Result<DisplaySelector, String>)
    requires
        call_ensures(DisplaySelector::parse, (s,), r),
    ensures
        r is Err <==> !(is_written_uuid(s@) || spells_builtin(s@) || spells_main(s@)
            || spells_primary(s@)),
        r matches Err(message) ==> message@
            == "expected \"builtin\" or a display UUID like \"84EFFBF0-1178-405C-9D64-3B574C1BE249\", found "@
            + text::quoted(s@),
{
    lemma_uuids(s@);
    lemma_aliases(s@);
}

/// The error ends in what was found, whatever that is.
pub proof fn law_error_ends_in_what_was_found(found: &str, message: String)
    requires
        call_ensures(display_selector::unknown_name, (found,), message),
    ensures
        message@
            == "expected \"builtin\" or a display UUID like \"84EFFBF0-1178-405C-9D64-3B574C1BE249\", found "@
            + found@,
{
}

/// The built-in display is written "builtin", and a UUID as it is.
pub proof fn law_names_are_written(selector: &DisplaySelector, name: &str)
    requires
        call_ensures(DisplaySelector::as_str, (selector,), name),
    ensures
        match *selector {
            DisplaySelector::Builtin => name@ == "builtin"@,
            DisplaySelector::Uuid(uuid) => name@ == uuid@,
        },
{
}

/// What is written for a selector, read again, is that selector.
pub proof fn law_writing_and_reading(
    selector: &DisplaySelector,
    name: &str,
    r: Result<DisplaySelector, String>,
)
    requires
        call_ensures(DisplaySelector::as_str, (selector,), name),
        call_ensures(DisplaySelector::parse, (name,), r),
        *selector matches DisplaySelector::Uuid(uuid) ==> is_written_uuid(uuid@),
    ensures
        match *selector {
            DisplaySelector::Builtin => r matches Ok(DisplaySelector::Builtin),
            DisplaySelector::Uuid(uuid) => r matches Ok(DisplaySelector::Uuid(read)) && read@
                == uuid@,
        },
{
    reveal_strlit("builtin");
    law_builtin_has_three_names(name, r);
    law_uuids_are_read(name, r);
}

} // verus!
