//! How configuration names a display.

use vstd::prelude::*;

use crate::text;

verus! {

/// Names a display in config.
///
/// Display ids are reassigned when a display is reconnected, so config names a
/// display by the UUID the window server knows it by, or by `Builtin` for
/// whichever display macOS treats as the main one.
#[derive(Debug, PartialEq, Eq, Clone, Hash)]
pub enum DisplaySelector {
    /// The display macOS reports at the origin, whatever it is currently
    /// called. This is the built-in screen on a laptop.
    Builtin,
    /// A display by its window server UUID, matched case-insensitively.
    Uuid(String),
}

/// The names of the built-in display, in any case.
pub open spec fn is_builtin_alias(s: Seq<char>) -> bool {
    ||| text::same_but_for_ascii_case(s, "builtin"@)
    ||| text::same_but_for_ascii_case(s, "main"@)
    ||| text::same_but_for_ascii_case(s, "primary"@)
}

/// Where a UUID has its dashes: its groups have 8, 4, 4, 4 and 12 digits.
pub open spec fn is_dash_place(i: int) -> bool {
    i == 8 || i == 13 || i == 18 || i == 23
}

/// Five groups of hexadecimal digits with a dash between each two.
pub open spec fn has_uuid_shape(s: Seq<char>) -> bool {
    &&& s.len() == 36
    &&& forall|i: int|
        0 <= i < 36 ==> if is_dash_place(i) {
            #[trigger] s[i] == '-'
        } else {
            text::is_hex_digit(s[i])
        }
}

/// `s` is one of the texts by which config names `selector`. An alias is never
/// taken for a UUID.
pub open spec fn reads_as(s: Seq<char>, selector: DisplaySelector) -> bool {
    match selector {
        DisplaySelector::Builtin => is_builtin_alias(s),
        DisplaySelector::Uuid(uuid) => {
            &&& !is_builtin_alias(s)
            &&& has_uuid_shape(s)
            &&& uuid@ == s
        },
    }
}

/// What is said of a name that is neither an alias nor a UUID, given the name
/// in quotes.
pub open spec fn unknown_name_message(found: Seq<char>) -> Seq<char> {
    "expected \"builtin\" or a display UUID like \"84EFFBF0-1178-405C-9D64-3B574C1BE249\", found "@
        + found
}

/// The message for a name that is neither an alias nor a UUID, given the name
/// in quotes.
pub fn unknown_name(found: &str) -> (message: String)
    ensures
        message@ == unknown_name_message(found@),
{
    let mut message: String =
        "expected \"builtin\" or a display UUID like \"84EFFBF0-1178-405C-9D64-3B574C1BE249\", found ".to_owned();
    message.append(found);
    message
}

/// Whether this is the UUID shape the window server uses for a display.
///
/// Checked so a misspelled alias such as `"buitlin"` is a config error rather
/// than a UUID that silently never matches any display.
pub fn is_display_uuid(s: &str) -> (r: bool)
    ensures
        r == has_uuid_shape(s@),
{
    let chars = text::characters(s);
    if chars.len() != 36 {
        return false;
    }
    let mut i: usize = 0;
    while i < 36
        invariant
            chars@ == s@,
            chars@.len() == 36,
            i <= 36,
            forall|j: int|
                0 <= j < i ==> if is_dash_place(j) {
                    #[trigger] s@[j] == '-'
                } else {
                    text::is_hex_digit(s@[j])
                },
        decreases 36 - i,
    {
        let expected = if i == 8 || i == 13 || i == 18 || i == 23 {
            chars[i] == '-'
        } else {
            text::is_ascii_hexdigit(chars[i])
        };
        if !expected {
            return false;
        }
        i += 1;
    }
    true
}

impl DisplaySelector {
    /// The name that config gives this selector.
    pub open spec fn name(self) -> Seq<char> {
        match self {
            DisplaySelector::Builtin => "builtin"@,
            DisplaySelector::Uuid(uuid) => uuid@,
        }
    }

    /// Reads a selector as config writes it: an alias of the built-in display,
    /// or a display UUID.
    pub fn parse(s: &str) -> (r: Result<DisplaySelector, String>)
        ensures
            match r {
                Ok(selector) => reads_as(s@, selector),
                Err(message) => {
                    &&& !is_builtin_alias(s@)
                    &&& !has_uuid_shape(s@)
                    &&& message@ == unknown_name_message(text::quoted(s@))
                },
            },
    {
        if text::eq_ignore_ascii_case(s, "builtin") || text::eq_ignore_ascii_case(s, "main")
            || text::eq_ignore_ascii_case(s, "primary") {
            Ok(DisplaySelector::Builtin)
        } else if is_display_uuid(s) {
            Ok(DisplaySelector::Uuid(s.to_owned()))
        } else {
            let found = text::quote(s);
            Err(unknown_name(found.as_str()))
        }
    }

    /// The text that config holds for this selector.
    pub fn as_str(&self) -> (r: &str)
        ensures
            r@ == self.name(),
    {
        match self {
            DisplaySelector::Builtin => "builtin",
            DisplaySelector::Uuid(uuid) => uuid.as_str(),
        }
    }
}

impl std::str::FromStr for DisplaySelector {
    type Err = String;

    fn from_str(s: &str) -> (r: Result<DisplaySelector, String>)
        ensures
            match r {
                Ok(selector) => reads_as(s@, selector),
                Err(message) => {
                    &&& !is_builtin_alias(s@)
                    &&& !has_uuid_shape(s@)
                    &&& message@ == unknown_name_message(text::quoted(s@))
                },
            },
    {
        DisplaySelector::parse(s)
    }
}

/// What is written for a selector reads back as that selector and no other,
/// wherever its UUID has the shape of one.
pub proof fn law_written_selector_reads_back(selector: DisplaySelector)
    requires
        selector matches DisplaySelector::Uuid(uuid) ==> has_uuid_shape(uuid@),
    ensures
        reads_as(selector.name(), selector),
        forall|other: DisplaySelector| #[trigger]
            reads_as(selector.name(), other) ==> {
                &&& (other is Builtin <==> selector is Builtin)
                &&& other.name() == selector.name()
            },
{
    law_no_alias_is_a_uuid(selector.name());
    reveal_strlit("builtin");
}

/// No text is both an alias of the built-in display and a UUID.
pub proof fn law_no_alias_is_a_uuid(s: Seq<char>)
    ensures
        !(is_builtin_alias(s) && has_uuid_shape(s)),
{
    reveal_strlit("builtin");
    reveal_strlit("main");
    reveal_strlit("primary");
}

} // verus!
