//! A read-only view over user-supplied text that answers structural questions.
use vstd::prelude::*;
use vstd::string::StrSliceExecFns;

verus! {

/// Number of extended grapheme clusters (user-perceived characters) in `s`.
pub uninterp spec fn grapheme_count(s: Seq<char>) -> nat;

/// Relies on `StringValidator::count_graphemes` of cjtoolkit_structured_validator,
/// which counts the extended grapheme clusters of the text with unicode-segmentation;
/// the empty text has no cluster.
#[verifier::external_body]
fn count_graphemes_of(s: &str) -> (r: usize)
    ensures
        r as nat == grapheme_count(s@),
        s@.len() == 0 ==> r == 0,
{
    cjtoolkit_structured_validator::common::string_validator::StrValidationExtension::as_string_validator(
        &s,
    ).count_graphemes()
}

pub open spec fn is_ascii_uppercase(c: char) -> bool {
    'A' as u32 <= c as u32 <= 'Z' as u32
}

pub open spec fn is_ascii_lowercase(c: char) -> bool {
    'a' as u32 <= c as u32 <= 'z' as u32
}

pub open spec fn is_ascii_digit(c: char) -> bool {
    '0' as u32 <= c as u32 <= '9' as u32
}

/// ASCII whitespace as Rust defines it: space, tab, line feed, form feed, carriage return.
pub open spec fn is_ascii_whitespace(c: char) -> bool {
    c == ' ' || c == '\t' || c == '\n' || c as u32 == 12 || c == '\r'
}

/// A special character is neither an ASCII letter, nor an ASCII digit, nor ASCII whitespace.
pub open spec fn is_special(c: char) -> bool {
    !is_ascii_uppercase(c) && !is_ascii_lowercase(c) && !is_ascii_digit(c)
        && !is_ascii_whitespace(c)
}

pub open spec fn has_uppercase(s: Seq<char>) -> bool {
    exists|i: int| 0 <= i < s.len() && is_ascii_uppercase(#[trigger] s[i])
}

pub open spec fn has_lowercase(s: Seq<char>) -> bool {
    exists|i: int| 0 <= i < s.len() && is_ascii_lowercase(#[trigger] s[i])
}

pub open spec fn has_digit(s: Seq<char>) -> bool {
    exists|i: int| 0 <= i < s.len() && is_ascii_digit(#[trigger] s[i])
}

pub open spec fn has_special(s: Seq<char>) -> bool {
    exists|i: int| 0 <= i < s.len() && is_special(#[trigger] s[i])
}

/// The classes of characters that the inspector can look for.
#[derive(Clone, Copy, PartialEq, Eq)]
pub enum CharClass {
    Uppercase,
    Lowercase,
    Digit,
    Special,
}

pub open spec fn in_class(class: CharClass, c: char) -> bool {
    match class {
        CharClass::Uppercase => is_ascii_uppercase(c),
        CharClass::Lowercase => is_ascii_lowercase(c),
        CharClass::Digit => is_ascii_digit(c),
        CharClass::Special => is_special(c),
    }
}

fn char_in_class(class: CharClass, c: char) -> (r: bool)
    ensures
        r == in_class(class, c),
{
    let u = c as u32;
    match class {
        CharClass::Uppercase => 65 <= u && u <= 90,
        CharClass::Lowercase => 97 <= u && u <= 122,
        CharClass::Digit => 48 <= u && u <= 57,
        CharClass::Special => {
            !(65 <= u && u <= 90) && !(97 <= u && u <= 122) && !(48 <= u && u <= 57) && u != 32
                && u != 9 && u != 10 && u != 12 && u != 13
        },
    }
}

/// Whether some character of `s` falls in `class`.
fn contains_class(s: &str, class: CharClass) -> (r: bool)
    ensures
        r == exists|i: int| 0 <= i < s@.len() && in_class(class, #[trigger] s@[i]),
{
    let n = s.unicode_len();
    let mut i: usize = 0;
    while i < n
        invariant
            n == s@.len(),
            i <= n,
            forall|j: int| 0 <= j < i ==> !in_class(class, #[trigger] s@[j]),
        decreases n - i,
    {
        if char_in_class(class, s.get_char(i)) {
            return true;
        }
        i += 1;
    }
    false
}

/// Wraps a text and answers structural questions about it. The text never changes.
pub struct StringInspector {
    text: String,
}

impl View for StringInspector {
    type V = Seq<char>;

    closed spec fn view(&self) -> Seq<char> {
        self.text@
    }
}

impl StringInspector {
    pub fn new(text: String) -> (r: Self)
        ensures
            r@ == text@,
    {
        StringInspector { text }
    }

    pub fn from_str(text: &str) -> (r: Self)
        ensures
            r@ == text@,
    {
        StringInspector { text: text.to_string() }
    }

    pub fn as_str(&self) -> (r: &str)
        ensures
            r@ == self@,
    {
        self.text.as_str()
    }

    /// True iff the text has no character at all.
    pub fn is_empty(&self) -> (r: bool)
        ensures
            r == (self@.len() == 0),
    {
        self.text.as_str().is_empty()
    }

    pub fn count_graphemes(&self) -> (r: usize)
        ensures
            r as nat == grapheme_count(self@),
            self@.len() == 0 ==> r == 0,
    {
        count_graphemes_of(self.text.as_str())
    }

    pub fn has_ascii_uppercase(&self) -> (r: bool)
        ensures
            r == has_uppercase(self@),
    {
        contains_class(self.text.as_str(), CharClass::Uppercase)
    }

    pub fn has_ascii_lowercase(&self) -> (r: bool)
        ensures
            r == has_lowercase(self@),
    {
        contains_class(self.text.as_str(), CharClass::Lowercase)
    }

    pub fn has_ascii_uppercase_and_lowercase(&self) -> (r: bool)
        ensures
            r == (has_uppercase(self@) && has_lowercase(self@)),
    {
        self.has_ascii_uppercase() && self.has_ascii_lowercase()
    }

    pub fn has_ascii_digit(&self) -> (r: bool)
        ensures
            r == has_digit(self@),
    {
        contains_class(self.text.as_str(), CharClass::Digit)
    }

    pub fn has_special_chars(&self) -> (r: bool)
        ensures
            r == has_special(self@),
    {
        contains_class(self.text.as_str(), CharClass::Special)
    }
}

} // verus!
