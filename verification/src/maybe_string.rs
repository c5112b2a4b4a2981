//! A string that may be absent, in the shape that crosses a C boundary: a
//! text together with a flag that says whether the text counts.

use vstd::prelude::*;

verus! {

/// A text that counts only when `valid` is set.
pub struct MaybeString {
    pub string: String,
    pub valid: bool,
}

/// A `MaybeString` in plain values.
pub struct MaybeText {
    pub text: Seq<char>,
    pub valid: bool,
}

impl MaybeText {
    /// The text if it counts, nothing otherwise.
    pub open spec fn optional(self) -> Option<Seq<char>> {
        if self.valid {
            Some(self.text)
        } else {
            None
        }
    }

    /// The value for an optional text: valid with that text, or invalid
    /// with an empty text.
    pub open spec fn of(text: Option<Seq<char>>) -> MaybeText {
        match text {
            Some(text) => MaybeText { text, valid: true },
            None => MaybeText { text: Seq::empty(), valid: false },
        }
    }
}

impl MaybeString {
    /// The text and the flag.
    pub open spec fn view(&self) -> MaybeText {
        MaybeText { text: self.string@, valid: self.valid }
    }

    /// The text of a valid value, nothing otherwise.
    pub open spec fn text(&self) -> Option<Seq<char>> {
        self.view().optional()
    }

    /// A valid value that holds a copy of `s`.
    pub fn new(s: &String) -> (m: MaybeString)
        ensures
            m@ == (MaybeText { text: s@, valid: true }),
    {
        MaybeString { string: s.clone(), valid: true }
    }

    /// The absent value: invalid, with an empty text.
    pub fn none() -> (m: MaybeString)
        ensures
            m@ == MaybeText::of(None),
    {
        MaybeString { string: String::new(), valid: false }
    }
}

/// The text of an optional string.
pub open spec fn option_text(s: Option<String>) -> Option<Seq<char>> {
    match s {
        Some(s) => Some(s@),
        None => None,
    }
}

/// The text of a valid value as an owned string, nothing for an invalid one.
pub fn maybe_to_option_string(m_str: &MaybeString) -> (r: Option<String>)
    ensures
        m_str.valid <==> r.is_some(),
        m_str.valid ==> r.unwrap()@ == m_str.string@,
        option_text(r) == m_str.text(),
{
    if !m_str.valid {
        return None;
    }
    Some(m_str.string.clone())
}

/// The value for an optional text: valid with that text, or invalid with an
/// empty text.
pub fn option_to_maybe_string(os: Option<String>) -> (m: MaybeString)
    ensures
        m@ == MaybeText::of(option_text(os)),
{
    match os {
        Some(s) => MaybeString { string: s, valid: true },
        None => MaybeString { string: String::new(), valid: false },
    }
}

} // verus!
