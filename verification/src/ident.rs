//! Identifiers of inputs and parameters, and the rules they have to follow.

use vstd::prelude::*;

verus! {

/// Whether `c` is white space as `char::is_whitespace` classifies it.
pub uninterp spec fn is_whitespace(c: char) -> bool;

/// Whether `c` is a letter as `char::is_alphabetic` classifies it.
pub uninterp spec fn is_alphabetic(c: char) -> bool;

/// Whether `c` is a letter or a number as `char::is_alphanumeric` classifies it.
pub uninterp spec fn is_alphanumeric(c: char) -> bool;

/// Calls `char::is_whitespace`; the answer is taken on trust and named
/// [`is_whitespace`].
#[verifier::external_body]
fn char_is_whitespace(c: char) -> (r: bool)
    ensures
        r == is_whitespace(c),
{
    c.is_whitespace()
}

/// Calls `char::is_alphabetic`; the answer is taken on trust and named
/// [`is_alphabetic`].
#[verifier::external_body]
fn char_is_alphabetic(c: char) -> (r: bool)
    ensures
        r == is_alphabetic(c),
{
    c.is_alphabetic()
}

/// Calls `char::is_alphanumeric`; the answer is taken on trust and named
/// [`is_alphanumeric`].
#[verifier::external_body]
fn char_is_alphanumeric(c: char) -> (r: bool)
    ensures
        r == is_alphanumeric(c),
{
    c.is_alphanumeric()
}

/// Why a string cannot serve as an identifier.
#[derive(Clone, Copy, Debug, PartialEq, Eq, Structural)]
pub enum IdError {
    /// Some character is white space.
    Whitespace,
    /// The string has no characters.
    Empty,
    /// Some character is neither a letter, a number nor an underscore.
    NotAlphanumeric,
    /// The first character is not a letter.
    FirstNotAlphabetic,
}

impl IdError {
    /// The sentence that tells a user what is wrong.
    pub fn message(&self) -> (r: String)
        ensures
            r@ == id_error_message(*self),
    {
        match self {
            IdError::Whitespace => "Error: ID cannot contain whitespace characters".to_owned(),
            IdError::Empty => "Error: ID cannot be empty".to_owned(),
            IdError::NotAlphanumeric => "Error: ID must be alphanumeric".to_owned(),
            IdError::FirstNotAlphabetic => "Error: First letter must be alphabetic".to_owned(),
        }
    }
}

/// The sentence that goes with each broken rule.
pub open spec fn id_error_message(e: IdError) -> Seq<char> {
    match e {
        IdError::Whitespace => "Error: ID cannot contain whitespace characters"@,
        IdError::Empty => "Error: ID cannot be empty"@,
        IdError::NotAlphanumeric => "Error: ID must be alphanumeric"@,
        IdError::FirstNotAlphabetic => "Error: First letter must be alphabetic"@,
    }
}

/// Why an identifier cannot be declared in a context.
#[derive(Clone, Copy, Debug, PartialEq, Eq, Structural)]
pub enum IdentifierError {
    /// The context already binds the identifier.
    DuplicateIdentifier,
    /// The string breaks a rule for identifiers.
    InvalidIdentifier(IdError),
}

/// The sentence that goes with an identifier error.
pub open spec fn identifier_error_message(e: IdentifierError) -> Seq<char> {
    match e {
        IdentifierError::DuplicateIdentifier => "Error: Identifier already used"@,
        IdentifierError::InvalidIdentifier(reason) => id_error_message(reason),
    }
}

impl IdentifierError {
    /// The sentence that tells a user what is wrong.
    pub fn message(&self) -> (r: String)
        ensures
            r@ == identifier_error_message(*self),
    {
        match self {
            IdentifierError::DuplicateIdentifier => "Error: Identifier already used".to_owned(),
            IdentifierError::InvalidIdentifier(reason) => reason.message(),
        }
    }
}

/// A character that may appear in an identifier.
pub open spec fn is_word_char(c: char) -> bool {
    is_alphanumeric(c) || c == '_'
}

pub open spec fn has_whitespace(s: Seq<char>) -> bool {
    exists|i: int| 0 <= i < s.len() && is_whitespace(#[trigger] s[i])
}

pub open spec fn all_word_chars(s: Seq<char>) -> bool {
    forall|i: int| 0 <= i < s.len() ==> is_word_char(#[trigger] s[i])
}

/// The first rule that `s` breaks, in the order in which they are reported:
/// white space, emptiness, a foreign character, a first character that is
/// not a letter.
pub open spec fn id_error(s: Seq<char>) -> Option<IdError> {
    id_error_from(has_whitespace(s), s.len() == 0, all_word_chars(s), s.len() > 0 && is_alphabetic(s[0]))
}

/// The verdict on an identifier, given what a scan of it found.
pub open spec fn id_error_from(
    whitespace: bool,
    empty: bool,
    word_chars: bool,
    letter_first: bool,
) -> Option<IdError> {
    if whitespace {
        Some(IdError::Whitespace)
    } else if empty {
        Some(IdError::Empty)
    } else if !word_chars {
        Some(IdError::NotAlphanumeric)
    } else if !letter_first {
        Some(IdError::FirstNotAlphabetic)
    } else {
        None
    }
}

/// A valid identifier is not empty, holds only letters, numbers and
/// underscores, none of them white space, and starts with a letter.
pub open spec fn is_valid_id(s: Seq<char>) -> bool {
    &&& s.len() > 0
    &&& !has_whitespace(s)
    &&& all_word_chars(s)
    &&& is_alphabetic(s[0])
}

/// A string has no error exactly where it is a valid identifier, and a
/// string that breaks a rule has the error of the first rule it breaks:
/// white space before emptiness, emptiness before a foreign character, a
/// foreign character before a first character that is not a letter.
pub proof fn lemma_identifier_rules(id: Seq<char>)
    ensures
        is_valid_id(id) <==> id_error(id) is None,
        has_whitespace(id) ==> id_error(id) == Some(IdError::Whitespace),
        !has_whitespace(id) && id.len() == 0 ==> id_error(id) == Some(IdError::Empty),
        !has_whitespace(id) && id.len() > 0 && !all_word_chars(id) ==> id_error(id) == Some(
            IdError::NotAlphanumeric,
        ),
        !has_whitespace(id) && id.len() > 0 && all_word_chars(id) && !is_alphabetic(id[0])
            ==> id_error(id) == Some(IdError::FirstNotAlphabetic),
{
}

/// Whether some character of `s` is white space.
pub fn contains_whitespace(s: &str) -> (r: bool)
    ensures
        r == has_whitespace(s@),
{
    let mut found = false;
    for c in it: s.chars()
        invariant
            it.seq() == s@,
            found == exists|j: int| 0 <= j < it.index() && is_whitespace(#[trigger] s@[j]),
    {
        if char_is_whitespace(c) {
            found = true;
        }
    }
    found
}

/// Whether every character of `s` is a letter, a number or an underscore.
pub fn only_word_chars(s: &str) -> (r: bool)
    ensures
        r == all_word_chars(s@),
{
    let mut all = true;
    for c in it: s.chars()
        invariant
            it.seq() == s@,
            all == forall|j: int| 0 <= j < it.index() ==> is_word_char(#[trigger] s@[j]),
    {
        if !(char_is_alphanumeric(c) || c == '_') {
            all = false;
        }
    }
    all
}

/// Whether `s` starts with a letter.
pub fn starts_with_letter(s: &str) -> (r: bool)
    ensures
        r == (s@.len() > 0 && is_alphabetic(s@[0])),
{
    !s.is_empty() && char_is_alphabetic(s.get_char(0))
}

/// Decides on an identifier from what a scan of it found: whether it holds
/// white space, whether it is empty, whether all its characters are word
/// characters and whether its first character is a letter.
pub fn id_error_from_scan(
    whitespace: bool,
    empty: bool,
    word_chars: bool,
    letter_first: bool,
) -> (r: Option<IdError>)
    ensures
        r == id_error_from(whitespace, empty, word_chars, letter_first),
{
    if whitespace {
        Some(IdError::Whitespace)
    } else if empty {
        Some(IdError::Empty)
    } else if !word_chars {
        Some(IdError::NotAlphanumeric)
    } else if !letter_first {
        Some(IdError::FirstNotAlphabetic)
    } else {
        None
    }
}

/// Checks `id` against the rules for identifiers and reports the first one
/// it breaks, or `None` for a valid identifier.
pub fn has_id_error(id: &str) -> (r: Option<IdError>)
    ensures
        r == id_error(id@),
        r is None <==> is_valid_id(id@),
{
    let whitespace = contains_whitespace(id);
    let empty = id.is_empty();
    let word_chars = only_word_chars(id);
    let letter_first = starts_with_letter(id);
    id_error_from_scan(whitespace, empty, word_chars, letter_first)
}

} // verus!
