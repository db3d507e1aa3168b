use unicode_segmentation::UnicodeSegmentation;
use vstd::prelude::*;

use crate::domain::error::ValidationError;

verus! {

/// The most grapheme clusters a display name may have.
pub const MAX_NAME_GRAPHEMES: usize = 256;

/// A character with the Unicode `White_Space` property.
pub open spec fn is_white_space(c: char) -> bool {
    ('\u{9}' <= c && c <= '\u{d}') || c == ' ' || c == '\u{85}' || c == '\u{a0}'
        || c == '\u{1680}' || ('\u{2000}' <= c && c <= '\u{200a}') || c == '\u{2028}'
        || c == '\u{2029}' || c == '\u{202f}' || c == '\u{205f}' || c == '\u{3000}'
}

/// Nothing is left of `s` once leading and trailing whitespace is trimmed.
pub open spec fn is_blank(s: Seq<char>) -> bool {
    forall|i: int| 0 <= i < s.len() ==> is_white_space(#[trigger] s[i])
}

/// One of the characters that a display name may never hold.
pub open spec fn is_forbidden(c: char) -> bool {
    c == '/' || c == '(' || c == ')' || c == '"' || c == '<' || c == '>' || c == '\\'
        || c == '{' || c == '}'
}

pub open spec fn has_forbidden(s: Seq<char>) -> bool {
    exists|i: int| 0 <= i < s.len() && is_forbidden(#[trigger] s[i])
}

/// The number of extended grapheme clusters of `s`, as Unicode text
/// segmentation counts them.
pub uninterp spec fn grapheme_count(s: Seq<char>) -> nat;

/// What the name validator decides on `s`. The checks run in this order:
/// blank, then forbidden characters, then length.
pub open spec fn name_check(s: Seq<char>) -> Result<(), ValidationError> {
    if is_blank(s) {
        Err(ValidationError::EmptyOrWhitespace)
    } else if has_forbidden(s) {
        Err(ValidationError::ForbiddenCharacter)
    } else if grapheme_count(s) > MAX_NAME_GRAPHEMES {
        Err(ValidationError::TooLong)
    } else {
        Ok(())
    }
}

pub open spec fn is_valid_name_text(s: Seq<char>) -> bool {
    name_check(s) is Ok
}

/// What `SubscriberName::parse` gives for `s`: the text itself, or the first
/// rule that it breaks.
pub open spec fn parsed_name(s: Seq<char>) -> Result<Seq<char>, ValidationError> {
    match name_check(s) {
        Ok(()) => Ok(s),
        Err(e) => Err(e),
    }
}

/// The outcome of a parse, with a name seen as its text.
pub open spec fn name_result_view(r: Result<SubscriberName, ValidationError>) -> Result<
    Seq<char>,
    ValidationError,
> {
    match r {
        Ok(name) => Ok(name@),
        Err(e) => Err(e),
    }
}

/// A name whose trimmed form is empty (whitespace only, or nothing) is
/// refused as empty.
pub proof fn lemma_blank_name_is_refused(s: Seq<char>)
    requires
        is_blank(s),
    ensures
        parsed_name(s) == Err::<Seq<char>, ValidationError>(ValidationError::EmptyOrWhitespace),
{
}

/// A name of exactly 256 grapheme clusters is accepted and one of 257 is
/// refused as too long, when it is neither blank nor holds a forbidden
/// character.
pub proof fn lemma_name_length_limit(s: Seq<char>)
    requires
        !is_blank(s),
        !has_forbidden(s),
    ensures
        grapheme_count(s) == 256 ==> parsed_name(s) == Ok::<Seq<char>, ValidationError>(s),
        grapheme_count(s) == 257 ==> parsed_name(s) == Err::<Seq<char>, ValidationError>(
            ValidationError::TooLong,
        ),
{
}

/// A name that holds any of `/ ( ) " < > \ { }` is refused for that
/// character.
pub proof fn lemma_forbidden_character_is_refused(s: Seq<char>)
    requires
        has_forbidden(s),
    ensures
        parsed_name(s) == Err::<Seq<char>, ValidationError>(ValidationError::ForbiddenCharacter),
{
    let i = choose|i: int| 0 <= i < s.len() && is_forbidden(#[trigger] s[i]);
    assert(!is_white_space(s[i]));
}

/// Parsing a name is deterministic: two parses of the same text have the
/// same outcome.
pub proof fn lemma_parse_name_deterministic(
    s: Seq<char>,
    first: Result<SubscriberName, ValidationError>,
    second: Result<SubscriberName, ValidationError>,
)
    requires
        name_result_view(first) == parsed_name(s),
        name_result_view(second) == parsed_name(s),
    ensures
        name_result_view(first) == name_result_view(second),
{
}

/// Whether `c` has the Unicode `White_Space` property, as
/// `char::is_whitespace` tells.
fn char_is_whitespace(c: char) -> (r: bool)
    ensures
        r == is_white_space(c),
{
    ('\u{9}' <= c && c <= '\u{d}') || c == ' ' || c == '\u{85}' || c == '\u{a0}' || c == '\u{1680}'
        || ('\u{2000}' <= c && c <= '\u{200a}') || c == '\u{2028}' || c == '\u{2029}'
        || c == '\u{202f}' || c == '\u{205f}' || c == '\u{3000}'
}

/// Relies on `UnicodeSegmentation::graphemes` (extended clusters) and
/// `Iterator::count`: the number of grapheme clusters of `s`.
#[verifier::external_body]
fn count_graphemes(s: &str) -> (r: usize)
    ensures
        r as nat == grapheme_count(s@),
{
    s.graphemes(true).count()
}

fn is_blank_text(s: &str) -> (r: bool)
    ensures
        r == is_blank(s@),
{
    let n = s.unicode_len();
    let mut i: usize = 0;
    while i < n
        invariant
            n == s@.len(),
            i <= n,
            forall|j: int| 0 <= j < i ==> is_white_space(#[trigger] s@[j]),
        decreases n - i,
    {
        if !char_is_whitespace(s.get_char(i)) {
            return false;
        }
        i = i + 1;
    }
    true
}

fn has_forbidden_text(s: &str) -> (r: bool)
    ensures
        r == has_forbidden(s@),
{
    let n = s.unicode_len();
    let mut i: usize = 0;
    while i < n
        invariant
            n == s@.len(),
            i <= n,
            forall|j: int| 0 <= j < i ==> !is_forbidden(#[trigger] s@[j]),
        decreases n - i,
    {
        let c = s.get_char(i);
        if c == '/' || c == '(' || c == ')' || c == '"' || c == '<' || c == '>' || c == '\\'
            || c == '{' || c == '}' {
            return true;
        }
        i = i + 1;
    }
    false
}

/// Runs the name rules on `s`, in the order that `name_check` gives.
pub fn check_name(s: &str) -> (r: Result<(), ValidationError>)
    ensures
        r == name_check(s@),
{
    if is_blank_text(s) {
        Err(ValidationError::EmptyOrWhitespace)
    } else if has_forbidden_text(s) {
        Err(ValidationError::ForbiddenCharacter)
    } else if count_graphemes(s) > MAX_NAME_GRAPHEMES {
        Err(ValidationError::TooLong)
    } else {
        Ok(())
    }
}

/// A display name that passed validation.
#[derive(Debug)]
pub struct SubscriberName(String);

impl View for SubscriberName {
    type V = Seq<char>;

    closed spec fn view(&self) -> Seq<char> {
        self.0@
    }
}

impl SubscriberName {
    #[verifier::type_invariant]
    spec fn valid(self) -> bool {
        is_valid_name_text(self.0@)
    }

    /// Validates `s` as a display name.
    pub fn parse(s: String) -> (r: Result<SubscriberName, ValidationError>)
        ensures
            name_result_view(r) == parsed_name(s@),
    {
        match check_name(s.as_str()) {
            Ok(()) => Ok(SubscriberName(s)),
            Err(e) => Err(e),
        }
    }

    /// The validated text.
    pub fn inner_ref(&self) -> (r: &str)
        ensures
            r@ == self@,
            is_valid_name_text(r@),
    {
        proof {
            use_type_invariant(self);
        }
        self.0.as_str()
    }
}

impl AsRef<str> for SubscriberName {
    fn as_ref(&self) -> (r: &str)
        ensures
            r@ == self@,
    {
        self.0.as_str()
    }
}

} // verus!
