use vstd::prelude::*;

use crate::domain::error::ValidationError;

verus! {

/// Whether the address grammar accepts `s` (HTML5's valid e-mail address,
/// with the local part at most 64 and the domain at most 255 characters).
pub uninterp spec fn email_grammar_accepts(s: Seq<char>) -> bool;

/// `s` holds exactly one `@`, with at least one character before it and
/// one after it.
pub open spec fn has_one_inner_at(s: Seq<char>) -> bool {
    exists|i: int|
        0 < i < s.len() - 1 && s[i] == '@' && forall|j: int|
            0 <= j < s.len() && j != i ==> #[trigger] s[j] != '@'
}

/// A character that a common local part may hold: an ASCII letter or digit,
/// or one of `. _ + -`.
pub open spec fn is_common_local_char(c: char) -> bool {
    ('a' <= c && c <= 'z') || ('A' <= c && c <= 'Z') || ('0' <= c && c <= '9') || c == '.'
        || c == '_' || c == '+' || c == '-'
}

pub open spec fn is_ascii_alphanumeric(c: char) -> bool {
    ('a' <= c && c <= 'z') || ('A' <= c && c <= 'Z') || ('0' <= c && c <= '9')
}

/// `d` is one or more labels of 1 to 63 ASCII letters and digits, separated
/// by single dots.
pub open spec fn is_dotted_domain(d: Seq<char>) -> bool {
    &&& d.len() > 0
    &&& d[0] != '.'
    &&& d[d.len() - 1] != '.'
    &&& forall|k: int| 0 <= k < d.len() ==> is_ascii_alphanumeric(#[trigger] d[k]) || d[k] == '.'
    &&& forall|k: int| 0 <= k < d.len() - 1 && #[trigger] d[k] == '.' ==> d[k + 1] != '.'
    &&& forall|k: int|
        0 <= k && k + 64 <= d.len() ==> #[trigger] d.subrange(k, k + 64).contains('.')
}

/// `s` is a common address `local@domain.tld`: a local part of 1 to 64
/// common characters, one `@`, and a dotted domain of at most 255 characters.
pub open spec fn is_common_address(s: Seq<char>) -> bool {
    exists|i: int|
        1 <= i <= 64 && i < s.len() && #[trigger] s[i] == '@' && (forall|j: int|
            0 <= j < i ==> is_common_local_char(#[trigger] s[j])) && is_dotted_domain(
            s.subrange(i + 1, s.len() as int),
        ) && s.len() - (i + 1) <= 255
}

/// What the email validator decides on `s`. The grammar accepts every common
/// address and nothing without exactly one `@` between a local part and a
/// domain; the first two conditions spell that out.
pub open spec fn email_check(s: Seq<char>) -> Result<(), ValidationError> {
    if is_common_address(s) || (has_one_inner_at(s) && email_grammar_accepts(s)) {
        Ok(())
    } else {
        Err(ValidationError::InvalidFormat)
    }
}

/// What `SubscriberEmail::parse` gives for `s`: the address itself, or the
/// format error.
pub open spec fn parsed_email(s: Seq<char>) -> Result<Seq<char>, ValidationError> {
    match email_check(s) {
        Ok(()) => Ok(s),
        Err(e) => Err(e),
    }
}

/// The outcome of a parse, with an address seen as its text.
pub open spec fn email_result_view(r: Result<SubscriberEmail, ValidationError>) -> Result<
    Seq<char>,
    ValidationError,
> {
    match r {
        Ok(email) => Ok(email@),
        Err(e) => Err(e),
    }
}

/// Parsing an email address is deterministic: two parses of the same text
/// have the same outcome.
pub proof fn lemma_parse_email_deterministic(
    s: Seq<char>,
    first: Result<SubscriberEmail, ValidationError>,
    second: Result<SubscriberEmail, ValidationError>,
)
    requires
        email_result_view(first) == parsed_email(s),
        email_result_view(second) == parsed_email(s),
    ensures
        email_result_view(first) == email_result_view(second),
{
}

/// Every common address `local@domain.tld` is accepted as it is.
pub proof fn lemma_common_address_is_accepted(s: Seq<char>)
    requires
        is_common_address(s),
    ensures
        parsed_email(s) == Ok::<Seq<char>, ValidationError>(s),
{
}

/// Relies on `validator::validate_email`. Its source refuses an empty string
/// and one without `@`, splits at the last `@`, and asks for a non-empty local
/// part of characters other than `@` and a non-empty domain part. It accepts
/// a local part of at most 64 characters that its user pattern matches (ASCII
/// letters, digits and `. _ + -` among them), with a domain of at most 255
/// characters that its domain pattern matches (dot-separated labels of 1 to
/// 63 letters and digits among them).
#[verifier::external_body]
fn validate_email_text(s: &str) -> (r: bool)
    ensures
        r == email_grammar_accepts(s@),
        r ==> has_one_inner_at(s@),
        is_common_address(s@) ==> r,
{
    validator::validate_email(s)
}

/// An email address that passed validation.
#[derive(Debug)]
pub struct SubscriberEmail(String);

impl View for SubscriberEmail {
    type V = Seq<char>;

    closed spec fn view(&self) -> Seq<char> {
        self.0@
    }
}

impl SubscriberEmail {
    #[verifier::type_invariant]
    spec fn valid(self) -> bool {
        email_check(self.0@) is Ok
    }

    /// Validates `s` as an email address.
    pub fn parse(s: String) -> (r: Result<SubscriberEmail, ValidationError>)
        ensures
            email_result_view(r) == parsed_email(s@),
            r is Ok <==> email_grammar_accepts(s@),
    {
        if validate_email_text(s.as_str()) {
            Ok(SubscriberEmail(s))
        } else {
            Err(ValidationError::InvalidFormat)
        }
    }

    /// The validated text.
    pub fn inner_ref(&self) -> (r: &str)
        ensures
            r@ == self@,
            email_check(r@) is Ok,
    {
        proof {
            use_type_invariant(self);
        }
        self.0.as_str()
    }
}

impl AsRef<str> for SubscriberEmail {
    fn as_ref(&self) -> (r: &str)
        ensures
            r@ == self@,
    {
        self.0.as_str()
    }
}

} // verus!
