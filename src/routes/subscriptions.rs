use vstd::prelude::*;

use crate::domain::error::ValidationError;
use crate::domain::new_subscriber::NewSubscriber;
use crate::domain::subscriber_email::{email_check, SubscriberEmail};
use crate::domain::subscriber_name::{check_name, is_valid_name_text, name_check, SubscriberName};

verus! {

/// The raw fields of a signup form, not yet validated.
pub struct FormData {
    pub email: String,
    pub name: String,
}

/// The text of a form field; a missing field reads as empty.
pub open spec fn field_text(field: Option<String>) -> Seq<char> {
    match field {
        Some(s) => s@,
        None => Seq::empty(),
    }
}

impl FormData {
    /// Builds the form from decoded fields, either of which may be missing.
    pub fn from_fields(email: Option<String>, name: Option<String>) -> (r: FormData)
        ensures
            r.email@ == field_text(email),
            r.name@ == field_text(name),
    {
        let email = match email {
            Some(s) => s,
            None => String::new(),
        };
        let name = match name {
            Some(s) => s,
            None => String::new(),
        };
        FormData { email, name }
    }
}

/// What validation decides on a submission. The email address is checked
/// first, so a submission with two bad fields reports the email's error.
pub open spec fn submission_check(email: Seq<char>, name: Seq<char>) -> Result<(), ValidationError> {
    match email_check(email) {
        Err(e) => Err(e),
        Ok(()) => name_check(name),
    }
}

impl NewSubscriber {
    /// Validates both fields of `form` into a subscriber.
    pub fn parse_form(form: FormData) -> (r: Result<NewSubscriber, ValidationError>)
        ensures
            match r {
                Ok(sub) => submission_check(form.email@, form.name@) is Ok && sub.email@
                    == form.email@ && sub.name@ == form.name@,
                Err(e) => submission_check(form.email@, form.name@) == Err::<(), ValidationError>(
                    e,
                ),
            },
    {
        let email = match SubscriberEmail::parse(form.email) {
            Ok(email) => email,
            Err(e) => return Err(e),
        };
        let name = match SubscriberName::parse(form.name) {
            Ok(name) => name,
            Err(e) => return Err(e),
        };
        Ok(NewSubscriber { email, name })
    }
}

/// Whether `s` is an acceptable display name.
pub fn is_valid_name(s: &str) -> (r: bool)
    ensures
        r == is_valid_name_text(s@),
{
    check_name(s).is_ok()
}

/// A validated subscriber with the identifier and timestamp under which it is
/// stored.
#[derive(Debug)]
pub struct SubscriberRecord {
    /// A random (version 4) UUID, as a 128-bit big-endian number.
    pub id: u128,
    pub email: SubscriberEmail,
    pub name: SubscriberName,
    /// Microseconds since the Unix epoch, in UTC.
    pub subscribed_at: i64,
}

/// The version and variant bits of a random (version 4, RFC 4122) UUID.
pub open spec fn is_random_uuid(id: u128) -> bool {
    (id >> 76u128) & 0xfu128 == 4u128 && (id >> 62u128) & 0x3u128 == 2u128
}

/// Relies on `uuid::Uuid::new_v4` and `Uuid::as_u128`: a random number with
/// the version nibble set to 4 and the variant bits set to `10`.
#[verifier::external_body]
fn new_subscriber_id() -> (r: u128)
    ensures
        is_random_uuid(r),
{
    uuid::Uuid::new_v4().as_u128()
}

/// Relies on `chrono::Utc::now` and `DateTime::timestamp_micros`: the
/// current time, which nothing constrains.
#[verifier::external_body]
fn now_micros() -> (r: i64) {
    chrono::Utc::now().timestamp_micros()
}

impl SubscriberRecord {
    /// The record of `subscriber` under the given identifier and time.
    pub fn new(subscriber: NewSubscriber, id: u128, subscribed_at: i64) -> (r: SubscriberRecord)
        ensures
            r.id == id,
            r.email@ == subscriber.email@,
            r.name@ == subscriber.name@,
            r.subscribed_at == subscribed_at,
    {
        SubscriberRecord { id, email: subscriber.email, name: subscriber.name, subscribed_at }
    }
}

/// Why the store refused a record. The detail is meant for the operational
/// log and is never part of an outcome.
#[derive(Debug)]
pub struct StorageError {
    pub detail: String,
}

/// The caller-visible result of one registration.
#[derive(Debug, Clone, Copy, PartialEq, Eq, Structural)]
pub enum Outcome {
    /// The subscriber was stored.
    Accepted,
    /// The submission was invalid; nothing was stored.
    Rejected(ValidationError),
    /// The store failed; nothing is said of why.
    Failed,
}

pub open spec fn status_of(outcome: Outcome) -> u16 {
    match outcome {
        Outcome::Accepted => 200,
        Outcome::Rejected(_) => 400,
        Outcome::Failed => 500,
    }
}

pub open spec fn body_of(outcome: Outcome) -> Seq<char> {
    match outcome {
        Outcome::Rejected(e) => e.message_spec(),
        _ => Seq::empty(),
    }
}

impl Outcome {
    /// The HTTP status that answers this outcome.
    pub fn status_code(&self) -> (r: u16)
        ensures
            r == status_of(*self),
    {
        match self {
            Outcome::Accepted => 200,
            Outcome::Rejected(_) => 400,
            Outcome::Failed => 500,
        }
    }

    /// The response body: the reason of a rejection, empty otherwise.
    pub fn body(&self) -> (r: String)
        ensures
            r@ == body_of(*self),
    {
        match self {
            Outcome::Rejected(e) => e.message(),
            _ => String::new(),
        }
    }
}

/// What the pipeline asks for next after validation.
#[derive(Debug)]
pub enum RegistrationStep {
    /// Answer at once: the submission was refused.
    Respond(Outcome),
    /// Store this record, then answer with `finish_registration`.
    Persist(SubscriberRecord),
}

/// The answer to a submission that validation settles, or `None` when it
/// passes and goes on to the store.
pub open spec fn validation_outcome(email: Seq<char>, name: Seq<char>) -> Option<Outcome> {
    match submission_check(email, name) {
        Err(e) => Some(Outcome::Rejected(e)),
        Ok(()) => None,
    }
}

/// The answer once the store has replied.
pub open spec fn persistence_outcome(stored: Result<(), StorageError>) -> Outcome {
    match stored {
        Ok(()) => Outcome::Accepted,
        Err(_) => Outcome::Failed,
    }
}

/// A submission whose name is empty, or whose email or name is missing, is
/// answered with a 400-class rejection at validation, so no record is stored.
pub proof fn lemma_incomplete_submission_is_rejected(email: Option<String>, name: Option<String>)
    requires
        email is None || name is None || (name matches Some(n) && n@.len() == 0),
    ensures
        validation_outcome(field_text(email), field_text(name)) matches Some(o) && status_of(o)
            == 400,
{
}

/// A store that fails, for whatever reason, gives a 500-class answer whose
/// body is empty: nothing of the failure reaches the caller.
pub proof fn lemma_storage_failure_is_opaque(e: StorageError)
    ensures
        persistence_outcome(Err(e)) == Outcome::Failed,
        status_of(Outcome::Failed) == 500,
        body_of(Outcome::Failed).len() == 0,
{
}

/// Validates a submission and, when it passes, assigns a fresh identifier
/// and the current time to the record to store.
pub fn begin_registration(form: FormData) -> (r: RegistrationStep)
    ensures
        match r {
            RegistrationStep::Respond(o) => validation_outcome(form.email@, form.name@) == Some(o),
            RegistrationStep::Persist(rec) => {
                &&& validation_outcome(form.email@, form.name@) is None
                &&& rec.email@ == form.email@
                &&& rec.name@ == form.name@
                &&& is_random_uuid(rec.id)
            },
        },
{
    match NewSubscriber::parse_form(form) {
        Err(e) => RegistrationStep::Respond(Outcome::Rejected(e)),
        Ok(subscriber) => {
            let id = new_subscriber_id();
            let at = now_micros();
            RegistrationStep::Persist(SubscriberRecord::new(subscriber, id, at))
        },
    }
}

/// The answer to a registration whose record the store accepted or refused.
pub fn finish_registration(stored: Result<(), StorageError>) -> (r: Outcome)
    ensures
        r == persistence_outcome(stored),
{
    match stored {
        Ok(()) => Outcome::Accepted,
        Err(_) => Outcome::Failed,
    }
}

} // verus!
