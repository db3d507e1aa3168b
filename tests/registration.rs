use zero2prod::domain::{NewSubscriber, ValidationError};
use zero2prod::routes::{
    begin_registration, finish_registration, FormData, Outcome, RegistrationStep, StorageError,
};

fn form(email: Option<&str>, name: Option<&str>) -> FormData {
    FormData::from_fields(email.map(|s| s.to_string()), name.map(|s| s.to_string()))
}

#[test]
fn subscribe_returns_200_for_valid_form_data() {
    let step = begin_registration(form(Some("ursula_le_guin@gmail.com"), Some("le guin")));
    let record = match step {
        RegistrationStep::Persist(record) => record,
        RegistrationStep::Respond(o) => panic!("refused: {:?}", o),
    };
    assert_eq!(record.email.inner_ref(), "ursula_le_guin@gmail.com");
    assert_eq!(record.name.inner_ref(), "le guin");
    let outcome = finish_registration(Ok(()));
    assert_eq!(outcome, Outcome::Accepted);
    assert_eq!(200, outcome.status_code());
}

#[test]
fn subscribe_returns_400_when_data_is_missing() {
    let test_cases = vec![
        (form(None, Some("le guin")), "missing the email"),
        (form(Some("ursula_le_guin@gmail.com"), Some("")), "name is empty"),
        (form(Some("ursula_le_guin@gmail.com"), None), "missing the name"),
        (form(None, None), "missing both name and email"),
    ];
    for (invalid_body, error_message) in test_cases {
        match begin_registration(invalid_body) {
            RegistrationStep::Respond(outcome) => assert_eq!(
                400,
                outcome.status_code(),
                "The API did not fail with 400 Bad Request when the payload was {}",
                error_message
            ),
            RegistrationStep::Persist(_) => panic!("stored a record when {}", error_message),
        }
    }
}

#[test]
fn email_error_is_reported_when_both_fields_are_bad() {
    match begin_registration(form(Some("not-an-email"), Some("a<b"))) {
        RegistrationStep::Respond(o) => {
            assert_eq!(o, Outcome::Rejected(ValidationError::InvalidFormat));
            assert_eq!(o.body(), "email is not a valid address");
        }
        RegistrationStep::Persist(_) => panic!("stored an invalid submission"),
    }
    match begin_registration(form(Some("ursula_le_guin@gmail.com"), Some("a<b"))) {
        RegistrationStep::Respond(o) => {
            assert_eq!(o, Outcome::Rejected(ValidationError::ForbiddenCharacter));
            assert_eq!(o.body(), "name contains a forbidden character");
        }
        RegistrationStep::Persist(_) => panic!("stored an invalid submission"),
    }
}

#[test]
fn storage_failure_gives_500_without_detail() {
    let outcome = finish_registration(Err(StorageError {
        detail: "connection refused by db.internal:5432".to_string(),
    }));
    assert_eq!(outcome, Outcome::Failed);
    assert_eq!(outcome.status_code(), 500);
    assert_eq!(outcome.body(), "");
}

#[test]
fn accepted_outcome_has_empty_body() {
    assert_eq!(Outcome::Accepted.body(), "");
    assert_eq!(Outcome::Rejected(ValidationError::TooLong).status_code(), 400);
}

#[test]
fn records_get_random_uuids() {
    let mut ids = Vec::new();
    for _ in 0..3 {
        match begin_registration(form(Some("ursula_le_guin@gmail.com"), Some("le guin"))) {
            RegistrationStep::Persist(record) => {
                assert_eq!((record.id >> 76) & 0xf, 4);
                assert_eq!((record.id >> 62) & 0x3, 2);
                ids.push(record.id);
            }
            RegistrationStep::Respond(o) => panic!("refused: {:?}", o),
        }
    }
    assert!(ids[0] != ids[1] && ids[1] != ids[2] && ids[0] != ids[2]);
}

#[test]
fn parse_form_builds_the_subscriber() {
    let sub = NewSubscriber::parse_form(form(Some("a@b.co"), Some("Ursula"))).unwrap();
    assert_eq!(sub.email.inner_ref(), "a@b.co");
    assert_eq!(sub.name.inner_ref(), "Ursula");
    let err = NewSubscriber::parse_form(form(Some("a@b.co"), Some(" "))).unwrap_err();
    assert_eq!(err, ValidationError::EmptyOrWhitespace);
}

#[test]
fn missing_fields_read_as_empty() {
    let f = form(None, Some("x"));
    assert_eq!(f.email, "");
    assert_eq!(f.name, "x");
}
