use pgkube::{Integration, IntegrationSpec, Rejection, ValidationError};

fn spec(service: &str, secret: Option<&str>) -> IntegrationSpec {
    IntegrationSpec { service: service.to_string(), secret: secret.map(|s| s.to_string()) }
}

fn stored(spec: IntegrationSpec) -> Integration {
    let mut obj = Integration::new("foo", spec);
    obj.metadata.namespace = Some("ns".to_string());
    obj.metadata.uid = Some("1234-abcd".to_string());
    obj
}

#[test]
fn service_of_three_characters_is_valid() {
    assert_eq!(spec("abc", None).validate(), Ok(()));
}

#[test]
fn service_of_two_characters_is_too_short() {
    assert_eq!(spec("ab", None).validate(), Err(ValidationError::ServiceTooShort));
}

#[test]
fn empty_service_is_too_short() {
    assert_eq!(spec("", None).validate(), Err(ValidationError::ServiceTooShort));
}

#[test]
fn service_length_counts_characters_not_bytes() {
    // Three characters in six bytes.
    assert_eq!("äöü".len(), 6);
    assert_eq!(spec("äöü", None).validate(), Ok(()));
    // Two characters in eight bytes.
    assert_eq!("🙂🙂".len(), 8);
    assert_eq!(spec("🙂🙂", None).validate(), Err(ValidationError::ServiceTooShort));
}

#[test]
fn secret_may_be_absent() {
    assert_eq!(spec("svc-A", None).validate(), Ok(()));
}

#[test]
fn secret_of_one_character_is_valid() {
    assert_eq!(spec("svc-A", Some("s")).validate(), Ok(()));
}

#[test]
fn empty_secret_is_too_short() {
    assert_eq!(spec("svc-A", Some("")).validate(), Err(ValidationError::SecretTooShort));
}

#[test]
fn secret_of_sixty_four_characters_is_valid() {
    let secret = "x".repeat(64);
    assert_eq!(spec("svc-A", Some(&secret)).validate(), Ok(()));
}

#[test]
fn secret_of_sixty_five_characters_is_too_long() {
    let secret = "x".repeat(65);
    assert_eq!(spec("svc-A", Some(&secret)).validate(), Err(ValidationError::SecretTooLong));
}

#[test]
fn secret_length_counts_characters_not_bytes() {
    let secret = "é".repeat(64);
    assert_eq!(secret.len(), 128);
    assert_eq!(spec("svc-A", Some(&secret)).validate(), Ok(()));
}

#[test]
fn service_is_checked_before_secret() {
    assert_eq!(spec("ab", Some("")).validate(), Err(ValidationError::ServiceTooShort));
}

#[test]
fn stored_resource_with_valid_spec_is_admitted() {
    assert_eq!(stored(spec("svc-A", Some("credential"))).check_admission(), Ok(()));
}

#[test]
fn short_service_is_rejected_at_admission() {
    let obj = stored(spec("ab", None));
    assert_eq!(
        obj.check_admission(),
        Err(Rejection::InvalidSpec(ValidationError::ServiceTooShort))
    );
}

#[test]
fn long_secret_is_rejected_at_admission() {
    let secret = "x".repeat(65);
    let obj = stored(spec("svc-A", Some(&secret)));
    assert_eq!(obj.check_admission(), Err(Rejection::InvalidSpec(ValidationError::SecretTooLong)));
}

#[test]
fn empty_secret_is_rejected_at_admission() {
    let obj = stored(spec("svc-A", Some("")));
    assert_eq!(
        obj.check_admission(),
        Err(Rejection::InvalidSpec(ValidationError::SecretTooShort))
    );
}

#[test]
fn resource_without_name_is_rejected() {
    let mut obj = stored(spec("svc-A", None));
    obj.metadata.name = None;
    assert_eq!(obj.check_admission(), Err(Rejection::MissingName));
}

#[test]
fn resource_without_namespace_is_rejected() {
    let mut obj = stored(spec("svc-A", None));
    obj.metadata.namespace = None;
    assert_eq!(obj.check_admission(), Err(Rejection::MissingNamespace));
}

#[test]
fn resource_without_uid_is_rejected() {
    let mut obj = stored(spec("svc-A", None));
    obj.metadata.uid = None;
    assert_eq!(obj.check_admission(), Err(Rejection::MissingUid));
}

#[test]
fn new_resource_is_not_stored_yet() {
    let obj = Integration::new("foo", spec("svc-A", None));
    assert_eq!(obj.metadata.name, Some("foo".to_string()));
    assert_eq!(obj.metadata.generate_name, None);
    assert_eq!(obj.metadata.namespace, None);
    assert_eq!(obj.metadata.uid, None);
    assert_eq!(obj.metadata.owner_references, None);
    assert_eq!(obj.status, None);
    assert_eq!(obj.spec, spec("svc-A", None));
    assert_eq!(obj.check_admission(), Err(Rejection::MissingNamespace));
}

#[test]
fn invalid_spec_is_reported_before_missing_identity() {
    let obj = Integration::new("foo", spec("ab", None));
    assert_eq!(
        obj.check_admission(),
        Err(Rejection::InvalidSpec(ValidationError::ServiceTooShort))
    );
}

#[test]
fn limits_are_three_one_and_sixty_four() {
    assert_eq!(pgkube::SERVICE_MIN_CHARS, 3);
    assert_eq!(pgkube::SECRET_MIN_CHARS, 1);
    assert_eq!(pgkube::SECRET_MAX_CHARS, 64);
}
