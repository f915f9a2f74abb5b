use pgkube::{
    conclude, create_secret, error_policy, patch_secret, patch_status, provision, reconcile,
    synchronize, try_reconcile, Action, Error, Event, Integration, IntegrationSpec,
    IntegrationStatus, Outcome, PGIntegration, ProvisionPath, Rejection, Secret, Step, SyncReport,
    ValidationError,
};

fn resource(name: &str, namespace: &str, uid: &str) -> Integration {
    let spec = IntegrationSpec { service: "svc-A".to_string(), secret: None };
    let mut obj = Integration::new(name, spec);
    obj.metadata.namespace = Some(namespace.to_string());
    obj.metadata.uid = Some(uid.to_string());
    obj
}

fn provisioned(key: &str) -> PGIntegration {
    PGIntegration {
        url: "https://integration".to_string(),
        service: "https://service".to_string(),
        key: key.to_string(),
    }
}

fn applied(obj: &Integration) -> Secret {
    create_secret(obj, "k".to_string()).unwrap()
}

fn updated(namespace: &str, name: &str) -> SyncReport {
    SyncReport::Updated { namespace: Some(namespace.to_string()), name: name.to_string() }
}

fn api_error(report: &str) -> Error {
    Error::KubeAPI(report.to_string())
}

#[test]
fn pass_begins_with_provisioning() {
    let obj = resource("foo", "ns", "u-1");
    assert_eq!(reconcile(&obj, Event::Triggered), Step::Provision(ProvisionPath::Create));
}

#[test]
fn pass_over_a_provisioned_resource_begins_with_a_fetch() {
    let mut obj = resource("foo", "ns", "u-1");
    obj.status = Some(IntegrationStatus { integration: Some("https://x".to_string()), error: None });
    assert_eq!(reconcile(&obj, Event::Triggered), Step::Provision(ProvisionPath::Fetch));
}

#[test]
fn failed_provisioning_ends_the_pass_with_a_retry() {
    let obj = resource("foo", "ns", "u-1");
    assert_eq!(
        reconcile(&obj, Event::Provisioned(Err(Error::Unknown))),
        Step::Requeue(Action { requeue_after: Some(30) }, Outcome::NotProvisioned(Error::Unknown))
    );
}

#[test]
fn failed_provisioning_keeps_the_error() {
    let obj = resource("foo", "ns", "u-1");
    let step = reconcile(&obj, Event::Provisioned(Err(api_error("503"))));
    assert_eq!(
        step,
        Step::Requeue(Action::requeue(30), Outcome::NotProvisioned(api_error("503")))
    );
}

#[test]
fn provisioning_is_followed_by_both_requests() {
    let obj = resource("foo", "ns", "u-1");
    let step = reconcile(&obj, Event::Provisioned(Ok(provisioned("R0UT1NG"))));
    let secret = create_secret(&obj, "R0UT1NG".to_string()).unwrap();
    assert_eq!(
        step,
        Step::Synchronize(
            patch_secret(secret).unwrap(),
            patch_status(provisioned("R0UT1NG"), &obj).unwrap()
        )
    );
}

#[test]
fn synchronize_builds_both_requests() {
    let obj = resource("foo", "ns", "u-1");
    let (secret, status) = synchronize(&obj, provisioned("R0UT1NG"));
    assert_eq!(secret.namespace, "ns");
    assert_eq!(secret.name, "foo");
    assert_eq!(
        secret.secret.string_data,
        Some(vec![("key".to_string(), "R0UT1NG".to_string())])
    );
    assert_eq!(status.namespace, "ns");
    assert_eq!(status.name, "foo");
    assert_eq!(status.integration, Some("https://integration".to_string()));
}

#[test]
fn both_succeeded_requeues_in_an_hour() {
    let obj = resource("foo", "ns", "u-1");
    let step = reconcile(&obj, Event::Synchronized(Ok(applied(&obj)), Ok(obj.clone())));
    assert_eq!(
        step,
        Step::Requeue(
            Action { requeue_after: Some(3600) },
            Outcome::Synchronized { secret: updated("ns", "foo"), status: updated("ns", "foo") }
        )
    );
}

#[test]
fn secret_failed_requeues_in_thirty_seconds_and_keeps_the_status() {
    let obj = resource("foo", "ns", "u-1");
    let step = reconcile(&obj, Event::Synchronized(Err(api_error("409")), Ok(obj.clone())));
    assert_eq!(
        step,
        Step::Requeue(
            Action { requeue_after: Some(30) },
            Outcome::Synchronized {
                secret: SyncReport::Failed(api_error("409")),
                status: updated("ns", "foo"),
            }
        )
    );
}

#[test]
fn status_failed_requeues_in_thirty_seconds_and_keeps_the_secret() {
    let obj = resource("foo", "ns", "u-1");
    let step = reconcile(&obj, Event::Synchronized(Ok(applied(&obj)), Err(api_error("403"))));
    assert_eq!(
        step,
        Step::Requeue(
            Action { requeue_after: Some(30) },
            Outcome::Synchronized {
                secret: updated("ns", "foo"),
                status: SyncReport::Failed(api_error("403")),
            }
        )
    );
}

#[test]
fn both_failed_requeues_in_thirty_seconds_and_keeps_both_errors() {
    let obj = resource("foo", "ns", "u-1");
    let step = reconcile(&obj, Event::Synchronized(Err(api_error("409")), Err(Error::Unknown)));
    assert_eq!(
        step,
        Step::Requeue(
            Action { requeue_after: Some(30) },
            Outcome::Synchronized {
                secret: SyncReport::Failed(api_error("409")),
                status: SyncReport::Failed(Error::Unknown),
            }
        )
    );
}

#[test]
fn conclude_covers_all_four_combinations() {
    let obj = resource("foo", "ns", "u-1");
    let ok_secret = || Ok(applied(&obj));
    let ok_status = || Ok(obj.clone());
    assert_eq!(conclude(ok_secret(), ok_status()).0.requeue_after, Some(3600));
    assert_eq!(conclude(Err(api_error("500")), ok_status()).0.requeue_after, Some(30));
    assert_eq!(conclude(ok_secret(), Err(api_error("500"))).0.requeue_after, Some(30));
    assert_eq!(conclude(Err(api_error("500")), Err(api_error("500"))).0.requeue_after, Some(30));
}

#[test]
fn report_names_the_object_that_came_back() {
    let obj = resource("foo", "ns", "u-1");
    let mut secret = applied(&obj);
    secret.metadata.name = None;
    secret.metadata.generate_name = Some("gen-".to_string());
    secret.metadata.namespace = None;
    let (_, outcome) = conclude(Ok(secret), Ok(resource("bar", "other", "u-2")));
    assert_eq!(
        outcome,
        Outcome::Synchronized {
            secret: SyncReport::Updated { namespace: None, name: "gen-".to_string() },
            status: updated("other", "bar"),
        }
    );
}

#[test]
fn every_event_is_answered_without_an_error() {
    let obj = resource("foo", "ns", "u-1");
    let ends = |step: Step| matches!(step, Step::Requeue(Action { requeue_after: Some(_) }, _));
    assert!(ends(reconcile(&obj, Event::Provisioned(Err(Error::Unknown)))));
    assert!(ends(reconcile(&obj, Event::Synchronized(Err(Error::Unknown), Err(Error::Unknown)))));
    assert!(ends(reconcile(&obj, Event::Synchronized(Ok(applied(&obj)), Ok(obj.clone())))));
}

#[test]
fn whole_pass_with_the_crates_provisioner() {
    let obj = resource("foo", "ns", "u-1");
    let step = reconcile(&obj, Event::Provisioned(provision(&obj)));
    match step {
        Step::Synchronize(secret, status) => {
            assert_eq!(
                secret.secret.string_data,
                Some(vec![("key".to_string(), "foo".to_string())])
            );
            assert_eq!(
                status.integration,
                Some("https://api.pagerduty.com/services/PQL78HM/integrations/PABCDEF".to_string())
            );
        }
        other => panic!("expected both requests, got {:?}", other),
    }
}

#[test]
fn requeue_builds_the_action() {
    assert_eq!(Action::requeue(7), Action { requeue_after: Some(7) });
}

#[test]
fn intervals_are_an_hour_thirty_seconds_and_five_seconds() {
    assert_eq!(pgkube::REQUEUE_STEADY_SECS, 60 * 60);
    assert_eq!(pgkube::REQUEUE_RETRY_SECS, 30);
    assert_eq!(pgkube::REQUEUE_ERROR_SECS, 5);
}

#[test]
fn error_policy_is_a_short_fixed_delay() {
    let obj = resource("foo", "ns", "u-1");
    assert_eq!(error_policy(&obj, &Error::Unknown), Action { requeue_after: Some(5) });
    assert_eq!(error_policy(&obj, &api_error("500")), Action { requeue_after: Some(5) });
}

#[test]
fn error_messages() {
    assert_eq!(api_error("connection reset").message(), "Kube API Error");
    assert_eq!(Error::Unknown.message(), "Unknown");
}

#[test]
fn try_reconcile_answers_as_reconcile_for_an_admitted_resource() {
    let obj = resource("foo", "ns", "u-1");
    assert_eq!(try_reconcile(&obj, Event::Triggered), Ok(reconcile(&obj, Event::Triggered)));
    assert_eq!(
        try_reconcile(&obj, Event::Provisioned(Ok(provisioned("k")))),
        Ok(reconcile(&obj, Event::Provisioned(Ok(provisioned("k")))))
    );
    assert_eq!(
        try_reconcile(&obj, Event::Synchronized(Err(Error::Unknown), Ok(obj.clone()))),
        Ok(reconcile(&obj, Event::Synchronized(Err(Error::Unknown), Ok(obj.clone()))))
    );
}

#[test]
fn try_reconcile_turns_a_short_service_away() {
    let mut obj = resource("foo", "ns", "u-1");
    obj.spec.service = "ab".to_string();
    assert_eq!(
        try_reconcile(&obj, Event::Triggered),
        Err(Rejection::InvalidSpec(ValidationError::ServiceTooShort))
    );
    assert_eq!(
        try_reconcile(&obj, Event::Provisioned(Ok(provisioned("k")))),
        Err(Rejection::InvalidSpec(ValidationError::ServiceTooShort))
    );
}

#[test]
fn try_reconcile_turns_a_resource_without_identity_away() {
    let spec = IntegrationSpec { service: "svc-A".to_string(), secret: None };
    let mut obj = Integration::new("foo", spec);
    assert_eq!(try_reconcile(&obj, Event::Triggered), Err(Rejection::MissingNamespace));
    obj.metadata.namespace = Some("ns".to_string());
    assert_eq!(try_reconcile(&obj, Event::Triggered), Err(Rejection::MissingUid));
    obj.metadata.uid = Some("u-1".to_string());
    obj.metadata.name = None;
    assert_eq!(try_reconcile(&obj, Event::Triggered), Err(Rejection::MissingName));
}
