use istio_injection_policy::{
    check_namespace, check_pod, classify, inspect, validate, Finding, ResourceKind, Settings,
    TextMap, Verdict,
};

fn document(text: &str) -> serde_json::Value {
    serde_json::from_str(text).unwrap()
}

fn pairs(list: &[(&str, &str)]) -> Vec<(String, String)> {
    list.iter().map(|(key, value)| (key.to_string(), value.to_string())).collect()
}

fn settings(namespaces: &[&str], pod_labels: &[(&str, &str)]) -> Settings {
    Settings {
        excluded_namespaces: namespaces.iter().map(|name| name.to_string()).collect(),
        excluded_pod_labels: TextMap::from_pairs(&pairs(pod_labels)),
    }
}

const NAMESPACE_DISABLED: &str = r#"{
    "apiVersion": "v1",
    "kind": "Namespace",
    "metadata": {
        "name": "foo",
        "labels": {
            "istio-injection": "disabled",
            "kubernetes.io/metadata.name": "foo"
        }
    }
}"#;

const POD_ENABLED: &str = r#"{
    "apiVersion": "v1",
    "kind": "Pod",
    "metadata": {
        "name": "nginx",
        "namespace": "default",
        "labels": { "app": "nginx" },
        "annotations": { "sidecar.istio.io/inject": "true" }
    },
    "spec": {
        "containers": [ { "name": "nginx", "image": "nginx:1.25" } ]
    }
}"#;

fn reject(text: &str) -> Verdict {
    Verdict::Reject(Some(text.to_string()))
}

#[test]
fn deny_request_with_istio_disabled_namespace() -> Result<(), ()> {
    let excluded_namespaces = vec!["bar".to_string()];
    let excluded_pod_labels =
        TextMap::from_pairs(&vec![("istioException".to_string(), "enabled".to_string())]);
    let settings = Settings { excluded_namespaces, excluded_pod_labels };

    let verdict = validate(&settings, "Namespace", document(NAMESPACE_DISABLED));
    assert!(
        matches!(verdict, Verdict::Reject(_)),
        "Something mutated with test case: {}",
        "Namespace Creation"
    );
    assert_eq!(verdict, reject("Namespace 'foo' is not istio enabled."));
    Ok(())
}

#[test]
fn accept_request_with_excluded_namespace() -> Result<(), ()> {
    let excluded_namespaces = vec!["foo".to_string()];
    let excluded_pod_labels =
        TextMap::from_pairs(&vec![("istioException".to_string(), "enabled".to_string())]);
    let settings = Settings { excluded_namespaces, excluded_pod_labels };

    let verdict = validate(&settings, "Namespace", document(NAMESPACE_DISABLED));
    assert!(
        verdict == Verdict::Accept,
        "Something mutated with test case: {}",
        "Namespace Creation"
    );
    Ok(())
}

#[test]
fn accept_request_with_istio_enabled_pod() -> Result<(), ()> {
    let excluded_namespaces = vec!["foo".to_string()];
    let excluded_pod_labels =
        TextMap::from_pairs(&vec![("istioException".to_string(), "disabled".to_string())]);
    let settings = Settings { excluded_namespaces, excluded_pod_labels };

    let verdict = validate(&settings, "Pod", document(POD_ENABLED));
    assert!(
        verdict == Verdict::Accept,
        "Something mutated with test case: {}",
        "Pod Creation"
    );
    Ok(())
}

#[test]
fn validate_settings() -> Result<(), ()> {
    let excluded_namespaces = vec!["foo".to_string()];
    let excluded_pod_labels =
        TextMap::from_pairs(&vec![("istioException".to_string(), "enabled".to_string())]);
    let settings = Settings { excluded_namespaces, excluded_pod_labels };

    assert!(settings.validate().is_ok());
    Ok(())
}

#[test]
fn default_settings_exclude_nothing_and_are_valid() {
    let settings = Settings::default();
    assert!(settings.excluded_namespaces.is_empty());
    assert!(settings.excluded_pod_labels.is_empty());
    assert_eq!(settings.validate(), Ok(()));
}

#[test]
fn excluded_namespace_without_labels_is_accepted() {
    let body = document(r#"{"metadata": {"name": "bar", "labels": {}}}"#);
    assert_eq!(validate(&settings(&["bar"], &[]), "Namespace", body), Verdict::Accept);
}

#[test]
fn excluded_namespace_is_accepted_whatever_its_label_says() {
    let with = &settings(&["other", "bar", "bar"], &[]);
    let body = document(r#"{"metadata": {"name": "bar", "labels": {"istio-injection": "disabled"}}}"#);
    assert_eq!(inspect(with, "Namespace", body.clone()), Finding::ExcludedNamespace);
    assert_eq!(validate(with, "Namespace", body), Verdict::Accept);
    let bare = document(r#"{"metadata": {"name": "bar"}}"#);
    assert_eq!(validate(with, "Namespace", bare), Verdict::Accept);
}

#[test]
fn excluded_namespace_with_the_label_is_found_excluded_first() {
    let body = document(r#"{"metadata": {"name": "bar", "labels": {"istio-injection": "enabled"}}}"#);
    assert_eq!(inspect(&settings(&["bar"], &[]), "Namespace", body), Finding::ExcludedNamespace);
}

#[test]
fn disabled_namespace_is_rejected_with_its_name() {
    let body = document(r#"{"metadata": {"name": "prod", "labels": {"istio-injection": "disabled"}}}"#);
    let verdict = validate(&settings(&["bar"], &[]), "Namespace", body);
    assert_eq!(verdict, reject("Namespace 'prod' is not istio enabled."));
    match verdict {
        Verdict::Reject(Some(message)) => assert!(message.contains("prod")),
        _ => panic!("expected a rejection with a message"),
    }
}

#[test]
fn enabled_namespace_is_accepted() {
    let body = document(r#"{"metadata": {"name": "prod", "labels": {"istio-injection": "enabled"}}}"#);
    assert_eq!(validate(&settings(&[], &[]), "Namespace", body.clone()), Verdict::Accept);
    assert_eq!(inspect(&settings(&[], &[]), "Namespace", body), Finding::InjectionEnabled);
}

#[test]
fn enabled_namespace_among_many_labels_is_accepted() {
    let body = document(
        r#"{"metadata": {"name": "prod", "labels": {
            "a": "1", "istio-injection": "enabled", "team": "payments", "zone": "eu"
        }}}"#,
    );
    assert_eq!(check_namespace(&settings(&["bar"], &[]), body), Verdict::Accept);
}

#[test]
fn namespace_without_labels_is_rejected() {
    let with = &settings(&["bar"], &[]);
    let absent = document(r#"{"metadata": {"name": "prod"}}"#);
    assert_eq!(inspect(with, "Namespace", absent.clone()), Finding::InjectionMissing);
    assert_eq!(check_namespace(with, absent), reject("Namespace 'prod' is not istio enabled."));
    let empty = document(r#"{"metadata": {"name": "prod", "labels": {}}}"#);
    assert_eq!(check_namespace(with, empty), reject("Namespace 'prod' is not istio enabled."));
}

#[test]
fn label_and_exclusion_are_matched_letter_for_letter() {
    let with = &settings(&["Prod", "prod "], &[]);
    let upper = document(r#"{"metadata": {"name": "prod", "labels": {"istio-injection": "Enabled"}}}"#);
    assert_eq!(check_namespace(with, upper), reject("Namespace 'prod' is not istio enabled."));
    let key = document(r#"{"metadata": {"name": "prod", "labels": {"Istio-Injection": "enabled"}}}"#);
    assert_eq!(check_namespace(with, key), reject("Namespace 'prod' is not istio enabled."));
    let swapped = document(r#"{"metadata": {"name": "prod", "labels": {"enabled": "istio-injection"}}}"#);
    assert_eq!(check_namespace(with, swapped), reject("Namespace 'prod' is not istio enabled."));
}

#[test]
fn namespace_name_is_quoted_verbatim() {
    let body = document(r#"{"metadata": {"name": "a'b é", "labels": {}}}"#);
    assert_eq!(
        check_namespace(&settings(&[], &[]), body),
        reject("Namespace 'a'b \u{e9}' is not istio enabled.")
    );
    let blank = document(r#"{"metadata": {"name": ""}}"#);
    assert_eq!(check_namespace(&settings(&[], &[]), blank), reject("Namespace '' is not istio enabled."));
}

#[test]
fn namespace_without_a_name_is_accepted() {
    let with = &settings(&["bar"], &[]);
    let body = document(r#"{"metadata": {"labels": {"istio-injection": "disabled"}}}"#);
    assert_eq!(inspect(with, "Namespace", body.clone()), Finding::MissingName);
    assert_eq!(validate(with, "Namespace", body), Verdict::Accept);
    let empty = document("{}");
    assert_eq!(inspect(with, "Namespace", empty.clone()), Finding::MissingName);
    assert_eq!(validate(with, "Namespace", empty), Verdict::Accept);
}

#[test]
fn malformed_namespace_is_accepted() {
    let with = &settings(&[], &[]);
    for text in [
        r#""just text""#,
        "[1, 2, 3]",
        "null",
        "17",
        r#"{"metadata": "none"}"#,
        r#"{"metadata": {"name": 5}}"#,
        r#"{"metadata": {"name": "prod", "labels": ["istio-injection"]}}"#,
        r#"{"metadata": {"name": "prod", "labels": {"istio-injection": true}}}"#,
        r#"{"kind": "Pod", "metadata": {"name": "prod"}}"#,
        r#"{"apiVersion": "v2", "metadata": {"name": "prod"}}"#,
    ] {
        assert_eq!(inspect(with, "Namespace", document(text)), Finding::MalformedBody, "{}", text);
        assert_eq!(validate(with, "Namespace", document(text)), Verdict::Accept, "{}", text);
        assert_eq!(check_namespace(with, document(text)), Verdict::Accept, "{}", text);
    }
}

#[test]
fn malformed_pod_is_accepted() {
    let with = &settings(&[], &[("istioException", "enabled")]);
    for text in [
        "null",
        "[]",
        r#"{"kind": "Namespace", "metadata": {"name": "web"}}"#,
        r#"{"metadata": {"annotations": {"a": 1}}}"#,
        r#"{"metadata": {"name": "web"}, "spec": {"containers": "none"}}"#,
    ] {
        assert_eq!(inspect(with, "Pod", document(text)), Finding::MalformedBody, "{}", text);
        assert_eq!(validate(with, "Pod", document(text)), Verdict::Accept, "{}", text);
        assert_eq!(check_pod(with, document(text)), Verdict::Accept, "{}", text);
    }
}

#[test]
fn pod_without_annotations_is_accepted() {
    let with = &settings(&[], &[("istioException", "enabled")]);
    let empty = document(r#"{"metadata": {"name": "web", "annotations": {}, "labels": {}}}"#);
    assert_eq!(inspect(with, "Pod", empty.clone()), Finding::NoAnnotations);
    assert_eq!(validate(with, "Pod", empty), Verdict::Accept);
    let absent = document(r#"{"metadata": {"name": "web", "labels": {"istioException": "enabled"}}}"#);
    assert_eq!(inspect(with, "Pod", absent.clone()), Finding::NoAnnotations);
    assert_eq!(validate(with, "Pod", absent), Verdict::Accept);
    let nameless = document("{}");
    assert_eq!(inspect(with, "Pod", nameless.clone()), Finding::NoAnnotations);
    assert_eq!(check_pod(with, nameless), Verdict::Accept);
}

#[test]
fn pod_with_excluded_label_is_accepted() {
    let with = &settings(&[], &[("istioException", "enabled")]);
    let body = document(
        r#"{"metadata": {
            "annotations": {"sidecar.istio.io/inject": "true"},
            "labels": {"istioException": "enabled"}
        }}"#,
    );
    assert_eq!(inspect(with, "Pod", body.clone()), Finding::ExcludedPodLabel);
    assert_eq!(validate(with, "Pod", body), Verdict::Accept);
}

#[test]
fn pod_with_one_of_several_excluded_labels_is_accepted() {
    let with = &settings(&[], &[("tier", "system"), ("istioException", "enabled"), ("x", "y")]);
    let body = document(
        r#"{"metadata": {
            "annotations": {"note": "n"},
            "labels": {"app": "web", "tier": "user", "istioException": "enabled"}
        }}"#,
    );
    assert_eq!(inspect(with, "Pod", body), Finding::ExcludedPodLabel);
}

#[test]
fn pod_label_with_another_value_is_not_excluded() {
    let with = &settings(&[], &[("istioException", "enabled")]);
    let body = document(
        r#"{"metadata": {
            "annotations": {"sidecar.istio.io/inject": "false"},
            "labels": {"istioException": "disabled", "enabled": "istioException"}
        }}"#,
    );
    assert_eq!(inspect(with, "Pod", body.clone()), Finding::InjectAnnotated);
    assert_eq!(validate(with, "Pod", body), Verdict::Accept);
}

#[test]
fn pod_with_other_annotations_meets_no_objection() {
    let with = &settings(&[], &[("istioException", "enabled")]);
    let body = document(r#"{"metadata": {"name": "web", "annotations": {"note": "n"}}}"#);
    assert_eq!(inspect(with, "Pod", body.clone()), Finding::NoObjection);
    assert_eq!(check_pod(with, body), Verdict::Accept);
}

#[test]
fn annotated_pod_without_name_or_labels_is_accepted() {
    let with = &settings(&["foo"], &[("istioException", "disabled")]);
    let body = document(r#"{"metadata": {"annotations": {"sidecar.istio.io/inject": "false"}}}"#);
    assert_eq!(inspect(with, "Pod", body.clone()), Finding::InjectAnnotated);
    assert_eq!(check_pod(with, body), Verdict::Accept);
}

#[test]
fn other_kinds_are_accepted() {
    let with = &settings(&["bar"], &[("istioException", "enabled")]);
    for kind in ["ConfigMap", "Deployment", "", "namespace", "pod", "Namespace ", "Pods", "POD"] {
        for text in [NAMESPACE_DISABLED, POD_ENABLED, "null", r#"{"data": {"k": "v"}}"#] {
            assert_eq!(inspect(with, kind, document(text)), Finding::UnrecognizedKind);
            assert_eq!(validate(with, kind, document(text)), Verdict::Accept);
            assert_eq!(validate(with, kind, document(text)), Verdict::Accept);
        }
    }
}

#[test]
fn kinds_are_told_apart() {
    assert_eq!(classify("Namespace"), ResourceKind::Namespace);
    assert_eq!(classify("Pod"), ResourceKind::Pod);
    assert_eq!(classify("ConfigMap"), ResourceKind::Other);
    assert_eq!(classify("namespace"), ResourceKind::Other);
    assert_eq!(classify(""), ResourceKind::Other);
}

#[test]
fn the_declared_kind_chooses_the_rule() {
    let with = &settings(&[], &[]);
    let body = document(r#"{"metadata": {"name": "prod"}}"#);
    assert_eq!(validate(with, "Namespace", body.clone()), reject("Namespace 'prod' is not istio enabled."));
    assert_eq!(validate(with, "Pod", body.clone()), Verdict::Accept);
    assert_eq!(validate(with, "Secret", body), Verdict::Accept);
}

#[test]
fn only_missing_injection_is_refused() {
    let all = [
        Finding::UnrecognizedKind,
        Finding::MalformedBody,
        Finding::MissingName,
        Finding::ExcludedNamespace,
        Finding::InjectionEnabled,
        Finding::InjectionMissing,
        Finding::NoAnnotations,
        Finding::ExcludedPodLabel,
        Finding::InjectAnnotated,
        Finding::NoObjection,
    ];
    for finding in all {
        assert_eq!(finding.is_accepted(), finding != Finding::InjectionMissing);
    }
}
