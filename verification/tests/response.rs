use kubewarden_policy_sdk::response::ValidationResponse;
use pod_privileged_policy::{
    render, validate, Container, Extraction, PodSpec, SecurityContext, Settings,
    ValidationOutcome,
};

fn read(bytes: &[u8]) -> ValidationResponse {
    serde_json::from_slice(bytes).expect("the response is a JSON document")
}

fn pod_with_container(privileged: bool) -> PodSpec {
    PodSpec {
        containers: vec![Container {
            security_context: Some(SecurityContext {
                privileged: Some(privileged),
            }),
        }],
        init_containers: None,
        ephemeral_containers: None,
    }
}

#[test]
fn acceptance_is_written_as_the_acceptance_document() {
    let bytes = render(ValidationOutcome::Accepted).expect("the response is written");
    assert_eq!(
        String::from_utf8(bytes).expect("the response is text"),
        "{\"accepted\":true,\"message\":null,\"code\":null,\"mutated_object\":null,\"audit_annotations\":null,\"warnings\":null}"
    );
}

#[test]
fn acceptance_sets_nothing_but_the_flag() {
    let bytes = render(ValidationOutcome::Accepted).expect("the response is written");
    let response = read(&bytes);
    assert!(response.accepted);
    assert_eq!(response.message, None);
    assert_eq!(response.code, None);
    assert!(response.mutated_object.is_none());
    assert!(response.audit_annotations.is_none());
    assert!(response.warnings.is_none());
}

#[test]
fn rejection_carries_the_message_and_nothing_else() {
    let message = "Privileged container is not allowed".to_string();
    let bytes =
        render(ValidationOutcome::Rejected(message.clone())).expect("the response is written");
    assert_ne!(bytes, message.clone().into_bytes());
    let response = read(&bytes);
    assert!(!response.accepted);
    assert_eq!(response.message, Some(message));
    assert_eq!(response.code, None);
    assert!(response.mutated_object.is_none());
    assert!(response.audit_annotations.is_none());
    assert!(response.warnings.is_none());
}

#[test]
fn rejection_message_survives_quoting() {
    let message = "a \"quoted\" line\nand a \\ backslash".to_string();
    let bytes =
        render(ValidationOutcome::Rejected(message.clone())).expect("the response is written");
    let response = read(&bytes);
    assert!(!response.accepted);
    assert_eq!(response.message, Some(message));
}

#[test]
fn same_rejection_is_written_the_same_way() {
    let first = render(ValidationOutcome::Rejected("no".to_string()));
    let second = render(ValidationOutcome::Rejected("no".to_string()));
    assert_eq!(first, second);
    assert_eq!(
        String::from_utf8(first.expect("the response is written")).expect("the response is text"),
        "{\"accepted\":false,\"message\":\"no\",\"code\":null,\"mutated_object\":null,\"audit_annotations\":null,\"warnings\":null}"
    );
}

#[test]
fn unprivileged_pod_gets_an_accepting_response() {
    let bytes = validate(
        &Extraction::PodSpec(pod_with_container(false)),
        &Settings::default(),
    )
    .expect("the response is written");
    assert_eq!(
        bytes,
        render(ValidationOutcome::Accepted).expect("the response is written")
    );
    assert!(read(&bytes).accepted);
}

#[test]
fn privileged_pod_gets_a_rejecting_response() {
    let bytes = validate(
        &Extraction::PodSpec(pod_with_container(true)),
        &Settings::default(),
    )
    .expect("the response is written");
    let response = read(&bytes);
    assert!(!response.accepted);
    assert_eq!(
        response.message,
        Some("Privileged container is not allowed".to_string())
    );
}

#[test]
fn object_without_pod_spec_gets_an_accepting_response() {
    let bytes =
        validate(&Extraction::NoPodSpec, &Settings::default()).expect("the response is written");
    let response = read(&bytes);
    assert!(response.accepted);
    assert_eq!(response.message, None);
}

#[test]
fn malformed_request_gets_the_generic_rejection() {
    let bytes =
        validate(&Extraction::Malformed, &Settings::default()).expect("the response is written");
    let response = read(&bytes);
    assert!(!response.accepted);
    assert_eq!(
        response.message,
        Some("Cannot parse validation request".to_string())
    );
    assert_eq!(response.code, None);
}

#[test]
fn rejection_is_the_quoted_message_between_fixed_parts() {
    let opening = "{\"accepted\":false,\"message\":";
    let closing =
        ",\"code\":null,\"mutated_object\":null,\"audit_annotations\":null,\"warnings\":null}";
    for message in [
        "",
        "Privileged container is not allowed",
        "Privileged init container is not allowed",
        "Privileged ephemeral container is not allowed",
        "Cannot parse validation request",
        "tab\there, \"quotes\" there, caf\u{e9} everywhere",
    ] {
        let bytes = render(ValidationOutcome::Rejected(message.to_string()))
            .expect("the response is written");
        let text = String::from_utf8(bytes).expect("the response is text");
        assert!(text.starts_with(opening));
        assert!(text.ends_with(closing));
        let member = &text[opening.len()..text.len() - closing.len()];
        let quoted: String = serde_json::from_str(member).expect("the member is a JSON string");
        assert_eq!(quoted, message);
    }
}

#[test]
fn rejection_is_never_written_as_the_acceptance() {
    let acceptance = render(ValidationOutcome::Accepted).expect("the response is written");
    for message in ["", "null", "Privileged container is not allowed"] {
        let rejection = render(ValidationOutcome::Rejected(message.to_string()))
            .expect("the response is written");
        assert_ne!(rejection, acceptance);
    }
}
