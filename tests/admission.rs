use registry_gate::document::{
    get_containers, get_image_name, normalize, pod_spec, ContainerSpec, Document,
};
use registry_gate::engine::{
    decide, denial_message, denial_reason, first_violation, review, AdmissionDecision,
    AdmissionRequest, EngineError, Scan,
};
use registry_gate::policy::{evaluate_image, AllowList, Verdict};
use registry_gate::protocol::content_type_accepted;

fn text(s: &str) -> Document {
    Document::Text(s.to_string())
}

fn object(fields: Vec<(&str, Document)>) -> Document {
    Document::Object(fields.into_iter().map(|(k, v)| (k.to_string(), v)).collect())
}

fn container(image: &str) -> Document {
    object(vec![("name", text("c")), ("image", text(image))])
}

fn pod(containers: Vec<Document>) -> Document {
    object(vec![("spec", object(vec![("containers", Document::Array(containers))]))])
}

fn request(uid: &str, object: Option<Document>) -> AdmissionRequest {
    AdmissionRequest { uid: uid.to_string(), kind: "Pod".to_string(), object }
}

fn allow(list: &[&str]) -> AllowList {
    AllowList::new(list.iter().map(|s| s.to_string()).collect())
}

fn image(s: &str) -> ContainerSpec {
    ContainerSpec { image: Some(s.to_string()) }
}

fn internal() -> AllowList {
    allow(&["registry.internal.example.com"])
}

#[test]
fn trusted_image_is_admitted() {
    let req = request("u-1", Some(pod(vec![container("registry.internal.example.com/app:1.0")])));
    let d = review(&req, &internal()).unwrap();
    assert!(d.allowed);
    assert_eq!(d.reason, None);
    assert_eq!(d.uid, "u-1");
}

#[test]
fn untrusted_image_is_denied_with_its_name() {
    let req = request("u-2", Some(pod(vec![container("docker.io/library/nginx:latest")])));
    let d = review(&req, &internal()).unwrap();
    assert!(!d.allowed);
    let reason = d.reason.unwrap();
    assert!(reason.contains("docker.io/library/nginx:latest"));
    assert_eq!(
        reason,
        "docker.io/library/nginx:latest image comes from an untrusted registry! \
         only images from [\"registry.internal.example.com\"] are allowed"
    );
}

#[test]
fn empty_allow_list_denies_any_container() {
    let req = request("u-3", Some(pod(vec![container("registry.internal.example.com/app:1.0")])));
    let d = review(&req, &AllowList::empty()).unwrap();
    assert!(!d.allowed);
    let req = request("u-3b", Some(pod(vec![container("docker.io/x"), container("y")])));
    assert!(!review(&req, &allow(&[])).unwrap().allowed);
}

#[test]
fn empty_allow_list_trusts_no_image() {
    let empty = AllowList::empty();
    assert_eq!(empty.len(), 0);
    assert_eq!(evaluate_image("docker.io/library/nginx", &empty), Verdict::Untrusted);
    assert_eq!(evaluate_image("", &empty), Verdict::Untrusted);
}

#[test]
fn no_containers_is_admitted() {
    let req = request("u-4", Some(pod(vec![])));
    let d = review(&req, &internal()).unwrap();
    assert!(d.allowed);
    assert_eq!(d.reason, None);
    let d = review(&req, &AllowList::empty()).unwrap();
    assert!(d.allowed);
}

#[test]
fn first_violation_is_reported() {
    let req = request(
        "u-5",
        Some(pod(vec![
            container("registry.internal.example.com/ok:1"),
            container("docker.io/untrusted_a:1"),
            container("quay.io/untrusted_b:1"),
        ])),
    );
    let d = review(&req, &internal()).unwrap();
    assert!(!d.allowed);
    let reason = d.reason.unwrap();
    assert!(reason.starts_with("docker.io/untrusted_a:1 image"));
    assert!(!reason.contains("untrusted_b"));
}

#[test]
fn uid_is_echoed() {
    for uid in ["", "abc-123", "705ab4f5-6393-11e8-b7cc-42010a800002"] {
        let req = request(uid, Some(pod(vec![container("docker.io/nginx")])));
        assert_eq!(review(&req, &internal()).unwrap().uid, uid);
        let req = request(uid, Some(pod(vec![])));
        assert_eq!(review(&req, &internal()).unwrap().uid, uid);
    }
}

#[test]
fn missing_containers_is_an_error() {
    let no_spec = request("u-6", Some(object(vec![("status", object(vec![]))])));
    assert_eq!(review(&no_spec, &internal()).err(), Some(EngineError::MissingContainers));
    let no_list = request("u-6", Some(object(vec![("spec", object(vec![]))])));
    assert_eq!(review(&no_list, &internal()).err(), Some(EngineError::MissingContainers));
    let not_array = request(
        "u-6",
        Some(object(vec![("spec", object(vec![("containers", text("nginx"))]))])),
    );
    assert_eq!(review(&not_array, &internal()).err(), Some(EngineError::MissingContainers));
    let not_object = request("u-6", Some(Document::Array(vec![])));
    assert_eq!(review(&not_object, &internal()).err(), Some(EngineError::MissingContainers));
}

#[test]
fn missing_object_is_an_error() {
    let req = request("u-7", None);
    assert_eq!(review(&req, &internal()).err(), Some(EngineError::MissingObject));
}

#[test]
fn missing_image_is_an_error() {
    let no_image = object(vec![("name", text("c"))]);
    let req = request("u-8", Some(pod(vec![no_image])));
    assert_eq!(review(&req, &internal()).err(), Some(EngineError::MissingImage));
    let number_image = object(vec![("image", Document::Number("7".to_string()))]);
    let req = request("u-8", Some(pod(vec![number_image])));
    assert_eq!(review(&req, &internal()).err(), Some(EngineError::MissingImage));
}

#[test]
fn scan_stops_before_a_later_missing_image() {
    let no_image = object(vec![("name", text("c"))]);
    let req = request("u-9", Some(pod(vec![container("docker.io/nginx"), no_image])));
    assert!(!review(&req, &internal()).unwrap().allowed);
    let no_image = object(vec![("name", text("c"))]);
    let req = request("u-9", Some(pod(vec![no_image, container("docker.io/nginx")])));
    assert_eq!(review(&req, &internal()).err(), Some(EngineError::MissingImage));
}

#[test]
fn error_messages() {
    assert_eq!(EngineError::MissingObject.message(), "could not get object from the request body");
    assert_eq!(EngineError::MissingContainers.message(), "could not get containers");
    assert_eq!(EngineError::MissingImage.message(), "could not resolve image from container");
}

#[test]
fn prefix_needs_the_slash() {
    let l = allow(&["docker.io"]);
    assert_eq!(evaluate_image("docker.io/library/nginx", &l), Verdict::Trusted);
    assert_eq!(evaluate_image("docker.io.evil.com/x", &l), Verdict::Untrusted);
    assert_eq!(evaluate_image("docker.io", &l), Verdict::Untrusted);
    assert_eq!(evaluate_image("docker.io/", &l), Verdict::Trusted);
    assert_eq!(evaluate_image("nginx", &l), Verdict::Untrusted);
    assert_eq!(evaluate_image("Docker.io/nginx", &l), Verdict::Untrusted);
    assert_eq!(evaluate_image("x/docker.io/nginx", &l), Verdict::Untrusted);
}

#[test]
fn any_registry_of_the_list_may_match() {
    let l = allow(&["quay.io", "gcr.io", "docker.io"]);
    assert_eq!(evaluate_image("gcr.io/p/app@sha256:00", &l), Verdict::Trusted);
    assert_eq!(evaluate_image("docker.io/app", &l), Verdict::Trusted);
    assert_eq!(evaluate_image("ghcr.io/app", &l), Verdict::Untrusted);
    assert_eq!(l.len(), 3);
}

#[test]
fn denial_text_layout() {
    assert_eq!(
        denial_message("nginx", "[\"a\", \"b\"]"),
        "nginx image comes from an untrusted registry! only images from [\"a\", \"b\"] are allowed"
    );
    assert_eq!(
        denial_reason("nginx", &allow(&["a", "b\"c"])),
        "nginx image comes from an untrusted registry! only images from [\"a\", \"b\\\"c\"] are allowed"
    );
    assert_eq!(
        denial_reason("x", &AllowList::empty()),
        "x image comes from an untrusted registry! only images from [] are allowed"
    );
}

#[test]
fn first_violation_positions() {
    let l = internal();
    let cs = vec![image("registry.internal.example.com/a"), image("b/c")];
    assert_eq!(first_violation(&cs, &l), Scan::Untrusted(1));
    let cs = vec![image("registry.internal.example.com/a"), ContainerSpec { image: None }];
    assert_eq!(first_violation(&cs, &l), Scan::NoImage(1));
    let cs = vec![image("registry.internal.example.com/a")];
    assert_eq!(first_violation(&cs, &l), Scan::AllTrusted);
    assert_eq!(first_violation(&vec![], &l), Scan::AllTrusted);
}

#[test]
fn decide_on_a_container_list() {
    let uid = "u-10".to_string();
    let d = decide(&uid, &vec![image("registry.internal.example.com/a")], &internal()).unwrap();
    assert!(d.allowed);
    let d = decide(&uid, &vec![image("other/a")], &internal()).unwrap();
    assert!(!d.allowed);
    assert_eq!(d.uid, "u-10");
}

#[test]
fn decision_builders() {
    let uid = "u-11".to_string();
    let a = AdmissionDecision::allow(&uid);
    assert!(a.allowed && a.reason.is_none() && a.uid == "u-11");
    let d = AdmissionDecision::deny(&uid, "why".to_string());
    assert!(!d.allowed);
    assert_eq!(d.reason.as_deref(), Some("why"));
}

#[test]
fn text_plain_is_rejected_before_evaluation() {
    assert!(!content_type_accepted(Some("text/plain".as_bytes())));
    assert!(content_type_accepted(Some("application/json".as_bytes())));
    assert!(!content_type_accepted(None));
    assert!(!content_type_accepted(Some("application/json; charset=utf-8".as_bytes())));
    assert!(!content_type_accepted(Some("".as_bytes())));
    assert!(!content_type_accepted(Some("Application/JSON".as_bytes())));
}

#[test]
fn document_access() {
    let c = container("img");
    assert_eq!(get_image_name(&c).map(|s| s.as_str()), Some("img"));
    assert!(c.get("missing").is_none());
    assert!(text("x").get("image").is_none());
    assert_eq!(text("x").as_str().map(|s| s.as_str()), Some("x"));
    assert!(Document::Null.as_array().is_none());
    let p = pod(vec![container("a"), container("b")]);
    let spec = pod_spec(&p).unwrap();
    assert_eq!(get_containers(spec).unwrap().len(), 2);
    assert!(get_containers(&Document::Null).is_none());
    assert!(pod_spec(&Document::Bool(true)).is_none());
}

#[test]
fn first_field_of_a_name_wins() {
    let c = object(vec![("image", text("first")), ("image", text("second"))]);
    assert_eq!(get_image_name(&c).map(|s| s.as_str()), Some("first"));
}

#[test]
fn normalize_keeps_order_and_narrows_entries() {
    let p = pod(vec![
        container("a/x"),
        object(vec![("name", text("no-image"))]),
        object(vec![("image", Document::Bool(true))]),
        container("b/y"),
    ]);
    let cs = normalize(&p).unwrap();
    let images: Vec<Option<&str>> = cs.iter().map(|c| c.image.as_deref()).collect();
    assert_eq!(images, vec![Some("a/x"), None, None, Some("b/y")]);
    assert_eq!(normalize(&pod(vec![])).unwrap().len(), 0);
    assert!(normalize(&object(vec![("spec", object(vec![]))])).is_none());
    assert!(normalize(&Document::Null).is_none());
}

#[test]
fn container_spec_from_document() {
    assert_eq!(ContainerSpec::from_document(&container("q/r")).image.as_deref(), Some("q/r"));
    assert!(ContainerSpec::from_document(&text("q/r")).image.is_none());
}
