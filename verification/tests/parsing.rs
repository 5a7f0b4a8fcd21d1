use dcp::image::{split, trim};

#[test]
fn image_test_split() {
    let digest_image = "quay.io/tflannag/bundles@sha256:145ccb5e7e73d4ae914160c066e49f35bc2be2bb86e4ab0002a802aa436599bf";
    let image = digest_image.to_string();

    let (out_repo, out_tag) = split(image).unwrap();
    assert_eq!(out_repo, "quay.io/tflannag/bundles".to_string());
    assert_eq!(
        out_tag,
        "sha256:145ccb5e7e73d4ae914160c066e49f35bc2be2bb86e4ab0002a802aa436599bf".to_string()
    );
}

#[test]
fn container_test_split() {
    let digest_image = "quay.io/tflannag/bundles@sha256:145ccb5e7e73d4ae914160c066e49f35bc2be2bb86e4ab0002a802aa436599bf";
    let image = digest_image.to_string();

    let (out_repo, out_tag) = split(image).unwrap();
    assert_eq!(out_repo, "quay.io/tflannag/bundles".to_string());
    assert_eq!(
        out_tag,
        "sha256:145ccb5e7e73d4ae914160c066e49f35bc2be2bb86e4ab0002a802aa436599bf".to_string()
    );
}

#[test]
fn split_on_colon() {
    let (repo, tag) = split("example.org/app:v1".to_string()).unwrap();
    assert_eq!(repo, "example.org/app");
    assert_eq!(tag, "v1");
}

#[test]
fn split_without_delimiter_defaults_to_latest() {
    let (repo, tag) = split("example.org/app".to_string()).unwrap();
    assert_eq!(repo, "example.org/app");
    assert_eq!(tag, "latest");
}

#[test]
fn split_digest_keeps_internal_colon() {
    let (repo, tag) = split("example.org/app@sha256:deadbeef".to_string()).unwrap();
    assert_eq!(repo, "example.org/app");
    assert_eq!(tag, "sha256:deadbeef");
}

#[test]
fn split_cuts_only_once() {
    let (repo, tag) = split("registry:5000/app:v2".to_string()).unwrap();
    assert_eq!(repo, "registry");
    assert_eq!(tag, "5000/app:v2");
}

#[test]
fn split_rejects_empty_repository() {
    assert!(split(":v0.0.4".to_string()).is_none());
}

#[test]
fn split_rejects_empty_repository_before_digest() {
    assert!(split("@sha256:deadbeef".to_string()).is_none());
}

#[test]
fn split_rejects_empty_reference() {
    assert!(split(String::new()).is_none());
}

#[test]
fn split_empty_tag_after_colon() {
    let (repo, tag) = split("repo:".to_string()).unwrap();
    assert_eq!(repo, "repo");
    assert_eq!(tag, "");
}

#[test]
fn trim_removes_surrounding_whitespace() {
    assert_eq!(trim("  repo:v1 \n"), "repo:v1");
}

#[test]
fn trim_keeps_inner_whitespace() {
    assert_eq!(trim("\ta b\t"), "a b");
}

#[test]
fn trim_of_whitespace_only_is_empty() {
    assert_eq!(trim("   \t\r\n"), "");
}

#[test]
fn trim_of_clean_string_is_identity() {
    assert_eq!(trim("repo@sha256:aa"), "repo@sha256:aa");
}
