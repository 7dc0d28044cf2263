use klt::recipe::{Authorization, ImageReference, TagName, TagNameError, Target};

#[test]
fn test_target_tags() {
    let target = Target {
        auth: Authorization::Anonymous,
        registry: "registry".to_string(),
        repo: "repo".to_string(),
        tags: vec![TagName::try_from("tag1").unwrap(), TagName::try_from("tag2").unwrap()],
    };

    let tags = target.tags();
    assert_eq!(
        tags,
        vec![TagName::try_from("tag1").unwrap(), TagName::try_from("tag2").unwrap()]
    );
}

#[test]
fn target_without_tags_has_none() {
    let target = Target {
        auth: Authorization::default(),
        registry: "registry".to_string(),
        repo: "repo".to_string(),
        tags: Vec::new(),
    };
    assert!(target.tags().is_empty());
}

#[test]
fn tag_names_that_are_valid() {
    for name in ["latest", "v1.2.3", "_x", "0", "A-b_c.d", "a".repeat(128).as_str()] {
        let tag = TagName::try_new(name).unwrap();
        assert_eq!(tag.as_str(), name);
        assert_eq!(tag.to_string(), name);
        assert!(!tag.is_empty());
        assert_eq!(tag.clone().into_inner(), name);
    }
}

#[test]
fn try_from_agrees_with_try_new() {
    for name in ["latest", "", ".x", "v1.0"] {
        assert_eq!(TagName::try_from(name), TagName::try_new(name));
    }
}

#[test]
fn tag_names_that_are_refused() {
    let too_long = "a".repeat(129);
    for name in ["", ".hidden", "-dash", "with space", "semi;colon", "tag\n", "caf\u{e9}", too_long.as_str()] {
        assert_eq!(TagName::try_new(name), Err(TagNameError::Invalid), "{name:?}");
    }
}

#[test]
fn reference_prefers_digest_then_tag_then_latest() {
    let mut reference = ImageReference {
        registry: "registry.io".to_string(),
        repository: "repo".to_string(),
        tag: Some("tag".to_string()),
        digest: Some("sha256:abc".to_string()),
    };
    assert_eq!(reference.version(), "sha256:abc");
    reference.digest = None;
    assert_eq!(reference.version(), "tag");
    reference.tag = None;
    assert_eq!(reference.version(), "latest");
}

#[test]
fn authorization_defaults_to_anonymous() {
    assert_eq!(Authorization::default(), Authorization::Anonymous);
}
