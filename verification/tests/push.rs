use klt::app_layer::AppLayer;
use klt::digest::{sha256_digest, Digest};
use klt::http::{Method, Response};
use klt::image::{Descriptor, HistoryEntry, ImageConfiguration, ImageManifest, RootFs};
use klt::kitchen::PreparationState;
use klt::push::{
    ensure_base_layer, BlobStatus, Push, PushAction, PushError, PushEvent, PushOutcome, TagStatus,
};
use klt::recipe::TagName;
use klt::registry_client::{RegistryClient, Scheme};

const OCI_LAYER: &str = "application/vnd.oci.image.layer.v1.tar+gzip";

fn client(registry: &str) -> RegistryClient {
    RegistryClient {
        scheme: Scheme::Https,
        registry: registry.to_string(),
        repo: "repo".to_string(),
        token: "t".to_string(),
    }
}

fn base_layer(seed: &str) -> Descriptor {
    Descriptor::new(OCI_LAYER.to_string(), seed.len() as u64, sha256_digest(seed.as_bytes()))
}

fn own_layer(name: &str) -> AppLayer {
    AppLayer::assemble(name, sha256_digest(name.as_bytes()), name.as_bytes().to_vec())
}

fn state(base: &[&str], own: &[&str]) -> PreparationState {
    let layers: Vec<Descriptor> = base.iter().map(|seed| base_layer(seed)).collect();
    let manifest = ImageManifest {
        media_type: String::new(),
        config: base_layer("old config"),
        layers: layers.clone(),
    };
    let configuration = ImageConfiguration {
        rootfs: RootFs { diff_ids: layers.iter().map(|l| l.digest.clone()).collect() },
        history: layers
            .iter()
            .map(|_| HistoryEntry { created_by: "base".to_string(), empty_layer: false })
            .collect(),
        config: None,
    };
    let mut state = PreparationState::new(manifest, configuration, client("source.io"));
    for name in own {
        state.apply_layer(own_layer(name));
    }
    state
}

fn tags(names: &[&str]) -> Vec<TagName> {
    names.iter().map(|name| TagName::try_new(name).unwrap()).collect()
}

fn start(base: &[&str], own: &[&str], tag_names: &[&str]) -> (Push, Vec<PushAction>) {
    state(base, own).push_to(b"{\"config\":1}".to_vec(), tags(tag_names))
}

fn config_digest() -> Digest {
    sha256_digest(b"{\"config\":1}")
}

fn statuses(push: &Push) -> Vec<BlobStatus> {
    push.blobs().iter().map(|task| task.status).collect()
}

fn response(status: u16, body: &[u8]) -> Response {
    Response { status, url: String::new(), headers: Vec::new(), body: body.to_vec() }
}

#[test]
fn push_begins_with_one_action_for_each_blob() {
    let (push, actions) = start(&["b0", "b1"], &["own"], &["latest"]);
    assert_eq!(
        actions,
        vec![
            PushAction::CheckBlob { task: 0, digest: base_layer("b0").digest },
            PushAction::CheckBlob { task: 1, digest: base_layer("b1").digest },
            PushAction::UploadBlob {
                task: 2,
                digest: own_layer("own").descriptor.digest,
                contents: b"own".to_vec(),
            },
            PushAction::UploadBlob {
                task: 3,
                digest: config_digest(),
                contents: b"{\"config\":1}".to_vec(),
            },
        ]
    );
    assert_eq!(
        statuses(&push),
        vec![
            BlobStatus::Checking,
            BlobStatus::Checking,
            BlobStatus::Uploading,
            BlobStatus::Uploading,
        ]
    );
    assert_eq!(push.tags().len(), 1);
    assert_eq!(push.tags()[0].status, TagStatus::Waiting);
    assert_eq!(push.manifest().config.digest, config_digest());
    assert_eq!(push.manifest().config.size, 12);
    assert_eq!(push.manifest().config.media_type, "application/vnd.oci.image.config.v1+json");
    assert_eq!(push.manifest().media_type, "application/vnd.oci.image.manifest.v1+json");
    assert_eq!(push.manifest().layers.len(), 3);
    assert_eq!(push.base_provider(), &client("source.io"));
    assert_eq!(push.outcome(), PushOutcome::Pending);
}

#[test]
fn base_layer_that_is_present_is_not_copied() {
    let (mut push, _) = start(&["b0", "b1"], &[], &["latest"]);
    let mut all = Vec::new();
    all.extend(push.on_event(PushEvent::BlobChecked { task: 0, present: true }).unwrap());
    all.extend(push.on_event(PushEvent::BlobChecked { task: 1, present: false }).unwrap());
    all.extend(push.on_event(PushEvent::BlobFetched { task: 1, contents: b"b1".to_vec() }).unwrap());
    all.extend(push.on_event(PushEvent::BlobUploaded { task: 1 }).unwrap());
    all.extend(push.on_event(PushEvent::BlobUploaded { task: 2 }).unwrap());

    assert_eq!(
        all,
        vec![
            PushAction::FetchBlob { task: 1, digest: base_layer("b1").digest },
            PushAction::UploadBlob {
                task: 1,
                digest: base_layer("b1").digest,
                contents: b"b1".to_vec(),
            },
            PushAction::UploadManifest { tag: 0, name: TagName::try_new("latest").unwrap() },
        ]
    );
    assert_eq!(
        statuses(&push),
        vec![BlobStatus::Present, BlobStatus::Uploaded, BlobStatus::Uploaded]
    );
    for action in &all {
        match action {
            PushAction::FetchBlob { task, .. } | PushAction::UploadBlob { task, .. } => {
                assert_ne!(*task, 0)
            }
            _ => {}
        }
    }
}

#[test]
fn ensure_base_layer_fetches_only_what_is_missing() {
    let digest = sha256_digest(b"layer");
    assert_eq!(ensure_base_layer(4, &digest, true), None);
    assert_eq!(
        ensure_base_layer(4, &digest, false),
        Some(PushAction::FetchBlob { task: 4, digest })
    );
}

#[test]
fn manifest_is_uploaded_once_per_tag_when_every_blob_is_in_place() {
    let (mut push, _) = start(&["b0"], &["own"], &["v1", "latest"]);
    assert_eq!(push.on_event(PushEvent::BlobUploaded { task: 2 }).unwrap(), vec![]);
    assert_eq!(push.on_event(PushEvent::BlobUploaded { task: 1 }).unwrap(), vec![]);
    assert_eq!(push.outcome(), PushOutcome::Pending);
    let last = push.on_event(PushEvent::BlobChecked { task: 0, present: true }).unwrap();
    assert_eq!(
        last,
        vec![
            PushAction::UploadManifest { tag: 0, name: TagName::try_new("v1").unwrap() },
            PushAction::UploadManifest { tag: 1, name: TagName::try_new("latest").unwrap() },
        ]
    );
    assert_eq!(push.tags()[0].status, TagStatus::Uploading);
    assert_eq!(push.tags()[1].status, TagStatus::Uploading);
    assert_eq!(push.outcome(), PushOutcome::Pending);

    assert_eq!(push.on_event(PushEvent::ManifestUploaded { tag: 1 }).unwrap(), vec![]);
    assert_eq!(push.outcome(), PushOutcome::Pending);
    assert_eq!(push.on_event(PushEvent::ManifestUploaded { tag: 0 }).unwrap(), vec![]);
    assert_eq!(push.outcome(), PushOutcome::Finished(config_digest()));
}

#[test]
fn push_without_tags_finishes_with_the_blobs() {
    let (mut push, actions) = start(&[], &[], &[]);
    assert_eq!(actions.len(), 1);
    assert_eq!(push.on_event(PushEvent::BlobUploaded { task: 0 }).unwrap(), vec![]);
    assert_eq!(push.outcome(), PushOutcome::Finished(config_digest()));
}

#[test]
fn failed_task_keeps_the_manifest_back() {
    for failing in 0..4 {
        let (mut push, _) = start(&["b0", "b1"], &["own"], &["latest"]);
        let mut all = Vec::new();
        all.extend(push.on_event(PushEvent::BlobFailed { task: failing }).unwrap());
        assert_eq!(push.outcome(), PushOutcome::Failed);
        for task in 0..2 {
            if task != failing {
                all.extend(push.on_event(PushEvent::BlobChecked { task, present: true }).unwrap());
            }
        }
        for task in 2..4 {
            if task != failing {
                all.extend(push.on_event(PushEvent::BlobUploaded { task }).unwrap());
            }
        }
        assert!(all.is_empty(), "task {failing}");
        assert_eq!(push.outcome(), PushOutcome::Failed);
        assert_eq!(push.tags()[0].status, TagStatus::Waiting);
        assert_eq!(statuses(&push)[failing], BlobStatus::Failed);
    }
}

#[test]
fn failure_late_in_a_copy_keeps_the_manifest_back() {
    let (mut push, _) = start(&["b0"], &[], &["latest"]);
    push.on_event(PushEvent::BlobUploaded { task: 1 }).unwrap();
    push.on_event(PushEvent::BlobChecked { task: 0, present: false }).unwrap();
    push.on_event(PushEvent::BlobFetched { task: 0, contents: vec![1] }).unwrap();
    assert_eq!(push.on_event(PushEvent::BlobFailed { task: 0 }).unwrap(), vec![]);
    assert_eq!(push.outcome(), PushOutcome::Failed);
    assert_eq!(
        push.on_event(PushEvent::BlobUploaded { task: 0 }),
        Err(PushError::Unexpected)
    );
}

#[test]
fn siblings_of_a_failed_task_go_on() {
    let (mut push, _) = start(&["b0", "b1"], &[], &["latest"]);
    push.on_event(PushEvent::BlobFailed { task: 0 }).unwrap();
    assert_eq!(
        push.on_event(PushEvent::BlobChecked { task: 1, present: false }).unwrap(),
        vec![PushAction::FetchBlob { task: 1, digest: base_layer("b1").digest }]
    );
    assert_eq!(push.outcome(), PushOutcome::Failed);
}

#[test]
fn failed_manifest_upload_fails_the_push() {
    let (mut push, _) = start(&[], &[], &["a", "b"]);
    assert_eq!(push.on_event(PushEvent::BlobUploaded { task: 0 }).unwrap().len(), 2);
    push.on_event(PushEvent::ManifestUploaded { tag: 0 }).unwrap();
    push.on_event(PushEvent::ManifestFailed { tag: 1 }).unwrap();
    assert_eq!(push.tags()[0].status, TagStatus::Stored);
    assert_eq!(push.tags()[1].status, TagStatus::Failed);
    assert_eq!(push.outcome(), PushOutcome::Failed);
}

#[test]
fn events_that_no_task_waits_for_are_turned_down() {
    let (mut push, _) = start(&["b0"], &["own"], &["latest"]);
    let before = statuses(&push);
    let unexpected = [
        PushEvent::BlobChecked { task: 1, present: true },
        PushEvent::BlobChecked { task: 3, present: true },
        PushEvent::BlobFetched { task: 0, contents: Vec::new() },
        PushEvent::BlobUploaded { task: 0 },
        PushEvent::BlobUploaded { task: 7 },
        PushEvent::BlobFailed { task: 3 },
        PushEvent::ManifestUploaded { tag: 0 },
        PushEvent::ManifestFailed { tag: 0 },
        PushEvent::ManifestUploaded { tag: 1 },
    ];
    for event in unexpected {
        assert_eq!(push.on_event(event), Err(PushError::Unexpected));
    }
    assert_eq!(statuses(&push), before);
    assert_eq!(push.tags()[0].status, TagStatus::Waiting);

    push.on_event(PushEvent::BlobChecked { task: 0, present: true }).unwrap();
    assert_eq!(
        push.on_event(PushEvent::BlobChecked { task: 0, present: false }),
        Err(PushError::Unexpected)
    );
    assert_eq!(
        push.on_event(PushEvent::BlobFailed { task: 0 }),
        Err(PushError::Unexpected)
    );
}

#[test]
fn responses_become_events() {
    assert_eq!(
        PushEvent::checked(1, &response(200, b"")),
        PushEvent::BlobChecked { task: 1, present: true }
    );
    assert_eq!(
        PushEvent::checked(1, &response(404, b"")),
        PushEvent::BlobChecked { task: 1, present: false }
    );
    assert_eq!(
        PushEvent::fetched(2, response(200, b"abc")),
        PushEvent::BlobFetched { task: 2, contents: b"abc".to_vec() }
    );
    assert_eq!(PushEvent::fetched(2, response(404, b"abc")), PushEvent::BlobFailed { task: 2 });
    assert_eq!(PushEvent::uploaded(3, &response(201, b"")), PushEvent::BlobUploaded { task: 3 });
    assert_eq!(PushEvent::uploaded(3, &response(500, b"")), PushEvent::BlobFailed { task: 3 });

    let mut stored = response(201, b"");
    stored.headers.push((
        "Docker-Content-Digest".to_string(),
        Some(config_digest().to_string()),
    ));
    assert_eq!(PushEvent::stored(0, &stored), PushEvent::ManifestUploaded { tag: 0 });
    assert_eq!(PushEvent::stored(0, &response(201, b"")), PushEvent::ManifestFailed { tag: 0 });
    stored.status = 400;
    assert_eq!(PushEvent::stored(0, &stored), PushEvent::ManifestFailed { tag: 0 });
}

#[test]
fn fetch_goes_to_the_source_and_the_rest_to_the_target() {
    let (push, actions) = start(&["b0"], &["own"], &["latest"]);
    let target = client("target.io");
    let digest = base_layer("b0").digest;

    let check = push.request_for(&target, &actions[0], b"").unwrap();
    assert_eq!(check.method, Method::Head);
    assert_eq!(check.url, format!("https://target.io/v2/repo/blobs/{}", digest.as_str()));

    let fetch = push
        .request_for(&target, &PushAction::FetchBlob { task: 0, digest: digest.clone() }, b"")
        .unwrap();
    assert_eq!(fetch.method, Method::Get);
    assert_eq!(fetch.url, format!("https://source.io/v2/repo/blobs/{}", digest.as_str()));

    let upload = push.request_for(&target, &actions[1], b"").unwrap();
    assert_eq!(upload.method, Method::Post);
    assert_eq!(upload.url, "https://target.io/v2/repo/blobs/uploads/");

    let manifest = push
        .request_for(
            &target,
            &PushAction::UploadManifest { tag: 0, name: TagName::try_new("latest").unwrap() },
            b"{\"manifest\":true}",
        )
        .unwrap();
    assert_eq!(manifest.method, Method::Put);
    assert_eq!(manifest.url, "https://target.io/v2/repo/manifests/latest");
    assert_eq!(manifest.body, Some(b"{\"manifest\":true}".to_vec()));
    assert_eq!(
        manifest.headers[1],
        (
            "Content-Type".to_string(),
            "application/vnd.oci.image.manifest.v1+json".to_string()
        )
    );
}

#[test]
fn build_apply_and_push_against_a_registry_in_memory() {
    let archive = b"the archive of one file".to_vec();
    let layer = AppLayer::build_from_directory("app", archive).unwrap();
    let layer_digest = layer.descriptor.digest.clone();
    let layer_bytes = layer.contents.clone();

    let mut image = state(&["b0", "b1"], &[]);
    image.apply_layer(layer);
    let (mut push, first) = image.push_to(b"{\"config\":1}".to_vec(), tags(&["latest"]));

    let mut target: Vec<(Digest, Vec<u8>)> = vec![(base_layer("b0").digest, b"b0".to_vec())];
    let mut manifests: Vec<String> = Vec::new();
    let mut queue = first;
    while let Some(action) = queue.pop() {
        let event = match action {
            PushAction::CheckBlob { task, digest } => PushEvent::BlobChecked {
                task,
                present: target.iter().any(|(d, _)| *d == digest),
            },
            PushAction::FetchBlob { task, digest } => {
                assert_eq!(digest, base_layer("b1").digest);
                PushEvent::BlobFetched { task, contents: b"b1".to_vec() }
            }
            PushAction::UploadBlob { task, digest, contents } => {
                assert_eq!(sha256_digest(&contents), digest);
                target.push((digest, contents));
                PushEvent::BlobUploaded { task }
            }
            PushAction::UploadManifest { tag, name } => {
                for layer in &push.manifest().layers {
                    assert!(target.iter().any(|(d, _)| *d == layer.digest));
                }
                assert!(target.iter().any(|(d, _)| *d == push.manifest().config.digest));
                manifests.push(name.to_string());
                PushEvent::ManifestUploaded { tag }
            }
        };
        queue.extend(push.on_event(event).unwrap());
    }

    assert_eq!(push.outcome(), PushOutcome::Finished(config_digest()));
    assert_eq!(manifests, vec!["latest".to_string()]);
    assert_eq!(target.len(), 4);
    assert!(target.contains(&(layer_digest, layer_bytes)));
    assert_eq!(target.iter().filter(|(d, _)| *d == base_layer("b0").digest).count(), 1);
}
