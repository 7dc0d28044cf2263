use klt::app_layer::AppLayer;
use klt::digest::{sha256_digest, Digest};
use klt::image::{
    image_config_media_type, image_manifest_media_type, layer_gzip_media_type, Descriptor,
    ExecConfig, HistoryEntry, ImageConfiguration, ImageManifest, RootFs,
};
use klt::kitchen::{image_configuration_to_blob, PreparationState};
use klt::registry_client::{RegistryClient, Scheme};

const DOCKER_LAYER: &str = "application/vnd.docker.image.rootfs.diff.tar.gzip";
const OCI_LAYER: &str = "application/vnd.oci.image.layer.v1.tar+gzip";

fn source() -> RegistryClient {
    RegistryClient {
        scheme: Scheme::Https,
        registry: "source.io".to_string(),
        repo: "base".to_string(),
        token: "t".to_string(),
    }
}

fn layer_descriptor(media_type: &str, seed: &[u8]) -> Descriptor {
    Descriptor::new(media_type.to_string(), seed.len() as u64, sha256_digest(seed))
}

fn base_image(layers: Vec<Descriptor>, env: Option<Vec<&str>>) -> (ImageManifest, ImageConfiguration) {
    let diff_ids: Vec<Digest> = (0..layers.len())
        .map(|i| sha256_digest(format!("diff {i}").as_bytes()))
        .collect();
    let history = (0..layers.len())
        .map(|i| HistoryEntry { created_by: format!("base step {i}"), empty_layer: false })
        .collect();
    let manifest = ImageManifest {
        media_type: "application/vnd.docker.distribution.manifest.v2+json".to_string(),
        config: layer_descriptor("application/vnd.docker.container.image.v1+json", b"config"),
        layers,
    };
    let config = env.map(|env| ExecConfig {
        env: Some(env.into_iter().map(String::from).collect()),
        ..ExecConfig::default()
    });
    let configuration = ImageConfiguration { rootfs: RootFs { diff_ids }, history, config };
    (manifest, configuration)
}

fn app_layer(name: &str) -> AppLayer {
    AppLayer::assemble(name, sha256_digest(name.as_bytes()), name.as_bytes().to_vec())
}

#[test]
fn new_keeps_the_base_layers_and_normalizes_the_manifest() {
    let layers = vec![
        layer_descriptor(DOCKER_LAYER, b"one"),
        layer_descriptor(OCI_LAYER, b"two"),
        layer_descriptor("application/vnd.oci.image.layer.v1.tar", b"three"),
    ];
    let (manifest, configuration) = base_image(layers.clone(), None);
    let config_descriptor = manifest.config.clone();
    let state = PreparationState::new(manifest, base_image(layers.clone(), None).1, source());

    assert_eq!(state.base_layers(), &layers);
    assert!(state.own_layers().is_empty());
    assert_eq!(state.manifest().media_type, "application/vnd.oci.image.manifest.v1+json");
    assert_eq!(state.manifest().config, config_descriptor);
    assert_eq!(state.manifest().layers.len(), 3);
    assert_eq!(state.manifest().layers[0].media_type, OCI_LAYER);
    assert_eq!(state.manifest().layers[0].digest, layers[0].digest);
    assert_eq!(state.manifest().layers[0].size, layers[0].size);
    assert_eq!(state.manifest().layers[1], layers[1]);
    assert_eq!(state.manifest().layers[2], layers[2]);
    assert_eq!(state.configuration(), &configuration);
    assert_eq!(state.base_provider(), &source());
    assert!(state.is_aligned());
}

#[test]
fn new_reports_a_base_image_whose_diff_ids_do_not_match() {
    let (manifest, mut configuration) = base_image(vec![layer_descriptor(OCI_LAYER, b"one")], None);
    configuration.rootfs.diff_ids.clear();
    let state = PreparationState::new(manifest, configuration, source());
    assert!(!state.is_aligned());
}

#[test]
fn applied_layers_follow_the_base_layers_in_call_order() {
    let base = vec![layer_descriptor(DOCKER_LAYER, b"one"), layer_descriptor(OCI_LAYER, b"two")];
    let (manifest, configuration) = base_image(base.clone(), None);
    let mut state = PreparationState::new(manifest, configuration, source());

    let added = ["first", "second", "third"];
    for (n, name) in added.iter().enumerate() {
        state.apply_layer(app_layer(name));
        assert_eq!(state.manifest().layers.len(), base.len() + n + 1);
        assert_eq!(state.configuration().rootfs.diff_ids.len(), base.len() + n + 1);
        assert!(state.is_aligned());
    }

    assert_eq!(state.base_layers(), &base);
    assert_eq!(state.own_layers().len(), 3);
    for (i, name) in added.iter().enumerate() {
        let layer = app_layer(name);
        assert_eq!(state.manifest().layers[base.len() + i], layer.descriptor);
        assert_eq!(state.configuration().rootfs.diff_ids[base.len() + i], layer.diff_id);
        assert_eq!(
            state.configuration().history[base.len() + i],
            HistoryEntry { created_by: format!("KLT COPY {name}/* /"), empty_layer: false }
        );
        assert_eq!(state.own_layers()[i], layer);
    }
}

#[test]
fn patch_appends_to_lists_and_does_not_override() {
    let (manifest, configuration) = base_image(Vec::new(), Some(vec!["B=2"]));
    let mut state = PreparationState::new(manifest, configuration, source());
    let patch = ExecConfig { env: Some(vec!["A=1".to_string()]), ..ExecConfig::default() };

    let merged = state.patched_execution_config(&patch);
    assert_eq!(merged.env, Some(vec!["B=2".to_string(), "A=1".to_string()]));

    state.patch_execution_config(&patch, "{\"Env\":[\"B=2\",\"A=1\"]}");
    assert_eq!(state.configuration().config, Some(merged));
    assert_eq!(
        state.configuration().history,
        vec![HistoryEntry {
            created_by: "KLT CONFIG {\"Env\":[\"B=2\",\"A=1\"]}".to_string(),
            empty_layer: true,
        }]
    );
    assert!(state.manifest().layers.is_empty());
    assert!(state.configuration().rootfs.diff_ids.is_empty());
    assert!(state.own_layers().is_empty());
}

#[test]
fn patch_keeps_duplicates_and_same_named_entries() {
    let base = ExecConfig {
        env: Some(vec!["A=1".to_string()]),
        labels: Some(vec![("k".to_string(), "old".to_string())]),
        exposed_ports: Some(vec!["80/tcp".to_string()]),
        volumes: None,
        ..ExecConfig::default()
    };
    let patch = ExecConfig {
        env: Some(vec!["A=1".to_string(), "A=2".to_string()]),
        labels: Some(vec![("k".to_string(), "new".to_string())]),
        exposed_ports: Some(Vec::new()),
        volumes: Some(vec!["/data".to_string()]),
        ..ExecConfig::default()
    };
    let merged = base.patched(&patch);
    assert_eq!(
        merged.env,
        Some(vec!["A=1".to_string(), "A=1".to_string(), "A=2".to_string()])
    );
    assert_eq!(
        merged.labels,
        Some(vec![
            ("k".to_string(), "old".to_string()),
            ("k".to_string(), "new".to_string()),
        ])
    );
    assert_eq!(merged.exposed_ports, Some(vec!["80/tcp".to_string()]));
    assert_eq!(merged.volumes, Some(vec!["/data".to_string()]));
}

#[test]
fn patch_replaces_scalars_only_where_it_has_them() {
    let base = ExecConfig {
        user: Some("root".to_string()),
        working_dir: Some("/".to_string()),
        cmd: Some(vec!["sh".to_string()]),
        entrypoint: Some(vec!["/init".to_string()]),
        stop_signal: None,
        env: Some(vec!["A=1".to_string()]),
        ..ExecConfig::default()
    };
    let patch = ExecConfig {
        user: Some("app".to_string()),
        cmd: Some(vec!["run".to_string(), "--now".to_string()]),
        entrypoint: Some(vec!["/other".to_string()]),
        stop_signal: Some("SIGTERM".to_string()),
        ..ExecConfig::default()
    };
    let merged = base.patched(&patch);
    assert_eq!(merged.user, Some("app".to_string()));
    assert_eq!(merged.working_dir, Some("/".to_string()));
    assert_eq!(merged.cmd, Some(vec!["run".to_string(), "--now".to_string()]));
    assert_eq!(merged.entrypoint, Some(vec!["/init".to_string()]));
    assert_eq!(merged.stop_signal, Some("SIGTERM".to_string()));
    assert_eq!(merged.env, Some(vec!["A=1".to_string()]));
    assert_eq!(merged.labels, None);

    assert_eq!(base.patched(&ExecConfig::default()), base);
    assert_eq!(base.clone(), base);
}

#[test]
fn patch_on_an_image_without_execution_config_starts_from_nothing() {
    let (manifest, configuration) = base_image(Vec::new(), None);
    let mut state = PreparationState::new(manifest, configuration, source());
    let patch = ExecConfig {
        working_dir: Some("/app".to_string()),
        labels: Some(vec![("a".to_string(), "b".to_string())]),
        ..ExecConfig::default()
    };
    state.patch_execution_config(&patch, "x");
    assert_eq!(state.configuration().config, Some(patch));
}

#[test]
fn configuration_blob_is_described_by_its_bytes() {
    let (bytes, descriptor) = image_configuration_to_blob(b"{}".to_vec());
    assert_eq!(bytes, b"{}");
    assert_eq!(descriptor.media_type, "application/vnd.oci.image.config.v1+json");
    assert_eq!(descriptor.size, 2);
    assert_eq!(
        descriptor.digest.as_str(),
        "sha256:44136fa355b3678a1146ad16f7e8649e94fb4fc21fe77e8310c060f61caaff8a"
    );
    assert_eq!(descriptor.platform, None);
}

#[test]
fn media_type_names() {
    assert_eq!(image_manifest_media_type(), "application/vnd.oci.image.manifest.v1+json");
    assert_eq!(image_config_media_type(), "application/vnd.oci.image.config.v1+json");
    assert_eq!(layer_gzip_media_type(), OCI_LAYER);
}
