//! The image under construction: the base image, the layers added to it,
//! and the changes to its configuration.

use crate::app_layer::{AppLayer, AppLayerView};
use crate::digest::{sha256_digest, sha256_digest_text};
use crate::image::{
    empty_exec_config, image_config_media_type, image_config_type,
    image_manifest_media_type, image_manifest_type, layer_gzip_media_type, layer_gzip_type,
    legacy_layer_gzip_type, patched_exec_config, Descriptor, DescriptorView, ExecConfig,
    ExecConfigView, HistoryEntry, HistoryEntryView, ImageConfiguration, ImageConfigurationView,
    ImageManifest, ImageManifestView, RootFsView,
};
use crate::push::{
    start_actions, start_blobs, start_tags, Push, PushAction, PushActionView, PushView,
};
use crate::recipe::TagName;
use crate::registry_client::{RegistryClient, RegistryClientView};
use vstd::prelude::*;
use vstd::string::StringExecFns;

verus! {

/// A base layer as the manifest under construction lists it: a layer of the
/// legacy gzip type is given the gzip type of the image format, any other
/// layer stays as it is.
pub open spec fn normalized_layer(d: DescriptorView) -> DescriptorView {
    if d.media_type == legacy_layer_gzip_type() {
        DescriptorView { media_type: layer_gzip_type(), ..d }
    } else {
        d
    }
}

/// The descriptor of a serialized configuration.
pub open spec fn config_descriptor(bytes: Seq<u8>) -> DescriptorView {
    DescriptorView {
        media_type: image_config_type(),
        size: bytes.len() as u64,
        digest: sha256_digest_text(bytes),
        platform: None,
    }
}

/// The serialized configuration as a blob: the bytes and their descriptor.
pub fn image_configuration_to_blob(config_bytes: Vec<u8>) -> (res: (Vec<u8>, Descriptor))
    ensures
        res.0@ == config_bytes@,
        res.1@ == config_descriptor(config_bytes@),
{
    let digest = sha256_digest(config_bytes.as_slice());
    let size = config_bytes.len() as u64;
    let descriptor = Descriptor::new(image_config_media_type(), size, digest);
    (config_bytes, descriptor)
}

/// An image under construction.
pub struct PreparationState {
    manifest: ImageManifest,
    configuration: ImageConfiguration,
    base_layers: Vec<Descriptor>,
    own_layers: Vec<AppLayer>,
    base_provider: RegistryClient,
}

/// An image under construction as a plain value.
pub ghost struct PreparationStateView {
    pub manifest: ImageManifestView,
    pub configuration: ImageConfigurationView,
    pub base_layers: Seq<DescriptorView>,
    pub own_layers: Seq<AppLayerView>,
    pub base_provider: RegistryClientView,
}

impl View for PreparationState {
    type V = PreparationStateView;

    closed spec fn view(&self) -> PreparationStateView {
        PreparationStateView {
            manifest: self.manifest@,
            configuration: self.configuration@,
            base_layers: self.base_layers.deep_view(),
            own_layers: self.own_layers.deep_view(),
            base_provider: self.base_provider@,
        }
    }
}

/// The state in which construction begins: the manifest has the manifest
/// type of the image format and lists the base layers normalized; the base
/// layers are kept as they were pulled; no layer has been added.
pub open spec fn prepared(
    manifest: ImageManifestView,
    configuration: ImageConfigurationView,
    base_provider: RegistryClientView,
) -> PreparationStateView {
    PreparationStateView {
        manifest: ImageManifestView {
            media_type: image_manifest_type(),
            config: manifest.config,
            layers: manifest.layers.map_values(|d: DescriptorView| normalized_layer(d)),
        },
        configuration,
        base_layers: manifest.layers,
        own_layers: Seq::empty(),
        base_provider,
    }
}

/// The state after `layer` was added on top.
pub open spec fn applied(s: PreparationStateView, layer: AppLayerView) -> PreparationStateView {
    PreparationStateView {
        manifest: ImageManifestView {
            layers: s.manifest.layers.push(layer.descriptor),
            ..s.manifest
        },
        configuration: ImageConfigurationView {
            rootfs: RootFsView { diff_ids: s.configuration.rootfs.diff_ids.push(layer.diff_id) },
            history: s.configuration.history.push(
                HistoryEntryView { created_by: layer.created_by, empty_layer: false },
            ),
            config: s.configuration.config,
        },
        own_layers: s.own_layers.push(layer),
        ..s
    }
}

/// The execution configuration that a patch is laid on: the one that is
/// there, or the empty one.
pub open spec fn base_exec_config(config: Option<ExecConfigView>) -> ExecConfigView {
    match config {
        Some(c) => c,
        None => empty_exec_config(),
    }
}

/// The instruction recorded for a patch that left the execution
/// configuration as `rendered` shows it.
pub open spec fn config_instruction(rendered: Seq<char>) -> Seq<char> {
    "KLT CONFIG "@ + rendered
}

/// The state after `patch` was laid on the execution configuration. The
/// history gains an entry without a layer.
pub open spec fn patched(
    s: PreparationStateView,
    patch: ExecConfigView,
    rendered: Seq<char>,
) -> PreparationStateView {
    PreparationStateView {
        configuration: ImageConfigurationView {
            rootfs: s.configuration.rootfs,
            history: s.configuration.history.push(
                HistoryEntryView { created_by: config_instruction(rendered), empty_layer: true },
            ),
            config: Some(patched_exec_config(base_exec_config(s.configuration.config), patch)),
        },
        ..s
    }
}

impl PreparationStateView {
    /// The manifest lists the base layers, normalized, and then the layers
    /// that were added, in the order in which they were added.
    pub open spec fn well_formed(self) -> bool {
        &&& self.manifest.layers.len() == self.base_layers.len() + self.own_layers.len()
        &&& forall|i: int|
            0 <= i < self.base_layers.len() ==> #[trigger] self.manifest.layers[i]
                == normalized_layer(self.base_layers[i])
        &&& forall|i: int|
            0 <= i < self.own_layers.len() ==> #[trigger] self.manifest.layers[self.base_layers.len()
                + i] == self.own_layers[i].descriptor
    }

    /// The configuration has one diff id for each layer of the manifest, and
    /// those of the layers that were added are the diff ids of these
    /// layers.
    pub open spec fn aligned(self) -> bool {
        &&& self.configuration.rootfs.diff_ids.len() == self.manifest.layers.len()
        &&& forall|i: int|
            0 <= i < self.own_layers.len() ==> #[trigger] self.configuration.rootfs.diff_ids[self.base_layers.len()
                + i] == self.own_layers[i].diff_id
    }
}

/// The push with which the publication of the image begins: one task for
/// each base layer, for each layer that was added and for the
/// configuration, and the manifest with the descriptor of the configuration
/// as it is serialized in `config_bytes`.
pub open spec fn pushed(
    s: PreparationStateView,
    config_bytes: Seq<u8>,
    tags: Seq<Seq<char>>,
) -> PushView {
    PushView {
        blobs: start_blobs(s.base_layers, s.own_layers, config_descriptor(config_bytes)),
        tags: start_tags(tags),
        manifest: ImageManifestView { config: config_descriptor(config_bytes), ..s.manifest },
        base_provider: s.base_provider,
    }
}

/// The action uploads bytes under their own digest.
pub open spec fn uploads_own_digest(a: PushActionView) -> bool {
    a matches PushActionView::UploadBlob { task, digest, contents } ==> digest
        == sha256_digest_text(contents)
}

/// Every upload with which a push begins carries bytes under their own
/// digest, where the descriptor of every layer that was added is that of
/// its contents.
pub proof fn lemma_push_begins_with_own_digests(
    s: PreparationStateView,
    config_bytes: Seq<u8>,
)
    requires
        forall|i: int| 0 <= i < s.own_layers.len() ==> (#[trigger] s.own_layers[i]).describes_contents(),
    ensures
        forall|i: int|
            0 <= i < start_actions(
                s.base_layers,
                s.own_layers,
                config_descriptor(config_bytes),
                config_bytes,
            ).len() ==> uploads_own_digest(
                #[trigger] start_actions(
                    s.base_layers,
                    s.own_layers,
                    config_descriptor(config_bytes),
                    config_bytes,
                )[i],
            ),
{
    let actions = start_actions(
        s.base_layers,
        s.own_layers,
        config_descriptor(config_bytes),
        config_bytes,
    );
    assert forall|i: int| 0 <= i < actions.len() implies uploads_own_digest(
        #[trigger] actions[i],
    ) by {
        if s.base_layers.len() <= i < s.base_layers.len() + s.own_layers.len() {
            assert(s.own_layers[i - s.base_layers.len()].describes_contents());
        }
    }
}

/// Adding a layer keeps the manifest in order, and keeps the diff ids
/// parallel to the layers where they were.
pub proof fn lemma_applied_keeps_order(s: PreparationStateView, layer: AppLayerView)
    requires
        s.well_formed(),
    ensures
        applied(s, layer).well_formed(),
        s.aligned() ==> applied(s, layer).aligned(),
{
    let r = applied(s, layer);
    assert forall|i: int| 0 <= i < r.own_layers.len() implies #[trigger] r.manifest.layers[r.base_layers.len()
        + i] == r.own_layers[i].descriptor by {
        if i < s.own_layers.len() {
            assert(s.manifest.layers[s.base_layers.len() + i] == s.own_layers[i].descriptor);
        }
    }
    assert forall|i: int| 0 <= i < r.base_layers.len() implies #[trigger] r.manifest.layers[i]
        == normalized_layer(r.base_layers[i]) by {
        assert(s.manifest.layers[i] == normalized_layer(s.base_layers[i]));
    }
    if s.aligned() {
        assert forall|i: int| 0 <= i < r.own_layers.len() implies #[trigger] r.configuration.rootfs.diff_ids[r.base_layers.len()
            + i] == r.own_layers[i].diff_id by {
            if i < s.own_layers.len() {
                assert(s.configuration.rootfs.diff_ids[s.base_layers.len() + i]
                    == s.own_layers[i].diff_id);
            }
        }
    }
}

/// The state after the layers of `layers` were added, the first one first.
pub open spec fn applied_all(s: PreparationStateView, layers: Seq<AppLayerView>) -> PreparationStateView
    decreases layers.len(),
{
    if layers.len() == 0 {
        s
    } else {
        applied(applied_all(s, layers.drop_last()), layers.last())
    }
}

/// After any number of layers were added to an image whose diff ids were
/// parallel to its layers, they still are: there is one diff id for each
/// layer, their number is that of the base layers and of all layers added,
/// and the layer added as the `i`-th stands `i` places after those that were
/// there, with its descriptor in the manifest and its diff id in the
/// configuration.
pub proof fn lemma_layers_stay_parallel(s: PreparationStateView, layers: Seq<AppLayerView>)
    requires
        s.well_formed(),
        s.aligned(),
    ensures
        ({
            let r = applied_all(s, layers);
            let n = s.base_layers.len() + s.own_layers.len();
            &&& r.well_formed()
            &&& r.aligned()
            &&& r.base_layers == s.base_layers
            &&& r.own_layers == s.own_layers + layers
            &&& r.manifest.layers.len() == n + layers.len()
            &&& r.configuration.rootfs.diff_ids.len() == n + layers.len()
            &&& forall|i: int|
                0 <= i < layers.len() ==> {
                    &&& r.manifest.layers[n + i] == (#[trigger] layers[i]).descriptor
                    &&& r.configuration.rootfs.diff_ids[n + i] == layers[i].diff_id
                }
        }),
    decreases layers.len(),
{
    let n = s.base_layers.len() + s.own_layers.len();
    if layers.len() == 0 {
        assert(s.own_layers + layers =~= s.own_layers);
    } else {
        let before = applied_all(s, layers.drop_last());
        lemma_layers_stay_parallel(s, layers.drop_last());
        lemma_applied_keeps_order(before, layers.last());
        let r = applied_all(s, layers);
        assert(r.own_layers =~= s.own_layers + layers);
        assert forall|i: int| 0 <= i < layers.len() implies {
            &&& r.manifest.layers[n + i] == (#[trigger] layers[i]).descriptor
            &&& r.configuration.rootfs.diff_ids[n + i] == layers[i].diff_id
        } by {
            if i < layers.len() - 1 {
                assert(layers.drop_last()[i] == layers[i]);
            }
        }
    }
}

/// Counted from the base image: after `layers` were added to an image that
/// was pulled with one diff id for each of its layers, the manifest lists
/// as many layers as the configuration lists diff ids, namely those of the
/// base image and one for each layer added; and the layer added as the
/// `i`-th stands `i` places after the base layers, in the manifest with
/// its descriptor and in the configuration with its diff id.
pub proof fn lemma_layers_follow_base(
    manifest: ImageManifestView,
    configuration: ImageConfigurationView,
    base_provider: RegistryClientView,
    layers: Seq<AppLayerView>,
)
    requires
        configuration.rootfs.diff_ids.len() == manifest.layers.len(),
    ensures
        ({
            let r = applied_all(prepared(manifest, configuration, base_provider), layers);
            let base = manifest.layers.len();
            &&& r.manifest.layers.len() == base + layers.len()
            &&& r.configuration.rootfs.diff_ids.len() == base + layers.len()
            &&& r.base_layers == manifest.layers
            &&& r.own_layers == layers
            &&& forall|i: int|
                0 <= i < base ==> #[trigger] r.manifest.layers[i] == normalized_layer(
                    manifest.layers[i],
                ) && r.configuration.rootfs.diff_ids[i] == configuration.rootfs.diff_ids[i]
            &&& forall|i: int|
                0 <= i < layers.len() ==> {
                    &&& r.manifest.layers[base + i] == (#[trigger] layers[i]).descriptor
                    &&& r.configuration.rootfs.diff_ids[base + i] == layers[i].diff_id
                }
        }),
{
    let s = prepared(manifest, configuration, base_provider);
    lemma_layers_stay_parallel(s, layers);
    lemma_base_is_kept(s, layers);
    assert(s.own_layers + layers =~= layers);
}

/// Adding layers leaves what was there where it was: the layers and the
/// diff ids that an image had stay at their places.
pub proof fn lemma_base_is_kept(s: PreparationStateView, layers: Seq<AppLayerView>)
    ensures
        ({
            let r = applied_all(s, layers);
            &&& r.manifest.layers.len() == s.manifest.layers.len() + layers.len()
            &&& r.configuration.rootfs.diff_ids.len() == s.configuration.rootfs.diff_ids.len()
                + layers.len()
            &&& r.configuration.history.len() == s.configuration.history.len() + layers.len()
            &&& forall|i: int|
                0 <= i < s.manifest.layers.len() ==> #[trigger] r.manifest.layers[i]
                    == s.manifest.layers[i]
            &&& forall|i: int|
                0 <= i < s.configuration.rootfs.diff_ids.len()
                    ==> #[trigger] r.configuration.rootfs.diff_ids[i]
                    == s.configuration.rootfs.diff_ids[i]
            &&& forall|i: int|
                0 <= i < s.configuration.history.len() ==> #[trigger] r.configuration.history[i]
                    == s.configuration.history[i]
            &&& r.manifest.media_type == s.manifest.media_type
            &&& r.manifest.config == s.manifest.config
            &&& r.configuration.config == s.configuration.config
            &&& r.base_provider == s.base_provider
        }),
    decreases layers.len(),
{
    if layers.len() > 0 {
        lemma_base_is_kept(s, layers.drop_last());
    }
}

/// A patch leaves the layers and their diff ids alone.
pub proof fn lemma_patched_keeps_order(
    s: PreparationStateView,
    patch: ExecConfigView,
    rendered: Seq<char>,
)
    ensures
        s.well_formed() ==> patched(s, patch, rendered).well_formed(),
        s.aligned() ==> patched(s, patch, rendered).aligned(),
        patched(s, patch, rendered).manifest == s.manifest,
        patched(s, patch, rendered).configuration.rootfs == s.configuration.rootfs,
{
}

fn normalize(layer: &Descriptor, legacy: &String) -> (res: Descriptor)
    requires
        legacy@ == legacy_layer_gzip_type(),
    ensures
        res@ == normalized_layer(layer@),
{
    let mut copy = layer.clone();
    if layer.media_type == *legacy {
        copy.media_type = layer_gzip_media_type();
    }
    copy
}

impl PreparationState {
    /// Begins construction on the base image that was pulled through
    /// `base_provider`.
    pub fn new(
        manifest: ImageManifest,
        configuration: ImageConfiguration,
        base_provider: RegistryClient,
    ) -> (res: Self)
        ensures
            res@ == prepared(manifest@, configuration@, base_provider@),
            res@.well_formed(),
            res@.aligned() <==> configuration@.rootfs.diff_ids.len() == manifest@.layers.len(),
    {
        let legacy = String::from_str("application/vnd.docker.image.rootfs.diff.tar.gzip");
        let mut layers: Vec<Descriptor> = Vec::new();
        let mut i: usize = 0;
        while i < manifest.layers.len()
            invariant
                i <= manifest.layers.len(),
                legacy@ == legacy_layer_gzip_type(),
                layers.len() == i,
                forall|j: int| 0 <= j < i ==> layers[j]@ == normalized_layer(manifest.layers[j]@),
            decreases manifest.layers.len() - i,
        {
            layers.push(normalize(&manifest.layers[i], &legacy));
            i = i + 1;
        }
        assert(layers.deep_view() =~= manifest@.layers.map_values(
            |d: DescriptorView| normalized_layer(d),
        ));
        let own_layers: Vec<AppLayer> = Vec::new();
        assert(own_layers.deep_view() =~= Seq::<AppLayerView>::empty());
        PreparationState {
            manifest: ImageManifest {
                media_type: image_manifest_media_type(),
                config: manifest.config,
                layers,
            },
            configuration,
            base_layers: manifest.layers,
            own_layers,
            base_provider,
        }
    }

    /// The manifest as it stands.
    pub fn manifest(&self) -> (res: &ImageManifest)
        ensures
            res@ == self@.manifest,
    {
        &self.manifest
    }

    /// The configuration as it stands.
    pub fn configuration(&self) -> (res: &ImageConfiguration)
        ensures
            res@ == self@.configuration,
    {
        &self.configuration
    }

    /// The layers of the base image, as they were pulled.
    pub fn base_layers(&self) -> (res: &Vec<Descriptor>)
        ensures
            res.deep_view() == self@.base_layers,
    {
        &self.base_layers
    }

    /// The layers that were added, in the order in which they were added.
    pub fn own_layers(&self) -> (res: &Vec<AppLayer>)
        ensures
            res.deep_view() == self@.own_layers,
    {
        &self.own_layers
    }

    /// The session through which the base image was pulled.
    pub fn base_provider(&self) -> (res: &RegistryClient)
        ensures
            res@ == self@.base_provider,
    {
        &self.base_provider
    }

    /// Whether the configuration has one diff id for each layer.
    pub fn is_aligned(&self) -> (res: bool)
        ensures
            res == (self@.configuration.rootfs.diff_ids.len() == self@.manifest.layers.len()),
    {
        self.configuration.rootfs.diff_ids.len() == self.manifest.layers.len()
    }

    /// Adds `layer` on top: its diff id, an entry in the history, its
    /// descriptor, and the layer itself for the push.
    pub fn apply_layer(&mut self, layer: AppLayer)
        ensures
            final(self)@ == applied(old(self)@, layer@),
            old(self)@.well_formed() ==> final(self)@.well_formed(),
            old(self)@.aligned() && old(self)@.well_formed() ==> final(self)@.aligned(),
    {
        self.configuration.rootfs.diff_ids.push(layer.diff_id.clone());
        self.configuration.history.push(
            HistoryEntry { created_by: layer.created_by.clone(), empty_layer: false },
        );
        self.manifest.layers.push(layer.descriptor.clone());
        self.own_layers.push(layer);
        proof {
            let before = old(self)@;
            assert(self.configuration.rootfs.diff_ids.deep_view()
                =~= before.configuration.rootfs.diff_ids.push(layer.diff_id@));
            assert(self.configuration.history.deep_view() =~= before.configuration.history.push(
                HistoryEntryView { created_by: layer.created_by@, empty_layer: false },
            ));
            assert(self.manifest.layers.deep_view() =~= before.manifest.layers.push(
                layer.descriptor@,
            ));
            assert(self.own_layers.deep_view() =~= before.own_layers.push(layer@));
            if before.well_formed() {
                lemma_applied_keeps_order(before, layer@);
            }
        }
    }

    /// Ends construction and begins the push under `tags`. `config_bytes`
    /// is the configuration as it stands, serialized. The actions returned
    /// are the first to carry out: a check for each base layer, an upload
    /// for each layer that was added, and the upload of the configuration.
    pub fn push_to(self, config_bytes: Vec<u8>, tags: Vec<TagName>) -> (res: (Push, Vec<PushAction>))
        ensures
            res.0@ == pushed(self@, config_bytes@, tags.deep_view()),
            res.1.deep_view() == start_actions(
                self@.base_layers,
                self@.own_layers,
                config_descriptor(config_bytes@),
                config_bytes@,
            ),
    {
        let (bytes, descriptor) = image_configuration_to_blob(config_bytes);
        let manifest = ImageManifest {
            media_type: self.manifest.media_type,
            config: descriptor,
            layers: self.manifest.layers,
        };
        Push::start(manifest, self.base_layers, self.own_layers, self.base_provider, bytes, tags)
    }

    /// The execution configuration as `patch` would leave it.
    pub fn patched_execution_config(&self, patch: &ExecConfig) -> (res: ExecConfig)
        ensures
            res@ == patched_exec_config(base_exec_config(self@.configuration.config), patch@),
    {
        match &self.configuration.config {
            Some(base) => base.patched(patch),
            None => ExecConfig::default().patched(patch),
        }
    }

    /// Lays `patch` on the execution configuration and records the change
    /// in the history. `rendered` is the text that the history shows for the
    /// configuration as the patch leaves it.
    pub fn patch_execution_config(&mut self, patch: &ExecConfig, rendered: &str)
        ensures
            final(self)@ == patched(old(self)@, patch@, rendered@),
            old(self)@.well_formed() ==> final(self)@.well_formed(),
            old(self)@.aligned() ==> final(self)@.aligned(),
    {
        let exec_config = self.patched_execution_config(patch);
        self.configuration.history.push(
            HistoryEntry {
                created_by: String::from_str("KLT CONFIG ").concat(rendered),
                empty_layer: true,
            },
        );
        self.configuration.config = Some(exec_config);
        proof {
            let before = old(self)@;
            assert(self.configuration.history.deep_view() =~= before.configuration.history.push(
                HistoryEntryView { created_by: config_instruction(rendered@), empty_layer: true },
            ));
        }
    }
}

} // verus!
