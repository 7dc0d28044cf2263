//! The parts of an image that assembly reads and writes: descriptors, the
//! manifest, the index and the configuration.

use crate::digest::Digest;
use vstd::prelude::*;
use vstd::string::StringExecFns;

verus! {

/// Media type of an image manifest.
pub open spec fn image_manifest_type() -> Seq<char> {
    "application/vnd.oci.image.manifest.v1+json"@
}

/// Media type of an image index.
pub open spec fn image_index_type() -> Seq<char> {
    "application/vnd.oci.image.index.v1+json"@
}

/// Media type of a manifest list, the older form of an index.
pub open spec fn manifest_list_type() -> Seq<char> {
    "application/vnd.docker.distribution.manifest.list.v2+json"@
}

/// Media type of an image configuration.
pub open spec fn image_config_type() -> Seq<char> {
    "application/vnd.oci.image.config.v1+json"@
}

/// Media type of a gzip-compressed layer.
pub open spec fn layer_gzip_type() -> Seq<char> {
    "application/vnd.oci.image.layer.v1.tar+gzip"@
}

/// Media type that older registries give to a gzip-compressed layer.
pub open spec fn legacy_layer_gzip_type() -> Seq<char> {
    "application/vnd.docker.image.rootfs.diff.tar.gzip"@
}

/// The media type of an image manifest.
pub fn image_manifest_media_type() -> (res: String)
    ensures
        res@ == image_manifest_type(),
{
    String::from_str("application/vnd.oci.image.manifest.v1+json")
}

/// The media type of an image configuration.
pub fn image_config_media_type() -> (res: String)
    ensures
        res@ == image_config_type(),
{
    String::from_str("application/vnd.oci.image.config.v1+json")
}

/// The media type of a gzip-compressed layer.
pub fn layer_gzip_media_type() -> (res: String)
    ensures
        res@ == layer_gzip_type(),
{
    String::from_str("application/vnd.oci.image.layer.v1.tar+gzip")
}

/// A copy of a list of texts.
pub fn clone_strings(v: &Vec<String>) -> (res: Vec<String>)
    ensures
        res.deep_view() == v.deep_view(),
{
    let res = v.clone();
    assert(res.deep_view() =~= v.deep_view());
    res
}

/// The architecture and operating system that a manifest is built for.
#[derive(Debug, PartialEq, Eq)]
pub struct Platform {
    pub architecture: String,
    pub os: String,
}

/// A platform as a plain value.
pub ghost struct PlatformView {
    pub architecture: Seq<char>,
    pub os: Seq<char>,
}

impl View for Platform {
    type V = PlatformView;

    open spec fn view(&self) -> PlatformView {
        PlatformView { architecture: self.architecture@, os: self.os@ }
    }
}

impl DeepView for Platform {
    type V = PlatformView;

    open spec fn deep_view(&self) -> PlatformView {
        self@
    }
}

impl Clone for Platform {
    fn clone(&self) -> (res: Self)
        ensures
            res@ == self@,
    {
        Platform { architecture: self.architecture.clone(), os: self.os.clone() }
    }
}

/// A pointer to content: its media type, its size in bytes and its digest.
#[derive(Debug, PartialEq, Eq)]
pub struct Descriptor {
    pub media_type: String,
    pub size: u64,
    pub digest: Digest,
    pub platform: Option<Platform>,
}

/// A descriptor as a plain value.
pub ghost struct DescriptorView {
    pub media_type: Seq<char>,
    pub size: u64,
    pub digest: Seq<char>,
    pub platform: Option<PlatformView>,
}

impl View for Descriptor {
    type V = DescriptorView;

    open spec fn view(&self) -> DescriptorView {
        DescriptorView {
            media_type: self.media_type@,
            size: self.size,
            digest: self.digest@,
            platform: self.platform.deep_view(),
        }
    }
}

impl DeepView for Descriptor {
    type V = DescriptorView;

    open spec fn deep_view(&self) -> DescriptorView {
        self@
    }
}

impl Clone for Descriptor {
    fn clone(&self) -> (res: Self)
        ensures
            res@ == self@,
    {
        let platform = match &self.platform {
            Some(p) => Some(p.clone()),
            None => None,
        };
        Descriptor {
            media_type: self.media_type.clone(),
            size: self.size,
            digest: self.digest.clone(),
            platform,
        }
    }
}

impl Descriptor {
    /// A descriptor of content that is bound to no platform.
    pub fn new(media_type: String, size: u64, digest: Digest) -> (res: Descriptor)
        ensures
            res@ == (DescriptorView {
                media_type: media_type@,
                size,
                digest: digest@,
                platform: None,
            }),
    {
        Descriptor { media_type, size, digest, platform: None }
    }
}

/// A copy of a list of descriptors.
pub fn clone_descriptors(v: &Vec<Descriptor>) -> (res: Vec<Descriptor>)
    ensures
        res.deep_view() == v.deep_view(),
{
    let res = v.clone();
    assert(res.deep_view() =~= v.deep_view());
    res
}


/// An index: the manifests of one image, one for each platform.
#[derive(Debug, PartialEq, Eq)]
pub struct ImageIndex {
    pub manifests: Vec<Descriptor>,
}

/// An index as a plain value.
pub ghost struct ImageIndexView {
    pub manifests: Seq<DescriptorView>,
}

impl View for ImageIndex {
    type V = ImageIndexView;

    open spec fn view(&self) -> ImageIndexView {
        ImageIndexView { manifests: self.manifests.deep_view() }
    }
}

impl DeepView for ImageIndex {
    type V = ImageIndexView;

    open spec fn deep_view(&self) -> ImageIndexView {
        self@
    }
}

/// A manifest: the descriptor of the configuration and those of the layers,
/// lowest layer first.
#[derive(Debug, PartialEq, Eq)]
pub struct ImageManifest {
    pub media_type: String,
    pub config: Descriptor,
    pub layers: Vec<Descriptor>,
}

/// A manifest as a plain value.
pub ghost struct ImageManifestView {
    pub media_type: Seq<char>,
    pub config: DescriptorView,
    pub layers: Seq<DescriptorView>,
}

impl View for ImageManifest {
    type V = ImageManifestView;

    open spec fn view(&self) -> ImageManifestView {
        ImageManifestView {
            media_type: self.media_type@,
            config: self.config@,
            layers: self.layers.deep_view(),
        }
    }
}

impl DeepView for ImageManifest {
    type V = ImageManifestView;

    open spec fn deep_view(&self) -> ImageManifestView {
        self@
    }
}

impl Clone for ImageManifest {
    fn clone(&self) -> (res: Self)
        ensures
            res@ == self@,
    {
        ImageManifest {
            media_type: self.media_type.clone(),
            config: self.config.clone(),
            layers: clone_descriptors(&self.layers),
        }
    }
}

/// The layers of the root file system, by the digests of their uncompressed
/// archives, lowest layer first.
#[derive(Debug, PartialEq, Eq)]
pub struct RootFs {
    pub diff_ids: Vec<Digest>,
}

/// The layers of a root file system as a plain value.
pub ghost struct RootFsView {
    pub diff_ids: Seq<Seq<char>>,
}

impl View for RootFs {
    type V = RootFsView;

    open spec fn view(&self) -> RootFsView {
        RootFsView { diff_ids: self.diff_ids.deep_view() }
    }
}

impl DeepView for RootFs {
    type V = RootFsView;

    open spec fn deep_view(&self) -> RootFsView {
        self@
    }
}

/// One step in the history of an image. A step with `empty_layer` changed
/// metadata only and has no layer.
#[derive(Debug, PartialEq, Eq)]
pub struct HistoryEntry {
    pub created_by: String,
    pub empty_layer: bool,
}

/// A step of the history as a plain value.
pub ghost struct HistoryEntryView {
    pub created_by: Seq<char>,
    pub empty_layer: bool,
}

impl View for HistoryEntry {
    type V = HistoryEntryView;

    open spec fn view(&self) -> HistoryEntryView {
        HistoryEntryView { created_by: self.created_by@, empty_layer: self.empty_layer }
    }
}

impl DeepView for HistoryEntry {
    type V = HistoryEntryView;

    open spec fn deep_view(&self) -> HistoryEntryView {
        self@
    }
}

/// How a container of the image is run. An absent field leaves the matter
/// to the runtime.
#[derive(Debug, PartialEq, Eq)]
pub struct ExecConfig {
    pub user: Option<String>,
    pub exposed_ports: Option<Vec<String>>,
    pub env: Option<Vec<String>>,
    pub entrypoint: Option<Vec<String>>,
    pub cmd: Option<Vec<String>>,
    pub volumes: Option<Vec<String>>,
    pub working_dir: Option<String>,
    pub labels: Option<Vec<(String, String)>>,
    pub stop_signal: Option<String>,
}

/// An execution configuration as a plain value.
pub ghost struct ExecConfigView {
    pub user: Option<Seq<char>>,
    pub exposed_ports: Option<Seq<Seq<char>>>,
    pub env: Option<Seq<Seq<char>>>,
    pub entrypoint: Option<Seq<Seq<char>>>,
    pub cmd: Option<Seq<Seq<char>>>,
    pub volumes: Option<Seq<Seq<char>>>,
    pub working_dir: Option<Seq<char>>,
    pub labels: Option<Seq<(Seq<char>, Seq<char>)>>,
    pub stop_signal: Option<Seq<char>>,
}

impl View for ExecConfig {
    type V = ExecConfigView;

    open spec fn view(&self) -> ExecConfigView {
        ExecConfigView {
            user: self.user.deep_view(),
            exposed_ports: self.exposed_ports.deep_view(),
            env: self.env.deep_view(),
            entrypoint: self.entrypoint.deep_view(),
            cmd: self.cmd.deep_view(),
            volumes: self.volumes.deep_view(),
            working_dir: self.working_dir.deep_view(),
            labels: self.labels.deep_view(),
            stop_signal: self.stop_signal.deep_view(),
        }
    }
}

impl DeepView for ExecConfig {
    type V = ExecConfigView;

    open spec fn deep_view(&self) -> ExecConfigView {
        self@
    }
}

/// The configuration in which every field is absent.
pub open spec fn empty_exec_config() -> ExecConfigView {
    ExecConfigView {
        user: None,
        exposed_ports: None,
        env: None,
        entrypoint: None,
        cmd: None,
        volumes: None,
        working_dir: None,
        labels: None,
        stop_signal: None,
    }
}

/// A field that a patch replaces: the patch's value where it has one.
pub open spec fn replaced<T>(base: Option<T>, patch: Option<T>) -> Option<T> {
    if patch is Some {
        patch
    } else {
        base
    }
}

/// A field that a patch extends: the entries that were there, then those of
/// the patch. Nothing is dropped and nothing is overridden.
pub open spec fn extended<T>(base: Option<Seq<T>>, patch: Option<Seq<T>>) -> Option<Seq<T>> {
    match patch {
        Some(p) => Some(
            match base {
                Some(b) => b,
                None => Seq::empty(),
            } + p,
        ),
        None => base,
    }
}

/// `base` under `patch`: user, working directory, command and stop signal
/// are replaced where the patch has them; exposed ports, volumes,
/// environment and labels are extended; the entry point stays.
pub open spec fn patched_exec_config(base: ExecConfigView, patch: ExecConfigView) -> ExecConfigView {
    ExecConfigView {
        user: replaced(base.user, patch.user),
        exposed_ports: extended(base.exposed_ports, patch.exposed_ports),
        env: extended(base.env, patch.env),
        entrypoint: base.entrypoint,
        cmd: replaced(base.cmd, patch.cmd),
        volumes: extended(base.volumes, patch.volumes),
        working_dir: replaced(base.working_dir, patch.working_dir),
        labels: extended(base.labels, patch.labels),
        stop_signal: replaced(base.stop_signal, patch.stop_signal),
    }
}

/// A copy of a list of pairs of texts.
pub fn clone_pairs(v: &Vec<(String, String)>) -> (res: Vec<(String, String)>)
    ensures
        res.deep_view() == v.deep_view(),
{
    let mut res: Vec<(String, String)> = Vec::new();
    let mut i: usize = 0;
    while i < v.len()
        invariant
            i <= v.len(),
            res.len() == i,
            forall|j: int| 0 <= j < i ==> res[j].deep_view() == v[j].deep_view(),
        decreases v.len() - i,
    {
        res.push((v[i].0.clone(), v[i].1.clone()));
        i = i + 1;
    }
    assert(res.deep_view() =~= v.deep_view());
    res
}

fn clone_text(t: &Option<String>) -> (res: Option<String>)
    ensures
        res.deep_view() == t.deep_view(),
{
    match t {
        Some(s) => Some(s.clone()),
        None => None,
    }
}

fn clone_texts(t: &Option<Vec<String>>) -> (res: Option<Vec<String>>)
    ensures
        res.deep_view() == t.deep_view(),
{
    match t {
        Some(v) => Some(clone_strings(v)),
        None => None,
    }
}

fn replace_text(base: &Option<String>, patch: &Option<String>) -> (res: Option<String>)
    ensures
        res.deep_view() == replaced(base.deep_view(), patch.deep_view()),
{
    match patch {
        Some(p) => Some(p.clone()),
        None => clone_text(base),
    }
}

fn replace_texts(base: &Option<Vec<String>>, patch: &Option<Vec<String>>) -> (res: Option<
    Vec<String>,
>)
    ensures
        res.deep_view() == replaced(base.deep_view(), patch.deep_view()),
{
    match patch {
        Some(p) => Some(clone_strings(p)),
        None => clone_texts(base),
    }
}

fn extend_texts(base: &Option<Vec<String>>, patch: &Option<Vec<String>>) -> (res: Option<
    Vec<String>,
>)
    ensures
        res.deep_view() == extended(base.deep_view(), patch.deep_view()),
{
    match patch {
        Some(p) => {
            let mut all = match base {
                Some(b) => clone_strings(b),
                None => Vec::new(),
            };
            let mut more = clone_strings(p);
            let ghost before = all.deep_view();
            all.append(&mut more);
            assert(all.deep_view() =~= before + p.deep_view());
            Some(all)
        },
        None => clone_texts(base),
    }
}

fn extend_pairs(base: &Option<Vec<(String, String)>>, patch: &Option<Vec<(String, String)>>) -> (res:
    Option<Vec<(String, String)>>)
    ensures
        res.deep_view() == extended(base.deep_view(), patch.deep_view()),
{
    match patch {
        Some(p) => {
            let mut all = match base {
                Some(b) => clone_pairs(b),
                None => Vec::new(),
            };
            let mut more = clone_pairs(p);
            let ghost before = all.deep_view();
            all.append(&mut more);
            assert(all.deep_view() =~= before + p.deep_view());
            Some(all)
        },
        None => match base {
            Some(b) => Some(clone_pairs(b)),
            None => None,
        },
    }
}

impl Default for ExecConfig {
    fn default() -> (res: Self)
        ensures
            res@ == empty_exec_config(),
    {
        ExecConfig {
            user: None,
            exposed_ports: None,
            env: None,
            entrypoint: None,
            cmd: None,
            volumes: None,
            working_dir: None,
            labels: None,
            stop_signal: None,
        }
    }
}

impl Clone for ExecConfig {
    fn clone(&self) -> (res: Self)
        ensures
            res@ == self@,
    {
        ExecConfig {
            user: clone_text(&self.user),
            exposed_ports: clone_texts(&self.exposed_ports),
            env: clone_texts(&self.env),
            entrypoint: clone_texts(&self.entrypoint),
            cmd: clone_texts(&self.cmd),
            volumes: clone_texts(&self.volumes),
            working_dir: clone_text(&self.working_dir),
            labels: match &self.labels {
                Some(l) => Some(clone_pairs(l)),
                None => None,
            },
            stop_signal: clone_text(&self.stop_signal),
        }
    }
}

impl ExecConfig {
    /// This configuration under `patch`.
    pub fn patched(&self, patch: &ExecConfig) -> (res: ExecConfig)
        ensures
            res@ == patched_exec_config(self@, patch@),
    {
        ExecConfig {
            user: replace_text(&self.user, &patch.user),
            exposed_ports: extend_texts(&self.exposed_ports, &patch.exposed_ports),
            env: extend_texts(&self.env, &patch.env),
            entrypoint: clone_texts(&self.entrypoint),
            cmd: replace_texts(&self.cmd, &patch.cmd),
            volumes: extend_texts(&self.volumes, &patch.volumes),
            working_dir: replace_text(&self.working_dir, &patch.working_dir),
            labels: extend_pairs(&self.labels, &patch.labels),
            stop_signal: replace_text(&self.stop_signal, &patch.stop_signal),
        }
    }
}

/// Extending is concatenation: every entry that was there is still there,
/// at its place, and the entries of the patch follow, in their order.
/// Nothing is dropped, nothing is overridden and nothing is merged, whether
/// or not two entries are alike.
pub proof fn lemma_extended_is_concatenation<T>(base: Option<Seq<T>>, patch: Seq<T>)
    ensures
        extended(base, Some(patch)) is Some,
        ({
            let before = match base {
                Some(b) => b,
                None => Seq::empty(),
            };
            let after = extended(base, Some(patch))->0;
            &&& after == before + patch
            &&& after.len() == before.len() + patch.len()
            &&& forall|i: int| 0 <= i < before.len() ==> #[trigger] after[i] == before[i]
            &&& forall|j: int| 0 <= j < patch.len() ==> after[before.len() + j] == #[trigger] patch[j]
        }),
{
}

/// A patch extends the exposed ports, the volumes, the environment and the
/// labels by concatenation, replaces the user, the working directory, the
/// command and the stop signal where it has them, and leaves every field
/// alone that it does not have.
pub proof fn lemma_patch_extends(base: ExecConfigView, patch: ExecConfigView)
    ensures
        ({
            let after = patched_exec_config(base, patch);
            &&& after.exposed_ports == extended(base.exposed_ports, patch.exposed_ports)
            &&& after.volumes == extended(base.volumes, patch.volumes)
            &&& after.env == extended(base.env, patch.env)
            &&& after.labels == extended(base.labels, patch.labels)
            &&& after.entrypoint == base.entrypoint
            &&& patch.exposed_ports is None ==> after.exposed_ports == base.exposed_ports
            &&& patch.volumes is None ==> after.volumes == base.volumes
            &&& patch.env is None ==> after.env == base.env
            &&& patch.labels is None ==> after.labels == base.labels
            &&& after.user == (if patch.user is Some {
                patch.user
            } else {
                base.user
            })
            &&& after.working_dir == (if patch.working_dir is Some {
                patch.working_dir
            } else {
                base.working_dir
            })
            &&& after.cmd == (if patch.cmd is Some {
                patch.cmd
            } else {
                base.cmd
            })
            &&& after.stop_signal == (if patch.stop_signal is Some {
                patch.stop_signal
            } else {
                base.stop_signal
            })
        }),
        patched_exec_config(base, empty_exec_config()) == base,
{
}

/// The configuration of an image: its layers by diff id, its history and
/// how a container of it is run.
#[derive(Debug, PartialEq, Eq)]
pub struct ImageConfiguration {
    pub rootfs: RootFs,
    pub history: Vec<HistoryEntry>,
    pub config: Option<ExecConfig>,
}

/// A configuration as a plain value.
pub ghost struct ImageConfigurationView {
    pub rootfs: RootFsView,
    pub history: Seq<HistoryEntryView>,
    pub config: Option<ExecConfigView>,
}

impl View for ImageConfiguration {
    type V = ImageConfigurationView;

    open spec fn view(&self) -> ImageConfigurationView {
        ImageConfigurationView {
            rootfs: self.rootfs@,
            history: self.history.deep_view(),
            config: self.config.deep_view(),
        }
    }
}

impl DeepView for ImageConfiguration {
    type V = ImageConfigurationView;

    open spec fn deep_view(&self) -> ImageConfigurationView {
        self@
    }
}

} // verus!
