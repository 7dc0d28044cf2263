//! The push of a finished image, as a machine that is driven by events.
//!
//! A push has one task for each blob: a base layer is looked for at the
//! target and copied only where it is missing; a layer of the image's own
//! and the configuration are uploaded. When every blob is in place, the
//! manifest is uploaded once for each tag. A driver carries out the
//! actions and reports what happened.

use crate::app_layer::{AppLayer, AppLayerView};
use crate::digest::Digest;
use crate::image::{Descriptor, DescriptorView, ImageManifest, ImageManifestView};
use crate::http::{is_success, Method, Request, Response, ResponseView};
use crate::recipe::TagName;
use crate::registry_client::{
    manifest_digest_of, request_of, request_result, RegistryClient, RegistryClientView,
    RegistryError,
};
use vstd::prelude::*;
use vstd::slice::slice_to_vec;

verus! {

/// How far the task of a blob has come.
#[derive(Debug, Clone, Copy, PartialEq, Eq, Structural)]
pub enum BlobStatus {
    /// The target is being asked whether it has the blob.
    Checking,
    /// The target lacks the blob; its bytes are being fetched from the
    /// source.
    Fetching,
    /// The bytes are being uploaded to the target.
    Uploading,
    /// The target had the blob already.
    Present,
    /// The blob was uploaded.
    Uploaded,
    /// A step of the task failed.
    Failed,
}

/// How far the upload of the manifest under one tag has come.
#[derive(Debug, Clone, Copy, PartialEq, Eq, Structural)]
pub enum TagStatus {
    /// Some blob is not in place yet.
    Waiting,
    /// The manifest is being uploaded.
    Uploading,
    /// The registry stored the manifest.
    Stored,
    /// The upload failed.
    Failed,
}

/// The task of one blob.
#[derive(Debug, PartialEq, Eq)]
pub struct BlobTask {
    pub digest: Digest,
    pub status: BlobStatus,
}

/// The task of a blob as a plain value.
pub ghost struct BlobTaskView {
    pub digest: Seq<char>,
    pub status: BlobStatus,
}

impl View for BlobTask {
    type V = BlobTaskView;

    open spec fn view(&self) -> BlobTaskView {
        BlobTaskView { digest: self.digest@, status: self.status }
    }
}

impl DeepView for BlobTask {
    type V = BlobTaskView;

    open spec fn deep_view(&self) -> BlobTaskView {
        self@
    }
}

/// The task of one tag.
#[derive(Debug, PartialEq, Eq)]
pub struct TagTask {
    pub tag: TagName,
    pub status: TagStatus,
}

/// The task of a tag as a plain value.
pub ghost struct TagTaskView {
    pub tag: Seq<char>,
    pub status: TagStatus,
}

impl View for TagTask {
    type V = TagTaskView;

    open spec fn view(&self) -> TagTaskView {
        TagTaskView { tag: self.tag@, status: self.status }
    }
}

impl DeepView for TagTask {
    type V = TagTaskView;

    open spec fn deep_view(&self) -> TagTaskView {
        self@
    }
}

/// What the driver is to do next.
#[derive(Debug, PartialEq, Eq)]
pub enum PushAction {
    /// Ask the target whether it has the blob.
    CheckBlob { task: usize, digest: Digest },
    /// Fetch the bytes of the blob from the source.
    FetchBlob { task: usize, digest: Digest },
    /// Upload the bytes to the target.
    UploadBlob { task: usize, digest: Digest, contents: Vec<u8> },
    /// Upload the manifest to the target under the tag.
    UploadManifest { tag: usize, name: TagName },
}

/// An action as a plain value.
pub ghost enum PushActionView {
    CheckBlob { task: usize, digest: Seq<char> },
    FetchBlob { task: usize, digest: Seq<char> },
    UploadBlob { task: usize, digest: Seq<char>, contents: Seq<u8> },
    UploadManifest { tag: usize, name: Seq<char> },
}

impl View for PushAction {
    type V = PushActionView;

    open spec fn view(&self) -> PushActionView {
        match self {
            PushAction::CheckBlob { task, digest } => PushActionView::CheckBlob {
                task: *task,
                digest: digest@,
            },
            PushAction::FetchBlob { task, digest } => PushActionView::FetchBlob {
                task: *task,
                digest: digest@,
            },
            PushAction::UploadBlob { task, digest, contents } => PushActionView::UploadBlob {
                task: *task,
                digest: digest@,
                contents: contents@,
            },
            PushAction::UploadManifest { tag, name } => PushActionView::UploadManifest {
                tag: *tag,
                name: name@,
            },
        }
    }
}

impl DeepView for PushAction {
    type V = PushActionView;

    open spec fn deep_view(&self) -> PushActionView {
        self@
    }
}

/// What the driver reports.
#[derive(Debug, PartialEq, Eq)]
pub enum PushEvent {
    /// The target answered whether it has the blob.
    BlobChecked { task: usize, present: bool },
    /// The source gave the bytes of the blob.
    BlobFetched { task: usize, contents: Vec<u8> },
    /// The target took the bytes.
    BlobUploaded { task: usize },
    /// A step of the task failed.
    BlobFailed { task: usize },
    /// The target stored the manifest under the tag.
    ManifestUploaded { tag: usize },
    /// The upload of the manifest under the tag failed.
    ManifestFailed { tag: usize },
}

/// An event as a plain value.
pub ghost enum PushEventView {
    BlobChecked { task: usize, present: bool },
    BlobFetched { task: usize, contents: Seq<u8> },
    BlobUploaded { task: usize },
    BlobFailed { task: usize },
    ManifestUploaded { tag: usize },
    ManifestFailed { tag: usize },
}

impl View for PushEvent {
    type V = PushEventView;

    open spec fn view(&self) -> PushEventView {
        match self {
            PushEvent::BlobChecked { task, present } => PushEventView::BlobChecked {
                task: *task,
                present: *present,
            },
            PushEvent::BlobFetched { task, contents } => PushEventView::BlobFetched {
                task: *task,
                contents: contents@,
            },
            PushEvent::BlobUploaded { task } => PushEventView::BlobUploaded { task: *task },
            PushEvent::BlobFailed { task } => PushEventView::BlobFailed { task: *task },
            PushEvent::ManifestUploaded { tag } => PushEventView::ManifestUploaded { tag: *tag },
            PushEvent::ManifestFailed { tag } => PushEventView::ManifestFailed { tag: *tag },
        }
    }
}

/// What the response to a check means: the target has the blob exactly
/// where the status is 200.
pub open spec fn checked_event(task: usize, response: ResponseView) -> PushEventView {
    PushEventView::BlobChecked { task, present: response.status == 200 }
}

/// What the response to a fetch means: its body holds the bytes, unless the
/// status tells of a failure.
pub open spec fn fetched_event(task: usize, response: ResponseView) -> PushEventView {
    if is_success(response.status) {
        PushEventView::BlobFetched { task, contents: response.body }
    } else {
        PushEventView::BlobFailed { task }
    }
}

/// What the response to the sending of a blob means.
pub open spec fn uploaded_event(task: usize, response: ResponseView) -> PushEventView {
    if is_success(response.status) {
        PushEventView::BlobUploaded { task }
    } else {
        PushEventView::BlobFailed { task }
    }
}

/// What the response to the upload of the manifest means: the manifest is
/// stored where the registry names its digest.
pub open spec fn stored_event(tag: usize, response: ResponseView) -> PushEventView {
    if manifest_digest_of(response) is Ok {
        PushEventView::ManifestUploaded { tag }
    } else {
        PushEventView::ManifestFailed { tag }
    }
}

impl PushEvent {
    /// The event that the response to a check stands for.
    pub fn checked(task: usize, response: &Response) -> (res: PushEvent)
        ensures
            res@ == checked_event(task, response@),
    {
        PushEvent::BlobChecked { task, present: RegistryClient::blob_exists(response) }
    }

    /// The event that the response to a fetch stands for.
    pub fn fetched(task: usize, response: Response) -> (res: PushEvent)
        ensures
            res@ == fetched_event(task, response@),
    {
        if response.succeeded() {
            PushEvent::BlobFetched { task, contents: response.body }
        } else {
            PushEvent::BlobFailed { task }
        }
    }

    /// The event that the response to the sending of a blob stands for.
    pub fn uploaded(task: usize, response: &Response) -> (res: PushEvent)
        ensures
            res@ == uploaded_event(task, response@),
    {
        if response.succeeded() {
            PushEvent::BlobUploaded { task }
        } else {
            PushEvent::BlobFailed { task }
        }
    }

    /// The event that the response to the upload of the manifest stands
    /// for.
    pub fn stored(tag: usize, response: &Response) -> (res: PushEvent)
        ensures
            res@ == stored_event(tag, response@),
    {
        match RegistryClient::manifest_digest(response) {
            Ok(_) => PushEvent::ManifestUploaded { tag },
            Err(_) => PushEvent::ManifestFailed { tag },
        }
    }
}

/// Why an event was turned down.
#[derive(Debug, Clone, Copy, PartialEq, Eq, Structural)]
pub enum PushError {
    /// The event names no task, or a task that does not wait for it.
    Unexpected,
}

/// Where a push stands.
#[derive(Debug, PartialEq, Eq)]
pub enum PushOutcome {
    /// Some task is still under way, and none has failed.
    Pending,
    /// A task failed.
    Failed,
    /// Every blob is in place and the manifest is stored under every tag.
    /// The digest is that of the configuration, which identifies the image.
    Finished(Digest),
}

/// An outcome as a plain value.
pub ghost enum PushOutcomeView {
    Pending,
    Failed,
    Finished(Seq<char>),
}

impl View for PushOutcome {
    type V = PushOutcomeView;

    open spec fn view(&self) -> PushOutcomeView {
        match self {
            PushOutcome::Pending => PushOutcomeView::Pending,
            PushOutcome::Failed => PushOutcomeView::Failed,
            PushOutcome::Finished(digest) => PushOutcomeView::Finished(digest@),
        }
    }
}

/// A push under way.
pub struct Push {
    blobs: Vec<BlobTask>,
    tags: Vec<TagTask>,
    manifest: ImageManifest,
    base_provider: RegistryClient,
}

/// A push as a plain value.
pub ghost struct PushView {
    pub blobs: Seq<BlobTaskView>,
    pub tags: Seq<TagTaskView>,
    pub manifest: ImageManifestView,
    pub base_provider: RegistryClientView,
}

impl View for Push {
    type V = PushView;

    closed spec fn view(&self) -> PushView {
        PushView {
            blobs: self.blobs.deep_view(),
            tags: self.tags.deep_view(),
            manifest: self.manifest@,
            base_provider: self.base_provider@,
        }
    }
}

/// The blob is in place at the target.
pub open spec fn is_in_place(status: BlobStatus) -> bool {
    status == BlobStatus::Present || status == BlobStatus::Uploaded
}

/// The task is under way.
pub open spec fn is_under_way(status: BlobStatus) -> bool {
    status == BlobStatus::Checking || status == BlobStatus::Fetching || status
        == BlobStatus::Uploading
}

/// Every blob is in place.
pub open spec fn all_in_place(blobs: Seq<BlobTaskView>) -> bool {
    forall|i: int| 0 <= i < blobs.len() ==> is_in_place(#[trigger] blobs[i].status)
}

/// Some blob task failed.
pub open spec fn some_blob_failed(blobs: Seq<BlobTaskView>) -> bool {
    exists|i: int| 0 <= i < blobs.len() && #[trigger] blobs[i].status == BlobStatus::Failed
}

/// Some upload of the manifest failed.
pub open spec fn some_tag_failed(tags: Seq<TagTaskView>) -> bool {
    exists|i: int| 0 <= i < tags.len() && #[trigger] tags[i].status == TagStatus::Failed
}

/// The manifest is stored under every tag.
pub open spec fn all_stored(tags: Seq<TagTaskView>) -> bool {
    forall|i: int| 0 <= i < tags.len() ==> #[trigger] tags[i].status == TagStatus::Stored
}

/// The blobs with the task `task` in the status `status`.
pub open spec fn with_blob_status(blobs: Seq<BlobTaskView>, task: int, status: BlobStatus) -> Seq<
    BlobTaskView,
> {
    blobs.update(task, BlobTaskView { digest: blobs[task].digest, status })
}

/// The tags with the task `tag` in the status `status`.
pub open spec fn with_tag_status(tags: Seq<TagTaskView>, tag: int, status: TagStatus) -> Seq<
    TagTaskView,
> {
    tags.update(tag, TagTaskView { tag: tags[tag].tag, status })
}

/// The tags with every upload begun.
pub open spec fn all_uploading(tags: Seq<TagTaskView>) -> Seq<TagTaskView> {
    Seq::new(tags.len(), |k: int| TagTaskView { tag: tags[k].tag, status: TagStatus::Uploading })
}

/// One upload of the manifest for each tag, in the order of the tags.
pub open spec fn manifest_actions(tags: Seq<TagTaskView>) -> Seq<PushActionView> {
    Seq::new(
        tags.len(),
        |k: int| PushActionView::UploadManifest { tag: k as usize, name: tags[k].tag },
    )
}

/// What follows when a blob came into place: where it was the last one, the
/// manifest is uploaded under every tag.
pub open spec fn blob_settled(s: PushView) -> (PushView, Seq<PushActionView>) {
    if all_in_place(s.blobs) {
        (PushView { tags: all_uploading(s.tags), ..s }, manifest_actions(s.tags))
    } else {
        (s, Seq::empty())
    }
}

/// The event names a task that waits for it.
pub open spec fn accepts(s: PushView, e: PushEventView) -> bool {
    match e {
        PushEventView::BlobChecked { task, present } => task < s.blobs.len()
            && s.blobs[task as int].status == BlobStatus::Checking,
        PushEventView::BlobFetched { task, contents } => task < s.blobs.len()
            && s.blobs[task as int].status == BlobStatus::Fetching,
        PushEventView::BlobUploaded { task } => task < s.blobs.len() && s.blobs[task as int].status
            == BlobStatus::Uploading,
        PushEventView::BlobFailed { task } => task < s.blobs.len() && is_under_way(
            s.blobs[task as int].status,
        ),
        PushEventView::ManifestUploaded { tag } => tag < s.tags.len() && s.tags[tag as int].status
            == TagStatus::Uploading,
        PushEventView::ManifestFailed { tag } => tag < s.tags.len() && s.tags[tag as int].status
            == TagStatus::Uploading,
    }
}

/// The push after an event, and the actions that the event calls for. An
/// event that is not accepted changes nothing.
pub open spec fn step(s: PushView, e: PushEventView) -> (PushView, Seq<PushActionView>) {
    if !accepts(s, e) {
        (s, Seq::empty())
    } else {
        match e {
            PushEventView::BlobChecked { task, present } => if present {
                blob_settled(
                    PushView {
                        blobs: with_blob_status(s.blobs, task as int, BlobStatus::Present),
                        ..s
                    },
                )
            } else {
                (
                    PushView {
                        blobs: with_blob_status(s.blobs, task as int, BlobStatus::Fetching),
                        ..s
                    },
                    seq![
                        PushActionView::FetchBlob { task, digest: s.blobs[task as int].digest },
                    ],
                )
            },
            PushEventView::BlobFetched { task, contents } => (
                PushView {
                    blobs: with_blob_status(s.blobs, task as int, BlobStatus::Uploading),
                    ..s
                },
                seq![
                    PushActionView::UploadBlob {
                        task,
                        digest: s.blobs[task as int].digest,
                        contents,
                    },
                ],
            ),
            PushEventView::BlobUploaded { task } => blob_settled(
                PushView {
                    blobs: with_blob_status(s.blobs, task as int, BlobStatus::Uploaded),
                    ..s
                },
            ),
            PushEventView::BlobFailed { task } => (
                PushView { blobs: with_blob_status(s.blobs, task as int, BlobStatus::Failed), ..s },
                Seq::empty(),
            ),
            PushEventView::ManifestUploaded { tag } => (
                PushView { tags: with_tag_status(s.tags, tag as int, TagStatus::Stored), ..s },
                Seq::empty(),
            ),
            PushEventView::ManifestFailed { tag } => (
                PushView { tags: with_tag_status(s.tags, tag as int, TagStatus::Failed), ..s },
                Seq::empty(),
            ),
        }
    }
}

/// Where a push stands: failed as soon as one task failed; finished when
/// every blob is in place and the manifest is stored under every tag.
pub open spec fn outcome_of(s: PushView) -> PushOutcomeView {
    if some_blob_failed(s.blobs) || some_tag_failed(s.tags) {
        PushOutcomeView::Failed
    } else if all_in_place(s.blobs) && all_stored(s.tags) {
        PushOutcomeView::Finished(s.manifest.config.digest)
    } else {
        PushOutcomeView::Pending
    }
}


/// The tasks with which a push begins: the base layers are looked for, the
/// layers of the image's own and the configuration are uploaded.
pub open spec fn start_blobs(
    base: Seq<DescriptorView>,
    own: Seq<AppLayerView>,
    config: DescriptorView,
) -> Seq<BlobTaskView> {
    Seq::new(
        base.len(),
        |i: int| BlobTaskView { digest: base[i].digest, status: BlobStatus::Checking },
    ) + Seq::new(
        own.len(),
        |i: int| BlobTaskView { digest: own[i].descriptor.digest, status: BlobStatus::Uploading },
    ) + seq![BlobTaskView { digest: config.digest, status: BlobStatus::Uploading }]
}

/// The actions with which a push begins, one for each blob task: a check
/// for each base layer, an upload for each layer of the image's own, with
/// the bytes of that layer, and the upload of the configuration.
pub open spec fn start_actions(
    base: Seq<DescriptorView>,
    own: Seq<AppLayerView>,
    config: DescriptorView,
    config_bytes: Seq<u8>,
) -> Seq<PushActionView> {
    Seq::new(
        base.len(),
        |i: int| PushActionView::CheckBlob { task: i as usize, digest: base[i].digest },
    ) + Seq::new(
        own.len(),
        |i: int|
            PushActionView::UploadBlob {
                task: (base.len() + i) as usize,
                digest: own[i].descriptor.digest,
                contents: own[i].contents,
            },
    ) + seq![
        PushActionView::UploadBlob {
            task: (base.len() + own.len()) as usize,
            digest: config.digest,
            contents: config_bytes,
        },
    ]
}

/// The tags with which a push begins: all of them wait.
pub open spec fn start_tags(tags: Seq<Seq<char>>) -> Seq<TagTaskView> {
    Seq::new(tags.len(), |k: int| TagTaskView { tag: tags[k], status: TagStatus::Waiting })
}

/// What the task of a base layer does once the target has answered: where
/// the target has the blob, nothing; where it lacks the blob, the bytes are
/// fetched from the source, to be uploaded.
pub fn ensure_base_layer(task: usize, digest: &Digest, present: bool) -> (res: Option<PushAction>)
    ensures
        res.deep_view() == (if present {
            None
        } else {
            Some(PushActionView::FetchBlob { task, digest: digest@ })
        }),
{
    if present {
        None
    } else {
        Some(PushAction::FetchBlob { task, digest: digest.clone() })
    }
}

impl Push {
    /// Begins the push of `manifest`, whose configuration is serialized as
    /// `config_bytes`.
    pub fn start(
        manifest: ImageManifest,
        base_layers: Vec<Descriptor>,
        own_layers: Vec<AppLayer>,
        base_provider: RegistryClient,
        config_bytes: Vec<u8>,
        tags: Vec<TagName>,
    ) -> (res: (Push, Vec<PushAction>))
        ensures
            res.0@ == (PushView {
                blobs: start_blobs(
                    base_layers.deep_view(),
                    own_layers.deep_view(),
                    manifest@.config,
                ),
                tags: start_tags(tags.deep_view()),
                manifest: manifest@,
                base_provider: base_provider@,
            }),
            res.1.deep_view() == start_actions(
                base_layers.deep_view(),
                own_layers.deep_view(),
                manifest@.config,
                config_bytes@,
            ),
    {
        let ghost base = base_layers.deep_view();
        let ghost own = own_layers.deep_view();
        let ghost config = manifest@.config;
        let mut blobs: Vec<BlobTask> = Vec::new();
        let mut actions: Vec<PushAction> = Vec::new();
        let mut i: usize = 0;
        while i < base_layers.len()
            invariant
                i <= base_layers.len(),
                base == base_layers.deep_view(),
                blobs.len() == i,
                actions.len() == i,
                forall|j: int|
                    0 <= j < i ==> blobs[j]@ == (BlobTaskView {
                        digest: base[j].digest,
                        status: BlobStatus::Checking,
                    }),
                forall|j: int|
                    0 <= j < i ==> actions[j]@ == (PushActionView::CheckBlob {
                        task: j as usize,
                        digest: base[j].digest,
                    }),
            decreases base_layers.len() - i,
        {
            blobs.push(
                BlobTask { digest: base_layers[i].digest.clone(), status: BlobStatus::Checking },
            );
            actions.push(PushAction::CheckBlob { task: i, digest: base_layers[i].digest.clone() });
            i = i + 1;
        }
        let count = base_layers.len();
        for layer in it: own_layers.into_iter()
            invariant
                it.seq() == own_layers@,
                own == own_layers.deep_view(),
                base.len() == count,
                blobs.len() == count + it.index(),
                actions.len() == count + it.index(),
                forall|j: int|
                    0 <= j < count ==> blobs[j]@ == (BlobTaskView {
                        digest: base[j].digest,
                        status: BlobStatus::Checking,
                    }),
                forall|j: int|
                    0 <= j < count ==> actions[j]@ == (PushActionView::CheckBlob {
                        task: j as usize,
                        digest: base[j].digest,
                    }),
                forall|j: int|
                    0 <= j < it.index() ==> blobs[count + j]@ == (BlobTaskView {
                        digest: own[j].descriptor.digest,
                        status: BlobStatus::Uploading,
                    }),
                forall|j: int|
                    0 <= j < it.index() ==> actions[count + j]@ == (PushActionView::UploadBlob {
                        task: (count + j) as usize,
                        digest: own[j].descriptor.digest,
                        contents: own[j].contents,
                    }),
        {
            let task = blobs.len();
            assert(layer@ == own[it.index() as int]);
            blobs.push(
                BlobTask { digest: layer.descriptor.digest.clone(), status: BlobStatus::Uploading },
            );
            actions.push(
                PushAction::UploadBlob {
                    task,
                    digest: layer.descriptor.digest,
                    contents: layer.contents,
                },
            );
        }
        let task = blobs.len();
        blobs.push(BlobTask { digest: manifest.config.digest.clone(), status: BlobStatus::Uploading });
        actions.push(
            PushAction::UploadBlob {
                task,
                digest: manifest.config.digest.clone(),
                contents: config_bytes,
            },
        );
        let mut tasks: Vec<TagTask> = Vec::new();
        for tag in it: tags.into_iter()
            invariant
                it.seq() == tags@,
                tasks.len() == it.index(),
                forall|j: int|
                    0 <= j < it.index() ==> tasks[j]@ == (TagTaskView {
                        tag: tags[j]@,
                        status: TagStatus::Waiting,
                    }),
        {
            tasks.push(TagTask { tag, status: TagStatus::Waiting });
        }
        assert(blobs.deep_view() =~= start_blobs(base, own, config));
        assert(actions.deep_view() =~= start_actions(base, own, config, config_bytes@));
        assert(tasks.deep_view() =~= start_tags(tags.deep_view()));
        (Push { blobs, tags: tasks, manifest, base_provider }, actions)
    }

    /// The request with which `action` begins. A fetch goes to the source of
    /// the base image; a check, the opening of an upload and the manifest go
    /// to `target`. `manifest_body` is the manifest, serialized.
    pub fn request_for(&self, target: &RegistryClient, action: &PushAction, manifest_body: &[u8]) -> (res:
        Result<Request, RegistryError>)
        ensures
            request_result(res) == (match action@ {
                PushActionView::CheckBlob { task, digest } => request_of(
                    target@,
                    Method::Head,
                    "blobs/"@ + digest,
                    Seq::empty(),
                    None,
                ),
                PushActionView::FetchBlob { task, digest } => request_of(
                    self@.base_provider,
                    Method::Get,
                    "blobs/"@ + digest,
                    Seq::empty(),
                    None,
                ),
                PushActionView::UploadBlob { task, digest, contents } => request_of(
                    target@,
                    Method::Post,
                    "blobs/uploads/"@,
                    Seq::empty(),
                    None,
                ),
                PushActionView::UploadManifest { tag, name } => request_of(
                    target@,
                    Method::Put,
                    "manifests/"@ + name,
                    seq![("Content-Type"@, self@.manifest.media_type)],
                    Some(manifest_body@),
                ),
            }),
    {
        match action {
            PushAction::CheckBlob { task, digest } => target.has_blob(digest),
            PushAction::FetchBlob { task, digest } => self.base_provider.get_binary_blob(digest),
            PushAction::UploadBlob { task, digest, contents } => target.upload_blob(),
            PushAction::UploadManifest { tag, name } => target.upload_manifest(
                &self.manifest,
                slice_to_vec(manifest_body),
                name.as_str(),
            ),
        }
    }

    /// The manifest that is pushed.
    pub fn manifest(&self) -> (res: &ImageManifest)
        ensures
            res@ == self@.manifest,
    {
        &self.manifest
    }

    /// The session through which the bytes of the base layers are fetched.
    pub fn base_provider(&self) -> (res: &RegistryClient)
        ensures
            res@ == self@.base_provider,
    {
        &self.base_provider
    }

    /// The status of each blob task.
    pub fn blobs(&self) -> (res: &Vec<BlobTask>)
        ensures
            res.deep_view() == self@.blobs,
    {
        &self.blobs
    }

    /// The status of each tag.
    pub fn tags(&self) -> (res: &Vec<TagTask>)
        ensures
            res.deep_view() == self@.tags,
    {
        &self.tags
    }

    fn every_blob_in_place(&self) -> (res: bool)
        ensures
            res == all_in_place(self@.blobs),
    {
        let mut i: usize = 0;
        while i < self.blobs.len()
            invariant
                i <= self.blobs.len(),
                forall|j: int| 0 <= j < i ==> is_in_place(#[trigger] self.blobs[j].status),
            decreases self.blobs.len() - i,
        {
            let status = self.blobs[i].status;
            if !(status == BlobStatus::Present || status == BlobStatus::Uploaded) {
                assert(!is_in_place(self@.blobs[i as int].status));
                return false;
            }
            i = i + 1;
        }
        assert forall|j: int| 0 <= j < self@.blobs.len() implies is_in_place(
            #[trigger] self@.blobs[j].status,
        ) by {
            assert(is_in_place(self.blobs[j].status));
        }
        true
    }

    fn settle(&mut self) -> (res: Vec<PushAction>)
        ensures
            (final(self)@, res.deep_view()) == blob_settled(old(self)@),
    {
        let mut actions: Vec<PushAction> = Vec::new();
        if self.every_blob_in_place() {
            let mut k: usize = 0;
            while k < self.tags.len()
                invariant
                    k <= self.tags.len(),
                    self.tags.len() == old(self).tags.len(),
                    self.blobs == old(self).blobs,
                    self.manifest == old(self).manifest,
                    self.base_provider == old(self).base_provider,
                    actions.len() == k,
                    forall|j: int|
                        0 <= j < k ==> self.tags[j]@ == (TagTaskView {
                            tag: old(self).tags[j]@.tag,
                            status: TagStatus::Uploading,
                        }),
                    forall|j: int| k <= j < self.tags.len() ==> self.tags[j] == old(self).tags[j],
                    forall|j: int|
                        0 <= j < k ==> actions[j]@ == (PushActionView::UploadManifest {
                            tag: j as usize,
                            name: old(self).tags[j]@.tag,
                        }),
                decreases self.tags.len() - k,
            {
                self.tags[k].status = TagStatus::Uploading;
                actions.push(PushAction::UploadManifest { tag: k, name: self.tags[k].tag.clone() });
                k = k + 1;
            }
            assert(self.tags.deep_view() =~= all_uploading(old(self)@.tags));
            assert(actions.deep_view() =~= manifest_actions(old(self)@.tags));
        } else {
            assert(actions.deep_view() =~= Seq::<PushActionView>::empty());
        }
        actions
    }

    fn set_blob(&mut self, task: usize, status: BlobStatus)
        requires
            task < old(self).blobs.len(),
        ensures
            final(self)@ == (PushView {
                blobs: with_blob_status(old(self)@.blobs, task as int, status),
                ..old(self)@
            }),
    {
        self.blobs[task].status = status;
        assert(self.blobs.deep_view() =~= with_blob_status(old(self)@.blobs, task as int, status));
    }

    fn set_tag(&mut self, tag: usize, status: TagStatus)
        requires
            tag < old(self).tags.len(),
        ensures
            final(self)@ == (PushView {
                tags: with_tag_status(old(self)@.tags, tag as int, status),
                ..old(self)@
            }),
    {
        self.tags[tag].status = status;
        assert(self.tags.deep_view() =~= with_tag_status(old(self)@.tags, tag as int, status));
    }

    /// Takes note of an event and says what to do next. An event that names
    /// no task, or a task that does not wait for it, is turned down and
    /// changes nothing.
    pub fn on_event(&mut self, event: PushEvent) -> (res: Result<Vec<PushAction>, PushError>)
        ensures
            accepts(old(self)@, event@) ==> (res matches Ok(actions) && final(self)@ == step(
                old(self)@,
                event@,
            ).0 && actions.deep_view() == step(old(self)@, event@).1),
            !accepts(old(self)@, event@) ==> res == Err::<Vec<PushAction>, PushError>(
                PushError::Unexpected,
            ) && final(self)@ == old(self)@,
    {
        match event {
            PushEvent::BlobChecked { task, present } => {
                if task >= self.blobs.len() || self.blobs[task].status != BlobStatus::Checking {
                    return Err(PushError::Unexpected);
                }
                match ensure_base_layer(task, &self.blobs[task].digest, present) {
                    None => {
                        self.set_blob(task, BlobStatus::Present);
                        Ok(self.settle())
                    },
                    Some(fetch) => {
                        self.set_blob(task, BlobStatus::Fetching);
                        let mut actions: Vec<PushAction> = Vec::new();
                        actions.push(fetch);
                        assert(actions.deep_view() =~= seq![
                            PushActionView::FetchBlob {
                                task,
                                digest: old(self)@.blobs[task as int].digest,
                            },
                        ]);
                        Ok(actions)
                    },
                }
            },
            PushEvent::BlobFetched { task, contents } => {
                if task >= self.blobs.len() || self.blobs[task].status != BlobStatus::Fetching {
                    return Err(PushError::Unexpected);
                }
                let digest = self.blobs[task].digest.clone();
                self.set_blob(task, BlobStatus::Uploading);
                let mut actions: Vec<PushAction> = Vec::new();
                let ghost bytes = contents@;
                actions.push(PushAction::UploadBlob { task, digest, contents });
                assert(actions.deep_view() =~= seq![
                    PushActionView::UploadBlob {
                        task,
                        digest: old(self)@.blobs[task as int].digest,
                        contents: bytes,
                    },
                ]);
                Ok(actions)
            },
            PushEvent::BlobUploaded { task } => {
                if task >= self.blobs.len() || self.blobs[task].status != BlobStatus::Uploading {
                    return Err(PushError::Unexpected);
                }
                self.set_blob(task, BlobStatus::Uploaded);
                Ok(self.settle())
            },
            PushEvent::BlobFailed { task } => {
                if task >= self.blobs.len() {
                    return Err(PushError::Unexpected);
                }
                let status = self.blobs[task].status;
                if !(status == BlobStatus::Checking || status == BlobStatus::Fetching || status
                    == BlobStatus::Uploading) {
                    return Err(PushError::Unexpected);
                }
                self.set_blob(task, BlobStatus::Failed);
                let actions: Vec<PushAction> = Vec::new();
                assert(actions.deep_view() =~= Seq::<PushActionView>::empty());
                Ok(actions)
            },
            PushEvent::ManifestUploaded { tag } => {
                if tag >= self.tags.len() || self.tags[tag].status != TagStatus::Uploading {
                    return Err(PushError::Unexpected);
                }
                self.set_tag(tag, TagStatus::Stored);
                let actions: Vec<PushAction> = Vec::new();
                assert(actions.deep_view() =~= Seq::<PushActionView>::empty());
                Ok(actions)
            },
            PushEvent::ManifestFailed { tag } => {
                if tag >= self.tags.len() || self.tags[tag].status != TagStatus::Uploading {
                    return Err(PushError::Unexpected);
                }
                self.set_tag(tag, TagStatus::Failed);
                let actions: Vec<PushAction> = Vec::new();
                assert(actions.deep_view() =~= Seq::<PushActionView>::empty());
                Ok(actions)
            },
        }
    }

    /// Where the push stands.
    pub fn outcome(&self) -> (res: PushOutcome)
        ensures
            res@ == outcome_of(self@),
    {
        let mut i: usize = 0;
        while i < self.blobs.len()
            invariant
                i <= self.blobs.len(),
                forall|j: int| 0 <= j < i ==> (#[trigger] self.blobs[j]).status != BlobStatus::Failed,
            decreases self.blobs.len() - i,
        {
            if self.blobs[i].status == BlobStatus::Failed {
                assert(self@.blobs[i as int].status == BlobStatus::Failed);
                return PushOutcome::Failed;
            }
            i = i + 1;
        }
        assert(!some_blob_failed(self@.blobs)) by {
            assert forall|j: int| 0 <= j < self@.blobs.len() implies #[trigger] self@.blobs[j].status
                != BlobStatus::Failed by {
                assert(self.blobs[j].status != BlobStatus::Failed);
            }
        }
        let mut stored = true;
        let mut k: usize = 0;
        while k < self.tags.len()
            invariant
                k <= self.tags.len(),
                forall|j: int| 0 <= j < k ==> (#[trigger] self.tags[j]).status != TagStatus::Failed,
                stored == forall|j: int|
                    0 <= j < k ==> (#[trigger] self.tags[j]).status == TagStatus::Stored,
            decreases self.tags.len() - k,
        {
            if self.tags[k].status == TagStatus::Failed {
                assert(self@.tags[k as int].status == TagStatus::Failed);
                return PushOutcome::Failed;
            }
            if self.tags[k].status != TagStatus::Stored {
                stored = false;
            }
            k = k + 1;
        }
        assert(!some_tag_failed(self@.tags)) by {
            assert forall|j: int| 0 <= j < self@.tags.len() implies #[trigger] self@.tags[j].status
                != TagStatus::Failed by {
                assert(self.tags[j].status != TagStatus::Failed);
            }
        }
        assert(stored == all_stored(self@.tags)) by {
            if stored {
                assert forall|j: int| 0 <= j < self@.tags.len() implies #[trigger] self@.tags[j].status
                    == TagStatus::Stored by {
                    assert(self.tags[j].status == TagStatus::Stored);
                }
            } else {
                let j = choose|j: int|
                    0 <= j < k && (#[trigger] self.tags[j]).status != TagStatus::Stored;
                assert(self@.tags[j].status != TagStatus::Stored);
            }
        }
        if stored && self.every_blob_in_place() {
            PushOutcome::Finished(self.manifest.config.digest.clone())
        } else {
            PushOutcome::Pending
        }
    }
}

} // verus!
