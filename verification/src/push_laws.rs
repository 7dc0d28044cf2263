//! What holds of every push, whatever the driver reports and in whatever
//! order.

use crate::app_layer::AppLayerView;
use crate::image::DescriptorView;
use crate::push::{
    accepts, all_in_place, is_in_place, is_under_way, manifest_actions, outcome_of,
    some_blob_failed, some_tag_failed, start_actions, start_blobs, start_tags, step, BlobStatus,
    PushActionView, PushEventView, PushOutcomeView, PushView, TagStatus,
};
use vstd::prelude::*;

verus! {

/// The push after the events of `events`, the first one first, and all the
/// actions that they called for, in order.
pub open spec fn run(s: PushView, events: Seq<PushEventView>) -> (PushView, Seq<PushActionView>)
    decreases events.len(),
{
    if events.len() == 0 {
        (s, Seq::empty())
    } else {
        let before = run(s, events.drop_last());
        let next = step(before.0, events.last());
        (next.0, before.1 + next.1)
    }
}

/// The action uploads the manifest.
pub open spec fn uploads_manifest(a: PushActionView) -> bool {
    a is UploadManifest
}

/// The action fetches or uploads the blob of the task `t`.
pub open spec fn moves_blob(a: PushActionView, t: int) -> bool {
    match a {
        PushActionView::FetchBlob { task, digest } => task == t,
        PushActionView::UploadBlob { task, digest, contents } => task == t,
        _ => false,
    }
}

/// The action uploads a blob with the digest `d`.
pub open spec fn uploads_digest(a: PushActionView, d: Seq<char>) -> bool {
    a matches PushActionView::UploadBlob { task, digest, contents } && digest == d
}

/// The task is over, for good or ill.
pub open spec fn is_settled(status: BlobStatus) -> bool {
    is_in_place(status) || status == BlobStatus::Failed
}

/// One event leaves the tasks, their digests, the manifest and the source
/// as they are, and a task that is over stays as it ended.
pub proof fn lemma_step_keeps(s: PushView, e: PushEventView)
    ensures
        step(s, e).0.blobs.len() == s.blobs.len(),
        step(s, e).0.tags.len() == s.tags.len(),
        step(s, e).0.manifest == s.manifest,
        step(s, e).0.base_provider == s.base_provider,
        forall|i: int|
            0 <= i < s.blobs.len() ==> (#[trigger] step(s, e).0.blobs[i]).digest
                == s.blobs[i].digest,
        forall|i: int|
            0 <= i < s.blobs.len() && is_settled(s.blobs[i].status) ==> (#[trigger] step(
                s,
                e,
            ).0.blobs[i]).status == s.blobs[i].status,
{
}

/// One event calls for the upload of the manifest only when it leaves
/// every blob in place.
pub proof fn lemma_step_manifest(s: PushView, e: PushEventView)
    ensures
        (exists|i: int| 0 <= i < step(s, e).1.len() && uploads_manifest(#[trigger] step(s, e).1[i]))
            ==> all_in_place(step(s, e).0.blobs),
{
}

/// One event moves the blob of a task only when it leaves the task
/// fetching or uploading, and it labels each upload with the digest of its
/// task. It takes a task to `Present` only from `Checking`, and never back
/// to `Checking`.
pub proof fn lemma_step_moves(s: PushView, e: PushEventView, t: int)
    requires
        0 <= t < s.blobs.len(),
    ensures
        forall|i: int|
            0 <= i < step(s, e).1.len() && moves_blob(#[trigger] step(s, e).1[i], t) ==> step(
                s,
                e,
            ).0.blobs[t].status == BlobStatus::Fetching || step(s, e).0.blobs[t].status
                == BlobStatus::Uploading,
        forall|i: int|
            0 <= i < step(s, e).1.len() ==> (#[trigger] step(s, e).1[i]
                matches PushActionView::UploadBlob { task, digest, contents } ==> task
                < s.blobs.len() && digest == s.blobs[task as int].digest),
        step(s, e).0.blobs[t].status == BlobStatus::Checking ==> s.blobs[t].status
            == BlobStatus::Checking,
        step(s, e).0.blobs[t].status == BlobStatus::Present ==> s.blobs[t].status
            == BlobStatus::Checking || s.blobs[t].status == BlobStatus::Present,
{
}

/// A run leaves the tasks and their digests as they are.
pub proof fn lemma_run_keeps(s: PushView, events: Seq<PushEventView>)
    ensures
        run(s, events).0.blobs.len() == s.blobs.len(),
        run(s, events).0.tags.len() == s.tags.len(),
        run(s, events).0.manifest == s.manifest,
        run(s, events).0.base_provider == s.base_provider,
        forall|i: int|
            0 <= i < s.blobs.len() ==> (#[trigger] run(s, events).0.blobs[i]).digest
                == s.blobs[i].digest,
    decreases events.len(),
{
    if events.len() > 0 {
        lemma_run_keeps(s, events.drop_last());
        lemma_step_keeps(run(s, events.drop_last()).0, events.last());
    }
}

/// A task that is over after the first `n` events of a run is in the same
/// status after all of them.
pub proof fn lemma_settled_stays(s: PushView, events: Seq<PushEventView>, n: int, t: int)
    requires
        0 <= n <= events.len(),
        0 <= t < s.blobs.len(),
        is_settled(run(s, events.take(n)).0.blobs[t].status),
    ensures
        run(s, events).0.blobs[t].status == run(s, events.take(n)).0.blobs[t].status,
    decreases events.len(),
{
    if n == events.len() {
        assert(events.take(n) =~= events);
    } else {
        assert(events.drop_last().take(n) =~= events.take(n));
        lemma_settled_stays(s, events.drop_last(), n, t);
        lemma_run_keeps(s, events.drop_last());
        lemma_step_keeps(run(s, events.drop_last()).0, events.last());
    }
}

/// A run of events calls for the upload of the manifest only after it has
/// brought every blob into place.
pub proof fn lemma_manifest_waits(s: PushView, events: Seq<PushEventView>)
    ensures
        (exists|i: int|
            0 <= i < run(s, events).1.len() && uploads_manifest(#[trigger] run(s, events).1[i]))
            ==> all_in_place(run(s, events).0.blobs),
    decreases events.len(),
{
    if events.len() > 0 {
        let before = run(s, events.drop_last());
        let next = step(before.0, events.last());
        lemma_manifest_waits(s, events.drop_last());
        lemma_step_manifest(before.0, events.last());
        lemma_step_keeps(before.0, events.last());
        if exists|i: int|
            0 <= i < run(s, events).1.len() && uploads_manifest(#[trigger] run(s, events).1[i]) {
            let i = choose|i: int|
                0 <= i < run(s, events).1.len() && uploads_manifest(#[trigger] run(s, events).1[i]);
            if i < before.1.len() {
                assert(uploads_manifest(before.1[i]));
                assert(all_in_place(before.0.blobs));
                assert forall|j: int| 0 <= j < next.0.blobs.len() implies is_in_place(
                    #[trigger] next.0.blobs[j].status,
                ) by {
                    assert(is_in_place(before.0.blobs[j].status));
                }
            } else {
                assert(uploads_manifest(next.1[i - before.1.len()]));
            }
        }
    }
}

/// Fail-fast: once a blob task has failed, the manifest is not uploaded.
/// Whatever else the driver reports, a run that leaves some blob task
/// failed has called for no upload of the manifest, and the push has
/// failed.
pub proof fn lemma_fail_fast(s: PushView, events: Seq<PushEventView>)
    requires
        some_blob_failed(run(s, events).0.blobs),
    ensures
        forall|i: int|
            0 <= i < run(s, events).1.len() ==> !uploads_manifest(#[trigger] run(s, events).1[i]),
        outcome_of(run(s, events).0) == PushOutcomeView::Failed,
{
    lemma_manifest_waits(s, events);
    let blobs = run(s, events).0.blobs;
    let t = choose|t: int| 0 <= t < blobs.len() && #[trigger] blobs[t].status == BlobStatus::Failed;
    assert(!is_in_place(blobs[t].status));
}

/// Fail-fast, by the event: where the driver reports the failure of a blob
/// task that is under way, no action of the run, before that event or after
/// it, uploads the manifest.
pub proof fn lemma_failure_stops_manifest(s: PushView, events: Seq<PushEventView>, k: int)
    requires
        0 <= k < events.len(),
        events[k] is BlobFailed,
        accepts(run(s, events.take(k)).0, events[k]),
    ensures
        forall|i: int|
            0 <= i < run(s, events).1.len() ==> !uploads_manifest(#[trigger] run(s, events).1[i]),
        outcome_of(run(s, events).0) == PushOutcomeView::Failed,
{
    let t = events[k]->BlobFailed_task as int;
    let prefix = events.take(k + 1);
    assert(prefix.drop_last() =~= events.take(k));
    assert(prefix.last() == events[k]);
    lemma_run_keeps(s, events.take(k));
    assert(run(s, prefix).0.blobs[t].status == BlobStatus::Failed);
    lemma_settled_stays(s, events, k + 1, t);
    lemma_run_keeps(s, events);
    assert(run(s, events).0.blobs[t].status == BlobStatus::Failed);
    lemma_fail_fast(s, events);
}

/// While a task is checking, or has found its blob present, a run has
/// called for no fetch and no upload of that blob.
pub proof fn lemma_unmoved_while_checking(s: PushView, events: Seq<PushEventView>, t: int)
    requires
        0 <= t < s.blobs.len(),
        s.blobs[t].status == BlobStatus::Checking,
    ensures
        run(s, events).0.blobs[t].status == BlobStatus::Checking || run(s, events).0.blobs[t].status
            == BlobStatus::Present ==> forall|i: int|
            0 <= i < run(s, events).1.len() ==> !moves_blob(#[trigger] run(s, events).1[i], t),
    decreases events.len(),
{
    if events.len() > 0 {
        let before = run(s, events.drop_last());
        let next = step(before.0, events.last());
        lemma_unmoved_while_checking(s, events.drop_last(), t);
        lemma_run_keeps(s, events.drop_last());
        lemma_step_moves(before.0, events.last(), t);
        if next.0.blobs[t].status == BlobStatus::Checking || next.0.blobs[t].status
            == BlobStatus::Present {
            assert forall|i: int| 0 <= i < run(s, events).1.len() implies !moves_blob(
                #[trigger] run(s, events).1[i],
                t,
            ) by {
                if i < before.1.len() {
                    assert(run(s, events).1[i] == before.1[i]);
                } else {
                    assert(run(s, events).1[i] == next.1[i - before.1.len()]);
                }
            }
        }
    }
}

/// Dedup: a blob that the target reports present is neither fetched nor
/// uploaded. Where the driver reports, of a task that is checking, that the
/// target has the blob, no action of the run, before that event or after
/// it, fetches or uploads for that task.
pub proof fn lemma_present_is_not_sent(s: PushView, events: Seq<PushEventView>, k: int, t: usize)
    requires
        t < s.blobs.len(),
        s.blobs[t as int].status == BlobStatus::Checking,
        0 <= k < events.len(),
        events[k] == (PushEventView::BlobChecked { task: t, present: true }),
        accepts(run(s, events.take(k)).0, events[k]),
    ensures
        run(s, events).0.blobs[t as int].status == BlobStatus::Present,
        forall|i: int|
            0 <= i < run(s, events).1.len() ==> !moves_blob(
                #[trigger] run(s, events).1[i],
                t as int,
            ),
{
    let prefix = events.take(k + 1);
    assert(prefix.drop_last() =~= events.take(k));
    assert(prefix.last() == events[k]);
    lemma_run_keeps(s, events.take(k));
    assert(run(s, prefix).0.blobs[t as int].status == BlobStatus::Present);
    lemma_settled_stays(s, events, k + 1, t as int);
    lemma_unmoved_while_checking(s, events, t as int);
}

/// Every upload that a run calls for carries the digest of its task.
pub proof fn lemma_uploads_are_labelled(s: PushView, events: Seq<PushEventView>)
    ensures
        forall|i: int|
            0 <= i < run(s, events).1.len() ==> (#[trigger] run(s, events).1[i]
                matches PushActionView::UploadBlob { task, digest, contents } ==> task
                < s.blobs.len() && digest == s.blobs[task as int].digest),
    decreases events.len(),
{
    if events.len() > 0 {
        let before = run(s, events.drop_last());
        let next = step(before.0, events.last());
        lemma_uploads_are_labelled(s, events.drop_last());
        lemma_run_keeps(s, events.drop_last());
        assert forall|i: int| 0 <= i < run(s, events).1.len() implies (#[trigger] run(s, events).1[i]
            matches PushActionView::UploadBlob { task, digest, contents } ==> task < s.blobs.len()
            && digest == s.blobs[task as int].digest) by {
            if i < before.1.len() {
                assert(run(s, events).1[i] == before.1[i]);
            } else {
                let a = next.1[i - before.1.len()];
                assert(run(s, events).1[i] == a);
                if a is UploadBlob {
                    let u = a->UploadBlob_task as int;
                    lemma_step_moves(before.0, events.last(), u);
                }
            }
        }
    }
}

/// Dedup, by the digest: where no other task has the digest of the task
/// `t`, and the target reports the blob of `t` present, no action of the
/// run uploads a blob with that digest.
pub proof fn lemma_present_digest_is_not_uploaded(
    s: PushView,
    events: Seq<PushEventView>,
    k: int,
    t: usize,
)
    requires
        t < s.blobs.len(),
        s.blobs[t as int].status == BlobStatus::Checking,
        forall|u: int|
            0 <= u < s.blobs.len() && u != t ==> s.blobs[u].digest != s.blobs[t as int].digest,
        0 <= k < events.len(),
        events[k] == (PushEventView::BlobChecked { task: t, present: true }),
        accepts(run(s, events.take(k)).0, events[k]),
    ensures
        forall|i: int|
            0 <= i < run(s, events).1.len() ==> !uploads_digest(
                #[trigger] run(s, events).1[i],
                s.blobs[t as int].digest,
            ),
{
    lemma_present_is_not_sent(s, events, k, t);
    lemma_uploads_are_labelled(s, events);
    assert forall|i: int| 0 <= i < run(s, events).1.len() implies !uploads_digest(
        #[trigger] run(s, events).1[i],
        s.blobs[t as int].digest,
    ) by {
        let a = run(s, events).1[i];
        if a is UploadBlob {
            let u = a->UploadBlob_task as int;
            if u == t {
                assert(moves_blob(a, t as int));
            }
        }
    }
}

/// A push begins with one action for each blob task: a check for each base
/// layer and an upload, under the digest of its task, for each other blob.
/// No action at the beginning uploads the manifest, and none fetches or
/// uploads a base layer.
pub proof fn lemma_start(
    base: Seq<DescriptorView>,
    own: Seq<AppLayerView>,
    config: DescriptorView,
    config_bytes: Seq<u8>,
)
    requires
        base.len() + own.len() < usize::MAX,
    ensures
        start_blobs(base, own, config).len() == base.len() + own.len() + 1,
        start_actions(base, own, config, config_bytes).len() == base.len() + own.len() + 1,
        forall|t: int|
            0 <= t < base.len() ==> (#[trigger] start_blobs(base, own, config)[t]).status
                == BlobStatus::Checking,
        forall|i: int|
            0 <= i < start_actions(base, own, config, config_bytes).len() ==> !uploads_manifest(
                #[trigger] start_actions(base, own, config, config_bytes)[i],
            ),
        forall|i: int, t: int|
            0 <= i < start_actions(base, own, config, config_bytes).len() && 0 <= t < base.len()
                ==> !#[trigger] moves_blob(start_actions(base, own, config, config_bytes)[i], t),
        forall|i: int|
            0 <= i < start_actions(base, own, config, config_bytes).len() ==> (
            #[trigger] start_actions(base, own, config, config_bytes)[i]
                matches PushActionView::UploadBlob { task, digest, contents } ==> task
                < start_blobs(base, own, config).len() && digest == start_blobs(
                base,
                own,
                config,
            )[task as int].digest),
{
}


/// The tags wait exactly as long as some blob is not in place: while one is
/// missing, every tag waits; once all are in place, none does.
pub open spec fn tags_follow_blobs(s: PushView) -> bool {
    if all_in_place(s.blobs) {
        forall|k: int| 0 <= k < s.tags.len() ==> (#[trigger] s.tags[k]).status != TagStatus::Waiting
    } else {
        forall|k: int| 0 <= k < s.tags.len() ==> (#[trigger] s.tags[k]).status == TagStatus::Waiting
    }
}

/// No action of `actions` uploads the manifest.
pub open spec fn no_manifest(actions: Seq<PushActionView>) -> bool {
    forall|i: int| 0 <= i < actions.len() ==> !uploads_manifest(#[trigger] actions[i])
}

/// One event keeps the names of the tags, and keeps the tags in step with
/// the blobs.
pub proof fn lemma_step_tags(s: PushView, e: PushEventView)
    requires
        tags_follow_blobs(s),
    ensures
        tags_follow_blobs(step(s, e).0),
        forall|k: int|
            0 <= k < s.tags.len() ==> (#[trigger] step(s, e).0.tags[k]).tag == s.tags[k].tag,
        all_in_place(s.blobs) ==> step(s, e).1 == Seq::<PushActionView>::empty() && step(
            s,
            e,
        ).0.blobs == s.blobs,
        !all_in_place(s.blobs) && all_in_place(step(s, e).0.blobs) ==> step(s, e).1
            == manifest_actions(s.tags),
        !all_in_place(step(s, e).0.blobs) ==> no_manifest(step(s, e).1),
{
    let next = step(s, e);
    if accepts(s, e) {
        match e {
            PushEventView::BlobChecked { task, present } => {
                assert(!is_in_place(s.blobs[task as int].status));
                if !present {
                    assert(!is_in_place(next.0.blobs[task as int].status));
                }
            },
            PushEventView::BlobFetched { task, contents } => {
                assert(!is_in_place(s.blobs[task as int].status));
                assert(!is_in_place(next.0.blobs[task as int].status));
            },
            PushEventView::BlobUploaded { task } => {
                assert(!is_in_place(s.blobs[task as int].status));
            },
            PushEventView::BlobFailed { task } => {
                assert(!is_in_place(s.blobs[task as int].status));
                assert(!is_in_place(next.0.blobs[task as int].status));
            },
            PushEventView::ManifestUploaded { tag } => {
                assert(s.tags[tag as int].status != TagStatus::Waiting);
                assert forall|k: int| 0 <= k < next.0.tags.len() implies (
                #[trigger] next.0.tags[k]).status != TagStatus::Waiting by {
                    if k != tag {
                        assert(s.tags[k].status != TagStatus::Waiting);
                    }
                }
            },
            PushEventView::ManifestFailed { tag } => {
                assert(s.tags[tag as int].status != TagStatus::Waiting);
                assert forall|k: int| 0 <= k < next.0.tags.len() implies (
                #[trigger] next.0.tags[k]).status != TagStatus::Waiting by {
                    if k != tag {
                        assert(s.tags[k].status != TagStatus::Waiting);
                    }
                }
            },
        }
        if !all_in_place(s.blobs) && !all_in_place(next.0.blobs) {
            assert(next.0.tags == s.tags);
            assert(next.1.len() <= 1);
        }
        if !all_in_place(s.blobs) && all_in_place(next.0.blobs) {
            assert(next.1 == manifest_actions(s.tags));
            assert forall|k: int| 0 <= k < next.0.tags.len() implies (#[trigger] next.0.tags[k]).status
                != TagStatus::Waiting by {}
        }
    }
}

/// A run keeps the names of the tags, and keeps the tags in step with the
/// blobs.
pub proof fn lemma_run_tags(s: PushView, events: Seq<PushEventView>)
    requires
        tags_follow_blobs(s),
    ensures
        tags_follow_blobs(run(s, events).0),
        run(s, events).0.tags.len() == s.tags.len(),
        forall|k: int|
            0 <= k < s.tags.len() ==> (#[trigger] run(s, events).0.tags[k]).tag == s.tags[k].tag,
    decreases events.len(),
{
    if events.len() > 0 {
        lemma_run_tags(s, events.drop_last());
        lemma_run_keeps(s, events.drop_last());
        lemma_step_tags(run(s, events.drop_last()).0, events.last());
        lemma_step_keeps(run(s, events.drop_last()).0, events.last());
    }
}

/// A push that is pending waits for something: a blob task is under way,
/// or the manifest is being uploaded under some tag. The driver of a
/// pending push always has an action in hand whose end it can report.
pub proof fn lemma_pending_push_waits(s: PushView, events: Seq<PushEventView>)
    requires
        tags_follow_blobs(s),
        outcome_of(run(s, events).0) == PushOutcomeView::Pending,
    ensures
        (exists|t: int|
            0 <= t < run(s, events).0.blobs.len() && is_under_way(
                #[trigger] run(s, events).0.blobs[t].status,
            )) || (exists|k: int|
            0 <= k < run(s, events).0.tags.len() && (#[trigger] run(s, events).0.tags[k]).status
                == TagStatus::Uploading),
{
    lemma_run_tags(s, events);
    let end = run(s, events).0;
    if !all_in_place(end.blobs) {
        let t = choose|t: int| 0 <= t < end.blobs.len() && !is_in_place(#[trigger] end.blobs[t].status);
        assert(end.blobs[t].status != BlobStatus::Failed);
        assert(is_under_way(end.blobs[t].status));
    } else {
        let k = choose|k: int|
            0 <= k < end.tags.len() && (#[trigger] end.tags[k]).status != TagStatus::Stored;
        assert(end.tags[k].status != TagStatus::Waiting);
        assert(end.tags[k].status != TagStatus::Failed);
        assert(end.tags[k].status == TagStatus::Uploading);
    }
}

/// While a blob is missing, a run has called for no upload of the manifest.
/// Once every blob is in place, it has called for the uploads of the
/// manifest all at once, one for each tag in the order of the tags, and for
/// nothing after them.
pub proof fn lemma_manifest_actions(s: PushView, events: Seq<PushEventView>)
    requires
        tags_follow_blobs(s),
        !all_in_place(s.blobs),
    ensures
        !all_in_place(run(s, events).0.blobs) ==> no_manifest(run(s, events).1),
        all_in_place(run(s, events).0.blobs) ==> exists|before: Seq<PushActionView>|
            no_manifest(before) && #[trigger] (before + manifest_actions(s.tags)) == run(
                s,
                events,
            ).1,
    decreases events.len(),
{
    if events.len() > 0 {
        let prior = run(s, events.drop_last());
        let next = step(prior.0, events.last());
        lemma_manifest_actions(s, events.drop_last());
        lemma_run_tags(s, events.drop_last());
        lemma_step_tags(prior.0, events.last());
        assert(manifest_actions(prior.0.tags) =~= manifest_actions(s.tags));
        if all_in_place(prior.0.blobs) {
            let before = choose|before: Seq<PushActionView>|
                no_manifest(before) && #[trigger] (before + manifest_actions(s.tags)) == prior.1;
            assert(run(s, events).1 =~= before + manifest_actions(s.tags));
        } else if all_in_place(next.0.blobs) {
            assert(run(s, events).1 == prior.1 + manifest_actions(s.tags));
        } else {
            assert forall|i: int| 0 <= i < run(s, events).1.len() implies !uploads_manifest(
                #[trigger] run(s, events).1[i],
            ) by {
                if i < prior.1.len() {
                    assert(run(s, events).1[i] == prior.1[i]);
                } else {
                    assert(run(s, events).1[i] == next.1[i - prior.1.len()]);
                }
            }
        }
    }
}

/// The manifest is uploaded at most once under each tag, and only under
/// the tags of the push, each by its name.
pub proof fn lemma_manifest_once_per_tag(s: PushView, events: Seq<PushEventView>)
    requires
        tags_follow_blobs(s),
        !all_in_place(s.blobs),
        s.tags.len() <= usize::MAX,
    ensures
        forall|i: int, j: int|
            0 <= i < j < run(s, events).1.len() ==> !(#[trigger] run(s, events).1[i]
                matches PushActionView::UploadManifest { tag: first, name: first_name }
                && #[trigger] run(s, events).1[j]
                matches PushActionView::UploadManifest { tag: second, name: second_name } && first
                == second),
        forall|i: int|
            0 <= i < run(s, events).1.len() ==> (#[trigger] run(s, events).1[i]
                matches PushActionView::UploadManifest { tag, name } ==> tag < s.tags.len() && name
                == s.tags[tag as int].tag),
{
    lemma_manifest_actions(s, events);
    let actions = run(s, events).1;
    if all_in_place(run(s, events).0.blobs) {
        let before = choose|before: Seq<PushActionView>|
            no_manifest(before) && #[trigger] (before + manifest_actions(s.tags)) == actions;
        let uploads = manifest_actions(s.tags);
        assert forall|i: int| 0 <= i < actions.len() && uploads_manifest(actions[i]) implies i
            >= before.len() && actions[i] == uploads[i - before.len()] by {
            if i < before.len() {
                assert(actions[i] == before[i]);
            }
        }
    }
}

/// A push begins with every tag waiting and with a blob that is not in
/// place: the configuration has yet to be uploaded.
pub proof fn lemma_start_waits(
    base: Seq<DescriptorView>,
    own: Seq<AppLayerView>,
    config: DescriptorView,
    tags: Seq<Seq<char>>,
    s: PushView,
)
    requires
        s.blobs == start_blobs(base, own, config),
        s.tags == start_tags(tags),
    ensures
        !all_in_place(s.blobs),
        tags_follow_blobs(s),
        outcome_of(s) == PushOutcomeView::Pending,
{
    let last = base.len() + own.len();
    assert(s.blobs[last as int].status == BlobStatus::Uploading);
    assert(!is_in_place(s.blobs[last as int].status));
    assert(!some_blob_failed(s.blobs)) by {
        assert forall|i: int| 0 <= i < s.blobs.len() implies #[trigger] s.blobs[i].status
            != BlobStatus::Failed by {}
    }
    assert(!some_tag_failed(s.tags));
}


/// The action uploads the blob of the task `t`.
pub open spec fn uploads_blob(a: PushActionView, t: int) -> bool {
    a matches PushActionView::UploadBlob { task, digest, contents } && task == t
}

/// The task has not been given its bytes yet.
pub open spec fn awaits_bytes(status: BlobStatus) -> bool {
    status == BlobStatus::Checking || status == BlobStatus::Fetching
}

/// One event calls for the upload of a blob only in answer to the bytes
/// that were fetched for its task, and uploads these bytes as they are.
pub proof fn lemma_step_upload_answers_fetch(s: PushView, e: PushEventView)
    ensures
        forall|i: int|
            0 <= i < step(s, e).1.len() ==> (#[trigger] step(s, e).1[i]
                matches PushActionView::UploadBlob { task, digest, contents } ==> e == (
            PushEventView::BlobFetched { task, contents }) && task < s.blobs.len()
                && s.blobs[task as int].status == BlobStatus::Fetching),
{
}

/// One event calls for at most one upload of the blob of a task, and for
/// none while it leaves the task waiting for its bytes. It leaves no task
/// waiting for bytes that did not wait for them before.
pub proof fn lemma_step_uploads(s: PushView, e: PushEventView, t: int)
    requires
        0 <= t < s.blobs.len(),
    ensures
        forall|i: int, j: int|
            0 <= i < j < step(s, e).1.len() ==> !(uploads_blob(#[trigger] step(s, e).1[i], t)
                && uploads_blob(#[trigger] step(s, e).1[j], t)),
        awaits_bytes(step(s, e).0.blobs[t].status) ==> awaits_bytes(s.blobs[t].status),
        awaits_bytes(step(s, e).0.blobs[t].status) ==> forall|i: int|
            0 <= i < step(s, e).1.len() ==> !uploads_blob(#[trigger] step(s, e).1[i], t),
{
}

/// Base layers are copied byte for byte: every upload that a run calls for
/// answers an event of the run that brought the bytes fetched for the same
/// task, and carries exactly these bytes.
pub proof fn lemma_uploads_are_copies(s: PushView, events: Seq<PushEventView>)
    ensures
        forall|i: int|
            0 <= i < run(s, events).1.len() ==> (#[trigger] run(s, events).1[i]
                matches PushActionView::UploadBlob { task, digest, contents } ==> exists|k: int|
                0 <= k < events.len() && #[trigger] events[k] == (PushEventView::BlobFetched {
                    task,
                    contents,
                })),
    decreases events.len(),
{
    if events.len() > 0 {
        let prior = run(s, events.drop_last());
        let next = step(prior.0, events.last());
        lemma_uploads_are_copies(s, events.drop_last());
        lemma_run_keeps(s, events.drop_last());
        assert forall|i: int| 0 <= i < run(s, events).1.len() implies (#[trigger] run(s, events).1[i]
            matches PushActionView::UploadBlob { task, digest, contents } ==> exists|k: int|
            0 <= k < events.len() && #[trigger] events[k] == (PushEventView::BlobFetched {
                task,
                contents,
            })) by {
            let a = run(s, events).1[i];
            if a is UploadBlob {
                let task = a->UploadBlob_task;
                let contents = a->UploadBlob_contents;
                if i < prior.1.len() {
                    assert(a == prior.1[i]);
                    let k = choose|k: int|
                        0 <= k < events.drop_last().len() && #[trigger] events.drop_last()[k] == (
                        PushEventView::BlobFetched { task, contents });
                    assert(events[k] == events.drop_last()[k]);
                } else {
                    assert(a == next.1[i - prior.1.len()]);
                    lemma_step_upload_answers_fetch(prior.0, events.last());
                    assert(events[events.len() - 1] == (PushEventView::BlobFetched {
                        task,
                        contents,
                    }));
                }
            }
        }
    }
}

/// While a task waits for its bytes, a run has called for no upload of its
/// blob.
pub proof fn lemma_no_upload_before_bytes(s: PushView, events: Seq<PushEventView>, t: int)
    requires
        0 <= t < s.blobs.len(),
    ensures
        awaits_bytes(run(s, events).0.blobs[t].status) ==> awaits_bytes(s.blobs[t].status)
            && forall|i: int|
            0 <= i < run(s, events).1.len() ==> !uploads_blob(#[trigger] run(s, events).1[i], t),
    decreases events.len(),
{
    if events.len() > 0 {
        let prior = run(s, events.drop_last());
        let next = step(prior.0, events.last());
        lemma_no_upload_before_bytes(s, events.drop_last(), t);
        lemma_run_keeps(s, events.drop_last());
        lemma_step_uploads(prior.0, events.last(), t);
        if awaits_bytes(next.0.blobs[t].status) {
            assert forall|i: int| 0 <= i < run(s, events).1.len() implies !uploads_blob(
                #[trigger] run(s, events).1[i],
                t,
            ) by {
                if i < prior.1.len() {
                    assert(run(s, events).1[i] == prior.1[i]);
                } else {
                    assert(run(s, events).1[i] == next.1[i - prior.1.len()]);
                }
            }
        }
    }
}

/// No blob is uploaded twice: among the actions of a run, at most one
/// uploads the blob of a given task.
pub proof fn lemma_blob_uploaded_once(s: PushView, events: Seq<PushEventView>, t: int)
    requires
        0 <= t < s.blobs.len(),
    ensures
        forall|i: int, j: int|
            0 <= i < j < run(s, events).1.len() ==> !(uploads_blob(
                #[trigger] run(s, events).1[i],
                t,
            ) && uploads_blob(#[trigger] run(s, events).1[j], t)),
    decreases events.len(),
{
    if events.len() > 0 {
        let prior = run(s, events.drop_last());
        let next = step(prior.0, events.last());
        lemma_blob_uploaded_once(s, events.drop_last(), t);
        lemma_no_upload_before_bytes(s, events.drop_last(), t);
        lemma_run_keeps(s, events.drop_last());
        lemma_step_uploads(prior.0, events.last(), t);
        lemma_step_upload_answers_fetch(prior.0, events.last());
        assert forall|i: int, j: int| 0 <= i < j < run(s, events).1.len() implies !(uploads_blob(
            #[trigger] run(s, events).1[i],
            t,
        ) && uploads_blob(#[trigger] run(s, events).1[j], t)) by {
            let a = run(s, events).1[i];
            let b = run(s, events).1[j];
            if j < prior.1.len() {
                assert(a == prior.1[i]);
                assert(b == prior.1[j]);
            } else if i < prior.1.len() {
                assert(a == prior.1[i]);
                assert(b == next.1[j - prior.1.len()]);
                if uploads_blob(b, t) {
                    assert(prior.0.blobs[t].status == BlobStatus::Fetching);
                    assert(awaits_bytes(prior.0.blobs[t].status));
                }
            } else {
                assert(a == next.1[i - prior.1.len()]);
                assert(b == next.1[j - prior.1.len()]);
            }
        }
    }
}

/// A blob whose upload a push begins with is not uploaded again: for a
/// task that does not wait for bytes, a run calls for no upload.
pub proof fn lemma_sent_blob_is_not_sent_again(s: PushView, events: Seq<PushEventView>, t: int)
    requires
        0 <= t < s.blobs.len(),
        !awaits_bytes(s.blobs[t].status),
    ensures
        forall|i: int|
            0 <= i < run(s, events).1.len() ==> !uploads_blob(#[trigger] run(s, events).1[i], t),
    decreases events.len(),
{
    if events.len() > 0 {
        let prior = run(s, events.drop_last());
        let next = step(prior.0, events.last());
        lemma_sent_blob_is_not_sent_again(s, events.drop_last(), t);
        lemma_no_upload_before_bytes(s, events.drop_last(), t);
        lemma_run_keeps(s, events.drop_last());
        lemma_step_uploads(prior.0, events.last(), t);
        lemma_step_upload_answers_fetch(prior.0, events.last());
        assert forall|i: int| 0 <= i < run(s, events).1.len() implies !uploads_blob(
            #[trigger] run(s, events).1[i],
            t,
        ) by {
            if i < prior.1.len() {
                assert(run(s, events).1[i] == prior.1[i]);
            } else {
                let a = next.1[i - prior.1.len()];
                assert(run(s, events).1[i] == a);
                if uploads_blob(a, t) {
                    assert(prior.0.blobs[t].status == BlobStatus::Fetching);
                }
            }
        }
    }
}

} // verus!
