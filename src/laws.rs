use vstd::prelude::*;
use crate::coordinator::{
    DebuginfoStore, agrees, answer, decide_existing, initiate_outcome, is_stale, should_initiate_spec,
    valid_build_id, InitiateStep, InitiateUploadRequest, Reason, ShouldInitiateStep,
    STALE_GRACE_MS,
};
use crate::metadata::{has_upload, uploaded_record, uploading_record};
use crate::types::{BuildIdType, Code, Debuginfo, DebuginfoType, Source, Status, UploadState};

verus! {

/// The answer for an existing record depends on nothing but the record's
/// source and upload state, whether it is marked invalid, whether it is
/// stale, whether the request's hash is empty or equals the stored one, and
/// `force`: records and requests that agree on these get the same answer.
pub proof fn lemma_decision_inputs(
    a: Debuginfo,
    b: Debuginfo,
    hash_a: Seq<char>,
    hash_b: Seq<char>,
    force: bool,
    duration_a: i64,
    now_a: i64,
    duration_b: i64,
    now_b: i64,
)
    requires
        a.source == b.source,
        a.upload is Some == b.upload is Some,
        a.spec_marked_invalid() == b.spec_marked_invalid(),
        (hash_a.len() == 0) == (hash_b.len() == 0),
        a.upload is Some ==> a.upload->0.state == b.upload->0.state && is_stale(
            a.upload->0,
            duration_a,
            now_a,
        ) == is_stale(b.upload->0, duration_b, now_b) && (a.upload->0.hash@ == hash_a) == (
        b.upload->0.hash@ == hash_b),
    ensures
        decide_existing(a, hash_a, force, duration_a, now_a) == decide_existing(
            b,
            hash_b,
            force,
            duration_b,
            now_b,
        ),
{
}

/// `ShouldInitiateUpload` is deterministic: two calls on the same store and
/// request at the same time give the same answer or the same error code.
pub proof fn lemma_should_initiate_deterministic(
    r1: Result<ShouldInitiateStep, Status>,
    r2: Result<ShouldInitiateStep, Status>,
    store: Map<(Seq<char>, DebuginfoType), Debuginfo>,
    max_upload_duration: i64,
    build_id: Seq<char>,
    hash: Seq<char>,
    force: bool,
    kind: DebuginfoType,
    build_id_type: BuildIdType,
    now: i64,
)
    requires
        agrees(
            r1,
            should_initiate_spec(store, max_upload_duration, build_id, hash, force, kind, build_id_type, now),
        ),
        agrees(
            r2,
            should_initiate_spec(store, max_upload_duration, build_id, hash, force, kind, build_id_type, now),
        ),
    ensures
        r1 is Ok == r2 is Ok,
        r1 is Ok ==> r1->Ok_0 == r2->Ok_0,
        r1 is Err ==> r1->Err_0.code == r2->Err_0.code,
{
}

/// Once the maximum upload duration plus the grace has passed since an
/// upload started, a record still `Uploading` is stale and a new
/// `ShouldInitiateUpload` answers `(true, UploadStale)`.
pub proof fn lemma_stale_upload_retried(
    store: Map<(Seq<char>, DebuginfoType), Debuginfo>,
    max_upload_duration: i64,
    build_id: Seq<char>,
    hash: Seq<char>,
    force: bool,
    kind: DebuginfoType,
    build_id_type: BuildIdType,
    started_at: i64,
    now: i64,
)
    requires
        valid_build_id(build_id),
        store.contains_key((build_id, kind)),
        store[(build_id, kind)].source == Source::Upload,
        store[(build_id, kind)].upload matches Some(u) && u.state == UploadState::Uploading
            && u.started_at == Some(started_at),
        started_at + max_upload_duration + STALE_GRACE_MS < now,
    ensures
        should_initiate_spec(store, max_upload_duration, build_id, hash, force, kind, build_id_type, now)
            == Ok::<ShouldInitiateStep, Code>(
            ShouldInitiateStep::Answer(answer(true, Reason::UploadStale)),
        ),
{
}

/// An upload recorded by `InitiateUpload` is the one `MarkUploadFinished`
/// accepts for its key, and finishing it takes the record from `Uploading`
/// to `Uploaded`, keeping its ID and hash. (That `MarkUploadFinished`
/// accepts only an ID the record holds is its own contract.)
pub proof fn lemma_initiate_then_finish(
    s0: Map<(Seq<char>, DebuginfoType), Debuginfo>,
    s1: Map<(Seq<char>, DebuginfoType), Debuginfo>,
    s2: Map<(Seq<char>, DebuginfoType), Debuginfo>,
    build_id: Seq<char>,
    kind: DebuginfoType,
    upload_id: Seq<char>,
    hash: Seq<char>,
    started: i64,
    finished: i64,
    initiated: Debuginfo,
    done: Debuginfo,
)
    requires
        uploading_record(build_id, kind, upload_id, hash, started, initiated),
        s1 == s0.insert((build_id, kind), initiated),
        uploaded_record(s1[(build_id, kind)], finished, done),
        s2 == s1.insert((build_id, kind), done),
    ensures
        has_upload(s1, build_id, kind, upload_id),
        s1[(build_id, kind)].upload->0.state == UploadState::Uploading,
        s2[(build_id, kind)].upload->0.state == UploadState::Uploaded,
        s2[(build_id, kind)].upload->0.id@ == upload_id,
        s2[(build_id, kind)].upload->0.hash@ == hash,
        forall|k: (Seq<char>, DebuginfoType)| k != (build_id, kind) ==> #[trigger] s2.contains_key(k)
            == s0.contains_key(k) && (s0.contains_key(k) ==> s2[k] == s0[k]),
{
}

/// When two `InitiateUpload` calls for one key record distinct upload IDs,
/// the store keeps the one record of the later call: only its upload can be
/// finished, and the earlier one is refused.
pub proof fn lemma_second_initiate_wins(
    s0: Map<(Seq<char>, DebuginfoType), Debuginfo>,
    s1: Map<(Seq<char>, DebuginfoType), Debuginfo>,
    s2: Map<(Seq<char>, DebuginfoType), Debuginfo>,
    build_id: Seq<char>,
    kind: DebuginfoType,
    first_id: Seq<char>,
    second_id: Seq<char>,
    first_hash: Seq<char>,
    second_hash: Seq<char>,
    first_at: i64,
    second_at: i64,
    first: Debuginfo,
    second: Debuginfo,
)
    requires
        first_id != second_id,
        uploading_record(build_id, kind, first_id, first_hash, first_at, first),
        s1 == s0.insert((build_id, kind), first),
        uploading_record(build_id, kind, second_id, second_hash, second_at, second),
        s2 == s1.insert((build_id, kind), second),
    ensures
        has_upload(s2, build_id, kind, second_id),
        !has_upload(s2, build_id, kind, first_id),
        s2[(build_id, kind)].upload->0.state == UploadState::Uploading,
{
}

/// While an upload of a key is in progress and not stale, another
/// `InitiateUpload` for that key is refused with `FailedPrecondition` and
/// leaves the store as it was: of two overlapping initiates, one records an
/// upload.
pub proof fn lemma_second_initiate_refused(
    before: Map<(Seq<char>, DebuginfoType), Debuginfo>,
    after: Map<(Seq<char>, DebuginfoType), Debuginfo>,
    max_upload_duration: i64,
    max_upload_size: i64,
    req: InitiateUploadRequest,
    upstream: Option<Seq<char>>,
    upload_id: String,
    now: i64,
    r: Result<InitiateStep, Status>,
)
    requires
        valid_build_id(req.build_id@),
        req.hash@.len() > 0,
        req.size != 0,
        before.contains_key((req.build_id@, req.debuginfo_type)),
        before[(req.build_id@, req.debuginfo_type)].source == Source::Upload,
        before[(req.build_id@, req.debuginfo_type)].upload matches Some(u) && u.state
            == UploadState::Uploading && !is_stale(u, max_upload_duration, now),
        initiate_outcome(before, after, max_upload_duration, max_upload_size, req, upstream, upload_id, now, r),
    ensures
        r matches Err(e) && e.code == Code::FailedPrecondition,
        after == before,
{
}

/// Every accepted `MarkUploadFinished` names an upload that `InitiateUpload`
/// handed out earlier for the same (Build ID, kind): on a store where every
/// held upload was initiated (a new store, and every store the operations
/// reach from it), the upload a record holds, which is what
/// `MarkUploadFinished` accepts, is among those initiated.
pub proof fn lemma_finished_upload_was_initiated(
    s: DebuginfoStore,
    build_id: Seq<char>,
    kind: DebuginfoType,
    upload_id: Seq<char>,
)
    requires
        s.uploads_initiated(),
        has_upload(s@, build_id, kind, upload_id),
    ensures
        s.initiated().contains((build_id, kind, upload_id)),
{
    assert(s@.contains_key((build_id, kind)));
}

} // verus!
