use vstd::prelude::*;
use vstd::string::StringExecFns;
use vstd::utf8::encode_utf8;
use crate::clock::{new_upload_id, time_now};
use crate::metadata::{
    debuginfod_record, has_upload, upload_blocked, uploaded_record, uploading_record, MetadataStore,
};
use crate::types::{
    BuildIdType, Code, Debuginfo, DebuginfoType, DebuginfoUpload, Source, Status, UploadState,
};

verus! {

/// Grace beyond the maximum upload duration before an upload counts as
/// stale, in milliseconds (two minutes).
pub const STALE_GRACE_MS: i64 = 120000;

/// Why an upload should or should not be initiated.
#[derive(Clone, Copy, Debug, PartialEq, Eq, Structural)]
pub enum Reason {
    InDebuginfod,
    FirstTimeSeen,
    UploadStale,
    UploadInProgress,
    AlreadyExists,
    AlreadyExistsButForced,
    DebuginfoInvalid,
    DebuginfoEqual,
    DebuginfoNotEqual,
    DebuginfodSource,
    DebuginfodInvalid,
}

/// The message of an `InitiateUpload` refused for `reason`: it names the
/// reason.
pub open spec fn refusal_message(reason: Reason) -> Seq<char> {
    "upload should not have been attempted to be initiated, a previous check should have failed with "@
        + reason_text(reason)
}

/// The text of each reason.
pub open spec fn reason_text(r: Reason) -> Seq<char> {
    match r {
        Reason::InDebuginfod => "Debuginfo exists in debuginfod, therefore no upload is necessary."@,
        Reason::FirstTimeSeen => "First time we see this Build ID, and it does not exist in debuginfod, therefore please upload!"@,
        Reason::UploadStale => "A previous upload was started but not finished and is now stale, so it can be retried."@,
        Reason::UploadInProgress => "A previous upload is still in-progress and not stale yet (only stale uploads can be retried)."@,
        Reason::AlreadyExists => "Debuginfo already exists and is not marked as invalid, therefore no new upload is needed."@,
        Reason::AlreadyExistsButForced => "Debuginfo already exists and is not marked as invalid, therefore wouldn't have accepted a new upload, but accepting it because it's requested to be forced."@,
        Reason::DebuginfoInvalid => "Debuginfo already exists but is marked as invalid, therefore a new upload is needed. Hash the debuginfo and initiate the upload."@,
        Reason::DebuginfoEqual => "Debuginfo already exists and is marked as invalid, but the proposed hash is the same as the one already available, therefore the upload is not accepted as it would result in the same invalid debuginfos."@,
        Reason::DebuginfoNotEqual => "Debuginfo already exists but is marked as invalid, therefore a new upload will be accepted."@,
        Reason::DebuginfodSource => "Debuginfo is available from debuginfod already and not marked as invalid, therefore no new upload is needed."@,
        Reason::DebuginfodInvalid => "Debuginfo is available from debuginfod already but is marked as invalid, therefore a new upload is needed."@,
    }
}

impl Reason {
    /// The human-readable text sent to agents with the decision.
    pub fn message(&self) -> (r: &'static str)
        ensures
            r@ == reason_text(*self),
    {
        match self {
            Reason::InDebuginfod => "Debuginfo exists in debuginfod, therefore no upload is necessary.",
            Reason::FirstTimeSeen => "First time we see this Build ID, and it does not exist in debuginfod, therefore please upload!",
            Reason::UploadStale => "A previous upload was started but not finished and is now stale, so it can be retried.",
            Reason::UploadInProgress => "A previous upload is still in-progress and not stale yet (only stale uploads can be retried).",
            Reason::AlreadyExists => "Debuginfo already exists and is not marked as invalid, therefore no new upload is needed.",
            Reason::AlreadyExistsButForced => "Debuginfo already exists and is not marked as invalid, therefore wouldn't have accepted a new upload, but accepting it because it's requested to be forced.",
            Reason::DebuginfoInvalid => "Debuginfo already exists but is marked as invalid, therefore a new upload is needed. Hash the debuginfo and initiate the upload.",
            Reason::DebuginfoEqual => "Debuginfo already exists and is marked as invalid, but the proposed hash is the same as the one already available, therefore the upload is not accepted as it would result in the same invalid debuginfos.",
            Reason::DebuginfoNotEqual => "Debuginfo already exists but is marked as invalid, therefore a new upload will be accepted.",
            Reason::DebuginfodSource => "Debuginfo is available from debuginfod already and not marked as invalid, therefore no new upload is needed.",
            Reason::DebuginfodInvalid => "Debuginfo is available from debuginfod already but is marked as invalid, therefore a new upload is needed.",
        }
    }
}

/// The answer to `ShouldInitiateUpload`.
#[derive(Clone, Copy, Debug, PartialEq, Eq, Structural)]
pub struct ShouldInitiateUploadResponse {
    pub should_initiate_upload: bool,
    pub reason: Reason,
}

pub open spec fn answer(should: bool, reason: Reason) -> ShouldInitiateUploadResponse {
    ShouldInitiateUploadResponse { should_initiate_upload: should, reason }
}

fn respond(should: bool, reason: Reason) -> (r: ShouldInitiateUploadResponse)
    ensures
        r == answer(should, reason),
{
    ShouldInitiateUploadResponse { should_initiate_upload: should, reason }
}

/// What a caller of `should_initiate_upload` does next: take the answer, or
/// ask the upstream debuginfod mirror and hand its reply to
/// `finish_new_build_id`.
#[derive(Clone, Copy, Debug, PartialEq, Eq, Structural)]
pub enum ShouldInitiateStep {
    Answer(ShouldInitiateUploadResponse),
    LookupUpstream,
}

#[derive(Clone, Debug)]
pub struct ShouldInitiateUploadRequest {
    pub build_id: String,
    pub hash: String,
    pub force: bool,
    pub debuginfo_type: DebuginfoType,
    pub build_id_type: BuildIdType,
}

#[derive(Clone, Debug)]
pub struct InitiateUploadRequest {
    pub build_id: String,
    pub hash: String,
    pub size: i64,
    pub force: bool,
    pub debuginfo_type: DebuginfoType,
    pub build_id_type: BuildIdType,
}

#[derive(Clone, Copy, Debug, PartialEq, Eq, Structural)]
pub enum UploadStrategy {
    Unspecified,
    Grpc,
    SignedUrl,
}

/// How the agent is to send the bytes of an accepted upload.
#[derive(Clone, Debug)]
pub struct UploadInstructions {
    pub upload_id: String,
    pub build_id: String,
    pub upload_strategy: UploadStrategy,
    pub signed_url: String,
    pub debuginfo_type: DebuginfoType,
}

/// What a caller of `initiate_upload` does next: hand the instructions to
/// the agent, or ask the upstream mirror and call again with its reply.
#[derive(Clone, Debug)]
pub enum InitiateStep {
    Instructions(UploadInstructions),
    LookupUpstream,
}

#[derive(Clone, Debug)]
pub struct MarkUploadFinishedRequest {
    pub build_id: String,
    pub upload_id: String,
    pub debuginfo_type: DebuginfoType,
}

/// The header frame of an upload stream; the kind is its wire number.
#[derive(Clone, Debug)]
pub struct UploadInfo {
    pub build_id: String,
    pub upload_id: String,
    pub debuginfo_type: i32,
}

/// One frame of an upload stream.
#[derive(Clone, Debug)]
pub enum UploadRequestData {
    Info(UploadInfo),
    ChunkData(Vec<u8>),
}

/// A decoded upload header.
#[derive(Clone, Debug)]
pub struct UploadRequestInfo {
    pub buildid: String,
    pub upload_id: String,
    pub debuginfo_type: DebuginfoType,
}

#[derive(Clone, Debug)]
pub struct UploadResponse {
    pub build_id: String,
    pub size: u64,
}

/// The error code a call produced, or the value.
pub open spec fn agrees<T>(r: Result<T, Status>, s: Result<T, Code>) -> bool {
    match r {
        Ok(v) => s == Ok::<T, Code>(v),
        Err(e) => s == Err::<T, Code>(e.code),
    }
}

/// Build IDs of three or more bytes are accepted.
pub open spec fn valid_build_id(b: Seq<char>) -> bool {
    encode_utf8(b).len() > 2
}

/// Only these Build ID types can have a public mirror.
pub open spec fn upstream_eligible(t: BuildIdType) -> bool {
    t == BuildIdType::Gnu || t == BuildIdType::UnknownUnspecified
}

/// An upload started more than the maximum duration plus the grace ago.
pub open spec fn is_stale(u: DebuginfoUpload, max_upload_duration: i64, now: i64) -> bool {
    match u.started_at {
        Some(t) => t + max_upload_duration + STALE_GRACE_MS < now,
        None => false,
    }
}

/// The decision for an existing record. In the Debuginfod branch the two
/// reasons are the other way round from their names (a record marked invalid
/// gives `DebuginfodSource`); this is kept, since agents read only the flag,
/// which is `true` either way.
pub open spec fn decide_existing(
    info: Debuginfo,
    hash: Seq<char>,
    force: bool,
    max_upload_duration: i64,
    now: i64,
) -> Result<ShouldInitiateUploadResponse, Code> {
    match info.source {
        Source::Debuginfod => Ok(
            if info.spec_marked_invalid() {
                answer(true, Reason::DebuginfodSource)
            } else {
                answer(true, Reason::DebuginfodInvalid)
            },
        ),
        Source::Upload => match info.upload {
            None => Err(Code::Internal),
            Some(u) => match u.state {
                UploadState::Uploading => Ok(
                    if is_stale(u, max_upload_duration, now) {
                        answer(true, Reason::UploadStale)
                    } else {
                        answer(false, Reason::UploadInProgress)
                    },
                ),
                UploadState::Uploaded => Ok(
                    if info.spec_marked_invalid() {
                        if force {
                            answer(true, Reason::AlreadyExistsButForced)
                        } else {
                            answer(false, Reason::AlreadyExists)
                        }
                    } else if hash.len() == 0 {
                        answer(true, Reason::DebuginfoInvalid)
                    } else if u.hash@ == hash {
                        answer(false, Reason::DebuginfoEqual)
                    } else {
                        answer(true, Reason::DebuginfoNotEqual)
                    },
                ),
            },
        },
    }
}

/// The decision for a Build ID without a record, given the mirror's reply
/// (empty when it has nothing).
pub open spec fn decide_new(t: BuildIdType, upstream: Seq<char>) -> ShouldInitiateUploadResponse {
    if upstream_eligible(t) && upstream.len() > 0 {
        answer(false, Reason::InDebuginfod)
    } else {
        answer(true, Reason::FirstTimeSeen)
    }
}

/// The first step of `ShouldInitiateUpload` on a store, at time `now`.
pub open spec fn should_initiate_spec(
    store: Map<(Seq<char>, DebuginfoType), Debuginfo>,
    max_upload_duration: i64,
    build_id: Seq<char>,
    hash: Seq<char>,
    force: bool,
    kind: DebuginfoType,
    build_id_type: BuildIdType,
    now: i64,
) -> Result<ShouldInitiateStep, Code> {
    if !valid_build_id(build_id) {
        Err(Code::InvalidArgument)
    } else if store.contains_key((build_id, kind)) {
        match decide_existing(store[(build_id, kind)], hash, force, max_upload_duration, now) {
            Ok(a) => Ok(ShouldInitiateStep::Answer(a)),
            Err(c) => Err(c),
        }
    } else if upstream_eligible(build_id_type) {
        Ok(ShouldInitiateStep::LookupUpstream)
    } else {
        Ok(ShouldInitiateStep::Answer(answer(true, Reason::FirstTimeSeen)))
    }
}

/// The upload coordinator: metadata plus its limits. Durations and times are
/// in milliseconds.
pub struct DebuginfoStore {
    metadata: MetadataStore,
    max_upload_duration: i64,
    max_upload_size: i64,
    initiated: Ghost<Set<(Seq<char>, DebuginfoType, Seq<char>)>>,
}

impl DebuginfoStore {
    pub closed spec fn wf(&self) -> bool {
        self.metadata.wf()
    }

    /// The records, by (Build ID, kind).
    pub closed spec fn view(&self) -> Map<(Seq<char>, DebuginfoType), Debuginfo> {
        self.metadata@
    }

    /// The (Build ID, kind, upload ID) triples that `InitiateUpload` has
    /// handed out on this store.
    pub closed spec fn initiated(&self) -> Set<(Seq<char>, DebuginfoType, Seq<char>)> {
        self.initiated@
    }

    /// Every upload held by a record was handed out by `InitiateUpload` for
    /// that record's key. A new store has this, and every operation keeps it.
    pub open spec fn uploads_initiated(&self) -> bool {
        forall|k: (Seq<char>, DebuginfoType)| #[trigger]
            self@.contains_key(k) && self@[k].upload is Some ==> self.initiated().contains(
                (k.0, k.1, self@[k].upload->0.id@),
            )
    }

    pub closed spec fn spec_max_upload_duration(&self) -> i64 {
        self.max_upload_duration
    }

    pub closed spec fn spec_max_upload_size(&self) -> i64 {
        self.max_upload_size
    }

    pub fn new(max_upload_duration: i64, max_upload_size: i64) -> (r: DebuginfoStore)
        ensures
            r.wf(),
            r@ == Map::<(Seq<char>, DebuginfoType), Debuginfo>::empty(),
            r.initiated() == Set::<(Seq<char>, DebuginfoType, Seq<char>)>::empty(),
            r.uploads_initiated(),
            r.spec_max_upload_duration() == max_upload_duration,
            r.spec_max_upload_size() == max_upload_size,
    {
        DebuginfoStore {
            metadata: MetadataStore::new(),
            max_upload_duration,
            max_upload_size,
            initiated: Ghost(Set::empty()),
        }
    }

    /// Wraps an existing metadata store.
    pub fn with_metadata(metadata: MetadataStore, max_upload_duration: i64, max_upload_size: i64) -> (r: DebuginfoStore)
        requires
            metadata.wf(),
        ensures
            r.wf(),
            r@ == metadata@,
            r.initiated() == Set::<(Seq<char>, DebuginfoType, Seq<char>)>::empty(),
            r.spec_max_upload_duration() == max_upload_duration,
            r.spec_max_upload_size() == max_upload_size,
    {
        DebuginfoStore { metadata, max_upload_duration, max_upload_size, initiated: Ghost(Set::empty()) }
    }

    pub fn metadata(&self) -> (r: &MetadataStore)
        ensures
            r@ == self@,
            self.wf() ==> r.wf(),
    {
        &self.metadata
    }

    pub fn max_upload_duration(&self) -> (r: i64)
        ensures
            r == self.spec_max_upload_duration(),
    {
        self.max_upload_duration
    }

    pub fn max_upload_size(&self) -> (r: i64)
        ensures
            r == self.spec_max_upload_size(),
    {
        self.max_upload_size
    }

    /// Accepts Build IDs longer than two bytes.
    pub fn validate_buildid(&self, id: &str) -> (r: Result<(), Status>)
        ensures
            r is Ok <==> valid_build_id(id@),
            r matches Err(e) ==> e.code == Code::InvalidArgument,
    {
        if id.as_bytes().len() <= 2 {
            return Err(Status::new(Code::InvalidArgument, "unexpectedly short input"));
        }
        Ok(())
    }

    /// Whether `upload` is stale at `now`.
    pub fn is_upload_stale(&self, upload: &DebuginfoUpload, now: i64) -> (r: bool)
        ensures
            r == is_stale(*upload, self.spec_max_upload_duration(), now),
    {
        match upload.started_at {
            Some(t) => (t as i128) + (self.max_upload_duration as i128) + (STALE_GRACE_MS as i128)
                < (now as i128),
            None => false,
        }
    }

    /// The decision for an existing record at `now`.
    pub fn handle_existing_debuginfo(
        &self,
        hash: &str,
        force: bool,
        debuginfo: &Debuginfo,
        now: i64,
    ) -> (r: Result<ShouldInitiateUploadResponse, Status>)
        ensures
            agrees(r, decide_existing(*debuginfo, hash@, force, self.spec_max_upload_duration(), now)),
    {
        match debuginfo.source {
            Source::Debuginfod => Ok(self.handle_debuginfod_source(debuginfo)),
            Source::Upload => self.handle_upload_source(hash, force, debuginfo, now),
        }
    }

    fn handle_upload_source(
        &self,
        hash: &str,
        force: bool,
        debuginfo: &Debuginfo,
        now: i64,
    ) -> (r: Result<ShouldInitiateUploadResponse, Status>)
        requires
            debuginfo.source == Source::Upload,
        ensures
            agrees(r, decide_existing(*debuginfo, hash@, force, self.spec_max_upload_duration(), now)),
    {
        let upload = match &debuginfo.upload {
            Some(u) => u,
            None => return Err(Status::new(Code::Internal, "Inconsistent metadata: missing upload info")),
        };
        match upload.state {
            UploadState::Uploading => Ok(self.handle_uploading_state(upload, now)),
            UploadState::Uploaded => Ok(self.handle_uploaded_state(hash, force, debuginfo)),
        }
    }

    fn handle_uploading_state(&self, upload: &DebuginfoUpload, now: i64) -> (r: ShouldInitiateUploadResponse)
        ensures
            r == (if is_stale(*upload, self.spec_max_upload_duration(), now) {
                answer(true, Reason::UploadStale)
            } else {
                answer(false, Reason::UploadInProgress)
            }),
    {
        if self.is_upload_stale(upload, now) {
            respond(true, Reason::UploadStale)
        } else {
            respond(false, Reason::UploadInProgress)
        }
    }

    fn handle_uploaded_state(&self, hash: &str, force: bool, debuginfo: &Debuginfo) -> (r: ShouldInitiateUploadResponse)
        requires
            debuginfo.source == Source::Upload,
            debuginfo.upload matches Some(u) && u.state == UploadState::Uploaded,
        ensures
            decide_existing(*debuginfo, hash@, force, self.spec_max_upload_duration(), 0) == Ok::<
                ShouldInitiateUploadResponse,
                Code,
            >(r),
    {
        if !self.is_valid_elf(debuginfo) {
            return self.handle_invalid_elf(force);
        }
        if hash.is_empty() {
            return respond(true, Reason::DebuginfoInvalid);
        }
        self.compare_hash(hash, debuginfo)
    }

    /// A record counts as valid unless a validator marked it otherwise.
    pub fn is_valid_elf(&self, debuginfo: &Debuginfo) -> (r: bool)
        ensures
            r == !debuginfo.spec_marked_invalid(),
    {
        !debuginfo.marked_invalid()
    }

    fn handle_invalid_elf(&self, force: bool) -> (r: ShouldInitiateUploadResponse)
        ensures
            r == (if force {
                answer(true, Reason::AlreadyExistsButForced)
            } else {
                answer(false, Reason::AlreadyExists)
            }),
    {
        if force {
            respond(true, Reason::AlreadyExistsButForced)
        } else {
            respond(false, Reason::AlreadyExists)
        }
    }

    fn compare_hash(&self, hash: &str, debuginfo: &Debuginfo) -> (r: ShouldInitiateUploadResponse)
        ensures
            r == (match debuginfo.upload {
                Some(u) => if u.hash@ == hash@ {
                    answer(false, Reason::DebuginfoEqual)
                } else {
                    answer(true, Reason::DebuginfoNotEqual)
                },
                None => answer(true, Reason::DebuginfoInvalid),
            }),
    {
        match &debuginfo.upload {
            Some(u) => if crate::types::text_eq(u.hash.as_str(), hash) {
                respond(false, Reason::DebuginfoEqual)
            } else {
                respond(true, Reason::DebuginfoNotEqual)
            },
            None => respond(true, Reason::DebuginfoInvalid),
        }
    }

    fn handle_debuginfod_source(&self, debuginfo: &Debuginfo) -> (r: ShouldInitiateUploadResponse)
        requires
            debuginfo.source == Source::Debuginfod,
        ensures
            decide_existing(*debuginfo, Seq::empty(), false, 0, 0) == Ok::<
                ShouldInitiateUploadResponse,
                Code,
            >(r),
    {
        if !self.is_valid_elf(debuginfo) {
            respond(true, Reason::DebuginfodSource)
        } else {
            respond(true, Reason::DebuginfodInvalid)
        }
    }

    /// The first step of `ShouldInitiateUpload` at time `now`.
    pub fn should_initiate_upload_at(&self, req: &ShouldInitiateUploadRequest, now: i64) -> (r: Result<
        ShouldInitiateStep,
        Status,
    >)
        requires
            self.wf(),
        ensures
            agrees(
                r,
                should_initiate_spec(
                    self@,
                    self.spec_max_upload_duration(),
                    req.build_id@,
                    req.hash@,
                    req.force,
                    req.debuginfo_type,
                    req.build_id_type,
                    now,
                ),
            ),
    {
        self.validate_buildid(req.build_id.as_str())?;
        match self.metadata.fetch(req.build_id.as_str(), req.debuginfo_type) {
            Some(info) => match self.handle_existing_debuginfo(req.hash.as_str(), req.force, &info, now) {
                Ok(a) => Ok(ShouldInitiateStep::Answer(a)),
                Err(e) => Err(e),
            },
            None => if req.build_id_type == BuildIdType::Gnu || req.build_id_type
                == BuildIdType::UnknownUnspecified {
                Ok(ShouldInitiateStep::LookupUpstream)
            } else {
                Ok(ShouldInitiateStep::Answer(respond(true, Reason::FirstTimeSeen)))
            },
        }
    }

    /// The first step of `ShouldInitiateUpload`, at the current time.
    pub fn should_initiate_upload(&self, req: &ShouldInitiateUploadRequest) -> (r: Result<
        ShouldInitiateStep,
        Status,
    >)
        requires
            self.wf(),
        ensures
            exists|now: i64|
                agrees(
                    r,
                    #[trigger] should_initiate_spec(
                        self@,
                        self.spec_max_upload_duration(),
                        req.build_id@,
                        req.hash@,
                        req.force,
                        req.debuginfo_type,
                        req.build_id_type,
                        now,
                    ),
                ),
    {
        let now = time_now();
        self.should_initiate_upload_at(req, now)
    }

    /// The last step of `ShouldInitiateUpload` for a Build ID without a
    /// record: `upstream` is the mirror's reply, empty when it has nothing.
    /// A non-empty reply for an eligible Build ID type is recorded.
    pub fn finish_new_build_id(
        &mut self,
        build_id: &str,
        kind: DebuginfoType,
        build_id_type: BuildIdType,
        upstream: &str,
    ) -> (r: ShouldInitiateUploadResponse)
        requires
            old(self).wf(),
        ensures
            final(self).wf(),
            final(self).spec_max_upload_duration() == old(self).spec_max_upload_duration(),
            final(self).spec_max_upload_size() == old(self).spec_max_upload_size(),
            old(self).uploads_initiated() ==> final(self).uploads_initiated(),
            final(self).initiated() == old(self).initiated(),
            r == decide_new(build_id_type, upstream@),
            upstream_eligible(build_id_type) && upstream@.len() > 0 ==> exists|rec: Debuginfo|
                #[trigger] debuginfod_record(build_id@, kind, upstream@, rec) && final(self)@
                    == old(self)@.insert((build_id@, kind), rec),
            !(upstream_eligible(build_id_type) && upstream@.len() > 0) ==> final(self)@ == old(
                self,
            )@,
    {
        let eligible = build_id_type == BuildIdType::Gnu || build_id_type
            == BuildIdType::UnknownUnspecified;
        if eligible && !upstream.is_empty() {
            self.metadata.mark_as_debuginfod_source(upstream, build_id, kind);
            respond(false, Reason::InDebuginfod)
        } else {
            respond(true, Reason::FirstTimeSeen)
        }
    }

    /// `InitiateUpload` with the upload ID and the time given: checks the
    /// request, runs the same decision as `should_initiate_upload` (with the
    /// mirror's reply in `upstream`, once asked for) and records the upload.
    pub fn initiate_upload_with(
        &mut self,
        req: &InitiateUploadRequest,
        upstream: Option<&str>,
        upload_id: String,
        now: i64,
    ) -> (r: Result<InitiateStep, Status>)
        requires
            old(self).wf(),
        ensures
            final(self).wf(),
            final(self).spec_max_upload_duration() == old(self).spec_max_upload_duration(),
            final(self).spec_max_upload_size() == old(self).spec_max_upload_size(),
            old(self).uploads_initiated() ==> final(self).uploads_initiated(),
            r matches Ok(InitiateStep::Instructions(ins)) ==> final(self).initiated() == old(
                self,
            ).initiated().insert((req.build_id@, req.debuginfo_type, ins.upload_id@)),
            !(r matches Ok(InitiateStep::Instructions(_))) ==> final(self).initiated() == old(
                self,
            ).initiated(),
            initiate_outcome(
                old(self)@,
                final(self)@,
                old(self).spec_max_upload_duration(),
                old(self).spec_max_upload_size(),
                *req,
                reply_view(upstream),
                upload_id,
                now,
                r,
            ),
    {
        if req.hash.as_str().is_empty() {
            return Err(Status::new(Code::InvalidArgument, "Hash is empty"));
        }
        if req.size == 0 {
            return Err(Status::new(Code::InvalidArgument, "Size is zero"));
        }
        let siup = ShouldInitiateUploadRequest {
            build_id: req.build_id.clone(),
            hash: req.hash.clone(),
            force: req.force,
            debuginfo_type: req.debuginfo_type,
            build_id_type: req.build_id_type,
        };
        let decision = match self.should_initiate_upload_at(&siup, now)? {
            ShouldInitiateStep::Answer(a) => a,
            ShouldInitiateStep::LookupUpstream => match upstream {
                None => return Ok(InitiateStep::LookupUpstream),
                Some(u) => self.finish_new_build_id(
                    req.build_id.as_str(),
                    req.debuginfo_type,
                    req.build_id_type,
                    u,
                ),
            },
        };
        if !decision.should_initiate_upload {
            if decision.reason == Reason::DebuginfoEqual {
                return Err(Status::new(Code::AlreadyExists, "Debuginfo already exists"));
            }
            let mut message = "upload should not have been attempted to be initiated, a previous check should have failed with ".to_string();
            message.append(decision.reason.message());
            return Err(Status { code: Code::FailedPrecondition, message });
        }
        if req.size > self.max_upload_size {
            return Err(Status::new(Code::InvalidArgument, "Upload size exceeds the maximum allowed size"));
        }
        match self.metadata.mark_as_uploading(
            req.build_id.as_str(),
            upload_id.as_str(),
            req.hash.as_str(),
            req.debuginfo_type,
            now,
        ) {
            Ok(()) => {},
            Err(_) => return Err(Status::new(Code::Internal, "Failed to mark metadata as uploading")),
        }
        proof {
            self.initiated@ = self.initiated@.insert((req.build_id@, req.debuginfo_type, upload_id@));
        }
        Ok(
            InitiateStep::Instructions(
                UploadInstructions {
                    upload_id,
                    build_id: req.build_id.clone(),
                    upload_strategy: UploadStrategy::Grpc,
                    signed_url: String::new(),
                    debuginfo_type: req.debuginfo_type,
                },
            ),
        )
    }

    /// `InitiateUpload`: as `initiate_upload_with`, with a fresh upload ID
    /// and the current time.
    pub fn initiate_upload(&mut self, req: &InitiateUploadRequest, upstream: Option<&str>) -> (r:
        Result<InitiateStep, Status>)
        requires
            old(self).wf(),
        ensures
            final(self).wf(),
            final(self).spec_max_upload_duration() == old(self).spec_max_upload_duration(),
            final(self).spec_max_upload_size() == old(self).spec_max_upload_size(),
            old(self).uploads_initiated() ==> final(self).uploads_initiated(),
            r matches Ok(InitiateStep::Instructions(ins)) ==> final(self).initiated() == old(
                self,
            ).initiated().insert((req.build_id@, req.debuginfo_type, ins.upload_id@)),
            !(r matches Ok(InitiateStep::Instructions(_))) ==> final(self).initiated() == old(
                self,
            ).initiated(),
            exists|upload_id: String, now: i64|
                upload_id@.len() == 26 && #[trigger] initiate_outcome(
                    old(self)@,
                    final(self)@,
                    old(self).spec_max_upload_duration(),
                    old(self).spec_max_upload_size(),
                    *req,
                    reply_view(upstream),
                    upload_id,
                    now,
                    r,
                ),
    {
        let upload_id = new_upload_id();
        let now = time_now();
        let r = self.initiate_upload_with(req, upstream, upload_id, now);
        r
    }

    /// Reads the header frame of an upload stream and checks that it names
    /// the upload recorded for its (Build ID, kind).
    pub fn begin_upload(&self, first: Option<UploadRequestData>) -> (r: Result<UploadRequestInfo, Status>)
        requires
            self.wf(),
        ensures
            agrees_info(r, begin_upload_spec(self@, first)),
    {
        let data = match first {
            Some(d) => d,
            None => return Err(Status::new(Code::InvalidArgument, "Missing data")),
        };
        let info = UploadRequestInfo::try_from(data)?;
        self.validate_buildid(info.buildid.as_str())?;
        let dbginfo = match self.metadata.fetch(info.buildid.as_str(), info.debuginfo_type) {
            Some(d) => d,
            None => return Err(
                Status::new(
                    Code::FailedPrecondition,
                    "metadata not found, this indicates that the upload was not previously initiated",
                ),
            ),
        };
        let upload = match dbginfo.upload {
            Some(u) => u,
            None => return Err(
                Status::new(
                    Code::FailedPrecondition,
                    "metadata not found, this indicates that the upload was not previously initiated",
                ),
            ),
        };
        if !crate::types::text_eq(upload.id.as_str(), info.upload_id.as_str()) {
            return Err(
                Status::new(
                    Code::FailedPrecondition,
                    "upload metadata not found, this indicates that the upload was not previously initiated",
                ),
            );
        }
        Ok(info)
    }

    /// `MarkUploadFinished` at time `now`.
    pub fn mark_upload_finished_at(&mut self, req: &MarkUploadFinishedRequest, now: i64) -> (r: Result<
        (),
        Status,
    >)
        requires
            old(self).wf(),
        ensures
            final(self).wf(),
            final(self).spec_max_upload_duration() == old(self).spec_max_upload_duration(),
            final(self).spec_max_upload_size() == old(self).spec_max_upload_size(),
            old(self).uploads_initiated() ==> final(self).uploads_initiated(),
            final(self).initiated() == old(self).initiated(),
            r is Ok && old(self).uploads_initiated() ==> old(self).initiated().contains(
                (req.build_id@, req.debuginfo_type, req.upload_id@),
            ),
            !valid_build_id(req.build_id@) ==> (r matches Err(e) && e.code == Code::InvalidArgument),
            valid_build_id(req.build_id@) && !has_upload(old(self)@, req.build_id@, req.debuginfo_type, req.upload_id@)
                ==> (r matches Err(e) && e.code == Code::FailedPrecondition),
            r is Err ==> final(self)@ == old(self)@,
            r is Ok <==> valid_build_id(req.build_id@) && has_upload(
                old(self)@,
                req.build_id@,
                req.debuginfo_type,
                req.upload_id@,
            ),
            r is Ok ==> exists|rec: Debuginfo|
                #[trigger] uploaded_record(old(self)@[(req.build_id@, req.debuginfo_type)], now, rec)
                    && final(self)@ == old(self)@.insert((req.build_id@, req.debuginfo_type), rec),
    {
        if let Err(e) = self.validate_buildid(req.build_id.as_str()) {
            return Err(e);
        }
        let ghost before = self.metadata@;
        let ghost key = (req.build_id@, req.debuginfo_type);
        assert(before == old(self)@);
        match self.metadata.mark_as_uploaded(
            req.build_id.as_str(),
            req.upload_id.as_str(),
            req.debuginfo_type,
            now,
        ) {
            Ok(()) => {
                proof {
                    let rec = choose|rec: Debuginfo|
                        #[trigger] uploaded_record(before[key], now, rec) && self.metadata@
                            == before.insert(key, rec);
                    assert(uploaded_record(before[key], now, rec));
                    assert(self@ == before.insert(key, rec));
                }
                Ok(())
            },
            Err(_) => Err(Status::new(Code::FailedPrecondition, "Failed to mark metadata as uploaded: upload not found")),
        }
    }

    /// `MarkUploadFinished` at the current time.
    pub fn mark_upload_finished(&mut self, req: &MarkUploadFinishedRequest) -> (r: Result<(), Status>)
        requires
            old(self).wf(),
        ensures
            final(self).wf(),
            final(self).spec_max_upload_duration() == old(self).spec_max_upload_duration(),
            final(self).spec_max_upload_size() == old(self).spec_max_upload_size(),
            old(self).uploads_initiated() ==> final(self).uploads_initiated(),
            final(self).initiated() == old(self).initiated(),
            r is Ok && old(self).uploads_initiated() ==> old(self).initiated().contains(
                (req.build_id@, req.debuginfo_type, req.upload_id@),
            ),
            !valid_build_id(req.build_id@) ==> (r matches Err(e) && e.code == Code::InvalidArgument),
            valid_build_id(req.build_id@) && !has_upload(old(self)@, req.build_id@, req.debuginfo_type, req.upload_id@)
                ==> (r matches Err(e) && e.code == Code::FailedPrecondition),
            r is Err ==> final(self)@ == old(self)@,
            r is Ok <==> valid_build_id(req.build_id@) && has_upload(
                old(self)@,
                req.build_id@,
                req.debuginfo_type,
                req.upload_id@,
            ),
            r is Ok ==> exists|rec: Debuginfo, now: i64|
                #[trigger] uploaded_record(old(self)@[(req.build_id@, req.debuginfo_type)], now, rec)
                    && final(self)@ == old(self)@.insert((req.build_id@, req.debuginfo_type), rec),
    {
        let now = time_now();
        self.mark_upload_finished_at(req, now)
    }
}

impl UploadRequestInfo {
    /// Decodes a header frame; a chunk frame or an unknown kind is refused.
    pub fn try_from(data: UploadRequestData) -> (r: Result<UploadRequestInfo, Status>)
        ensures
            agrees_info(r, header_spec(data)),
    {
        match data {
            UploadRequestData::Info(upload_info) => match DebuginfoType::from_i32(
                upload_info.debuginfo_type,
            ) {
                Some(t) => Ok(
                    UploadRequestInfo {
                        buildid: upload_info.build_id,
                        upload_id: upload_info.upload_id,
                        debuginfo_type: t,
                    },
                ),
                None => Err(Status::new(Code::InvalidArgument, "Invalid debuginfo type.")),
            },
            _ => Err(Status::new(Code::InvalidArgument, "Invalid data type.")),
        }
    }
}

/// Adds a frame after the header to the bytes received so far; only chunk
/// frames may follow the header.
pub fn append_chunk(chunks: &mut Vec<u8>, frame: Option<UploadRequestData>) -> (r: Result<(), Status>)
    ensures
        match frame {
            Some(UploadRequestData::ChunkData(c)) => r is Ok && final(chunks)@ == old(chunks)@ + c@,
            _ => r matches Err(e) && e.code == Code::InvalidArgument && final(chunks)@ == old(chunks)@,
        },
{
    match frame {
        Some(UploadRequestData::ChunkData(c)) => {
            let mut c = c;
            chunks.append(&mut c);
            Ok(())
        },
        _ => Err(Status::new(Code::InvalidArgument, "provided no value or invalid data")),
    }
}

/// The reply to a completed upload: its Build ID and the number of bytes.
pub fn upload_response(info: UploadRequestInfo, chunks: &Vec<u8>) -> (r: UploadResponse)
    ensures
        r.build_id == info.buildid,
        r.size == chunks@.len(),
{
    UploadResponse { build_id: info.buildid, size: chunks.len() as u64 }
}

/// A decoded header: its Build ID, upload ID and kind.
pub open spec fn same_info(i: UploadRequestInfo, h: (Seq<char>, Seq<char>, DebuginfoType)) -> bool {
    i.buildid@ == h.0 && i.upload_id@ == h.1 && i.debuginfo_type == h.2
}

pub open spec fn agrees_info(
    r: Result<UploadRequestInfo, Status>,
    s: Result<(Seq<char>, Seq<char>, DebuginfoType), Code>,
) -> bool {
    match r {
        Ok(i) => s matches Ok(h) && same_info(i, h),
        Err(e) => s == Err::<(Seq<char>, Seq<char>, DebuginfoType), Code>(e.code),
    }
}

/// What a header frame decodes to.
pub open spec fn header_spec(data: UploadRequestData) -> Result<(Seq<char>, Seq<char>, DebuginfoType), Code> {
    match data {
        UploadRequestData::Info(i) => match DebuginfoType::spec_from_i32(i.debuginfo_type) {
            Some(t) => Ok((i.build_id@, i.upload_id@, t)),
            None => Err(Code::InvalidArgument),
        },
        UploadRequestData::ChunkData(_) => Err(Code::InvalidArgument),
    }
}

/// The outcome of reading the header frame of an upload stream.
pub open spec fn begin_upload_spec(
    store: Map<(Seq<char>, DebuginfoType), Debuginfo>,
    first: Option<UploadRequestData>,
) -> Result<(Seq<char>, Seq<char>, DebuginfoType), Code> {
    match first {
        None => Err(Code::InvalidArgument),
        Some(d) => match header_spec(d) {
            Err(c) => Err(c),
            Ok(h) => if !valid_build_id(h.0) {
                Err(Code::InvalidArgument)
            } else if !store.contains_key((h.0, h.2)) {
                Err(Code::FailedPrecondition)
            } else {
                match store[(h.0, h.2)].upload {
                    None => Err(Code::FailedPrecondition),
                    Some(u) => if u.id@ == h.1 {
                        Ok(h)
                    } else {
                        Err(Code::FailedPrecondition)
                    },
                }
            },
        },
    }
}

/// What `InitiateUpload` returns and leaves in the store, from `before`,
/// with the mirror's reply `upstream` (once asked), the upload ID and the
/// time given.
pub open spec fn initiate_outcome(
    before: Map<(Seq<char>, DebuginfoType), Debuginfo>,
    after: Map<(Seq<char>, DebuginfoType), Debuginfo>,
    max_upload_duration: i64,
    max_upload_size: i64,
    req: InitiateUploadRequest,
    upstream: Option<Seq<char>>,
    upload_id: String,
    now: i64,
    r: Result<InitiateStep, Status>,
) -> bool {
    let d = initiate_decision(
        before,
        max_upload_duration,
        req,
        upstream,
        now,
    );
    if req.hash@.len() == 0 || req.size == 0 {
        r matches Err(e) && e.code == Code::InvalidArgument && after == before
    } else {
        match d {
            None => r matches Ok(InitiateStep::LookupUpstream) && after == before,
            Some(Ok(a)) if a == answer(false, Reason::InDebuginfod) && !before.contains_key((req.build_id@, req.debuginfo_type)) => r matches Err(e)
                && e.code == Code::FailedPrecondition && e.message@ == refusal_message(
                Reason::InDebuginfod,
            ) && exists|rec: Debuginfo|
                #[trigger] debuginfod_record(
                    req.build_id@,
                    req.debuginfo_type,
                    upstream->0,
                    rec,
                ) && after == before.insert(
                    (req.build_id@, req.debuginfo_type),
                    rec,
                ),
            Some(dd) => match initiate_refusal(dd, req.size, max_upload_size) {
                Some(c) => r matches Err(e) && e.code == c && after == before && (c
                    == Code::FailedPrecondition ==> (dd matches Ok(a) && e.message@
                    == refusal_message(a.reason))),
                None => if upload_blocked(
                    before,
                    req.build_id@,
                    req.debuginfo_type,
                    req.hash@,
                ) {
                    r matches Err(e) && e.code == Code::Internal && after == before
                } else {
                    r matches Ok(InitiateStep::Instructions(ins)) && ins.upload_id
                        == upload_id && ins.build_id@ == req.build_id@
                        && ins.upload_strategy == UploadStrategy::Grpc
                        && ins.signed_url@.len() == 0 && ins.debuginfo_type
                        == req.debuginfo_type && exists|rec: Debuginfo|
                        #[trigger] uploading_record(
                            req.build_id@,
                            req.debuginfo_type,
                            upload_id@,
                            req.hash@,
                            now,
                            rec,
                        ) && after == before.insert(
                            (req.build_id@, req.debuginfo_type),
                            rec,
                        )
                },
            },
        }
    }
}

/// The mirror's reply, as characters.
pub open spec fn reply_view(upstream: Option<&str>) -> Option<Seq<char>> {
    match upstream {
        Some(u) => Some(u@),
        None => None,
    }
}

/// The decision `InitiateUpload` acts on; `None` while the mirror has still
/// to be asked.
pub open spec fn initiate_decision(
    store: Map<(Seq<char>, DebuginfoType), Debuginfo>,
    max_upload_duration: i64,
    req: InitiateUploadRequest,
    upstream: Option<Seq<char>>,
    now: i64,
) -> Option<Result<ShouldInitiateUploadResponse, Code>> {
    match should_initiate_spec(
        store,
        max_upload_duration,
        req.build_id@,
        req.hash@,
        req.force,
        req.debuginfo_type,
        req.build_id_type,
        now,
    ) {
        Err(c) => Some(Err(c)),
        Ok(ShouldInitiateStep::Answer(a)) => Some(Ok(a)),
        Ok(ShouldInitiateStep::LookupUpstream) => match upstream {
            None => None,
            Some(u) => Some(Ok(decide_new(req.build_id_type, u))),
        },
    }
}

/// The error `InitiateUpload` returns for a decision, if it refuses.
pub open spec fn initiate_refusal(
    d: Result<ShouldInitiateUploadResponse, Code>,
    size: i64,
    max_upload_size: i64,
) -> Option<Code> {
    match d {
        Err(c) => Some(c),
        Ok(a) => if !a.should_initiate_upload {
            if a.reason == Reason::DebuginfoEqual {
                Some(Code::AlreadyExists)
            } else {
                Some(Code::FailedPrecondition)
            }
        } else if size > max_upload_size {
            Some(Code::InvalidArgument)
        } else {
            None
        },
    }
}

} // verus!
