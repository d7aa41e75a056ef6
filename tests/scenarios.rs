use debuginfo_store::coordinator::{
    append_chunk, upload_response, DebuginfoStore, InitiateStep, InitiateUploadRequest,
    MarkUploadFinishedRequest, Reason, ShouldInitiateStep, ShouldInitiateUploadRequest,
    ShouldInitiateUploadResponse, UploadInfo, UploadRequestData, UploadRequestInfo,
    UploadStrategy, STALE_GRACE_MS,
};
use debuginfo_store::metadata::MetadataStore;
use debuginfo_store::types::{
    BuildIdType, Code, Debuginfo, DebuginfoQuality, DebuginfoType, DebuginfoUpload, Source,
    UploadState,
};

const BUILD_ID: &str = "aabbccddeeff00112233";
const MINUTE: i64 = 60_000;
const MAX_DURATION: i64 = 15 * MINUTE;
const MAX_SIZE: i64 = 1_000_000_000;
const NOW: i64 = 1_700_000_000_000;

fn store() -> DebuginfoStore {
    DebuginfoStore::new(MAX_DURATION, MAX_SIZE)
}

fn should_req(hash: &str, force: bool) -> ShouldInitiateUploadRequest {
    ShouldInitiateUploadRequest {
        build_id: BUILD_ID.to_string(),
        hash: hash.to_string(),
        force,
        debuginfo_type: DebuginfoType::Executable,
        build_id_type: BuildIdType::Gnu,
    }
}

fn init_req(hash: &str, size: i64) -> InitiateUploadRequest {
    InitiateUploadRequest {
        build_id: BUILD_ID.to_string(),
        hash: hash.to_string(),
        size,
        force: false,
        debuginfo_type: DebuginfoType::Executable,
        build_id_type: BuildIdType::Gnu,
    }
}

fn answer(should: bool, reason: Reason) -> ShouldInitiateStep {
    ShouldInitiateStep::Answer(ShouldInitiateUploadResponse { should_initiate_upload: should, reason })
}

fn uploaded(hash: &str, not_valid_elf: bool) -> Debuginfo {
    Debuginfo {
        build_id: BUILD_ID.to_string(),
        debuginfo_type: DebuginfoType::Executable,
        source: Source::Upload,
        upload: Some(DebuginfoUpload {
            id: "01H0000000000000000000000A".to_string(),
            hash: hash.to_string(),
            state: UploadState::Uploaded,
            started_at: Some(NOW - 30 * MINUTE),
            finished_at: Some(NOW - 29 * MINUTE),
        }),
        quality: Some(DebuginfoQuality { not_valid_elf }),
        debuginfod_server: None,
    }
}

fn seeded(rec: Debuginfo) -> DebuginfoStore {
    let mut m = MetadataStore::new();
    m.put(rec);
    DebuginfoStore::with_metadata(m, MAX_DURATION, MAX_SIZE)
}

fn seeded_uploading(started_at: i64) -> DebuginfoStore {
    let mut m = MetadataStore::new();
    m.mark_as_uploading(BUILD_ID, "01H0000000000000000000000B", "h0", DebuginfoType::Executable, started_at)
        .unwrap();
    DebuginfoStore::with_metadata(m, MAX_DURATION, MAX_SIZE)
}

fn initiate_id(s: &mut DebuginfoStore, req: &InitiateUploadRequest, upstream: Option<&str>, id: &str, now: i64) -> String {
    match s.initiate_upload_with(req, upstream, id.to_string(), now) {
        Ok(InitiateStep::Instructions(ins)) => ins.upload_id,
        other => panic!("unexpected: {:?}", other),
    }
}

fn header(upload_id: &str) -> Option<UploadRequestData> {
    Some(UploadRequestData::Info(UploadInfo {
        build_id: BUILD_ID.to_string(),
        upload_id: upload_id.to_string(),
        debuginfo_type: 1,
    }))
}

#[test]
fn first_time_not_in_debuginfod() {
    let mut s = store();
    assert_eq!(s.should_initiate_upload_at(&should_req("h1", false), NOW).unwrap(), ShouldInitiateStep::LookupUpstream);
    let a = s.finish_new_build_id(BUILD_ID, DebuginfoType::Executable, BuildIdType::Gnu, "");
    assert_eq!(a, ShouldInitiateUploadResponse { should_initiate_upload: true, reason: Reason::FirstTimeSeen });

    let req = init_req("h1", 1024);
    assert!(matches!(s.initiate_upload_with(&req, None, "U1".to_string(), NOW), Ok(InitiateStep::LookupUpstream)));
    let ins = match s.initiate_upload_with(&req, Some(""), "U1".to_string(), NOW).unwrap() {
        InitiateStep::Instructions(ins) => ins,
        InitiateStep::LookupUpstream => panic!("lookup asked twice"),
    };
    assert_eq!(ins.upload_id, "U1");
    assert_eq!(ins.build_id, BUILD_ID);
    assert_eq!(ins.upload_strategy, UploadStrategy::Grpc);
    assert_eq!(ins.signed_url, "");
    assert_eq!(ins.debuginfo_type, DebuginfoType::Executable);

    let info = s.begin_upload(header("U1")).unwrap();
    let mut chunks = Vec::new();
    append_chunk(&mut chunks, Some(UploadRequestData::ChunkData(vec![7u8; 1000]))).unwrap();
    append_chunk(&mut chunks, Some(UploadRequestData::ChunkData(vec![9u8; 24]))).unwrap();
    let resp = upload_response(info, &chunks);
    assert_eq!(resp.build_id, BUILD_ID);
    assert_eq!(resp.size, 1024);

    let fin = MarkUploadFinishedRequest {
        build_id: BUILD_ID.to_string(),
        upload_id: "U1".to_string(),
        debuginfo_type: DebuginfoType::Executable,
    };
    s.mark_upload_finished_at(&fin, NOW + MINUTE).unwrap();
    assert_eq!(s.should_initiate_upload_at(&should_req("h1", false), NOW + 2 * MINUTE).unwrap(), answer(false, Reason::DebuginfoEqual));
}

#[test]
fn first_time_in_debuginfod() {
    let mut s = store();
    assert_eq!(s.should_initiate_upload_at(&should_req("h1", false), NOW).unwrap(), ShouldInitiateStep::LookupUpstream);
    let a = s.finish_new_build_id(BUILD_ID, DebuginfoType::Executable, BuildIdType::Gnu, "https://debuginfod.example/buildid");
    assert_eq!(a, ShouldInitiateUploadResponse { should_initiate_upload: false, reason: Reason::InDebuginfod });
    let rec = s.metadata().fetch(BUILD_ID, DebuginfoType::Executable).unwrap();
    assert_eq!(rec.source, Source::Debuginfod);
    assert!(rec.upload.is_none());
    assert_eq!(rec.debuginfod_server.as_deref(), Some("https://debuginfod.example/buildid"));
}

#[test]
fn stale_upload_recovery() {
    let s = seeded_uploading(NOW - 20 * MINUTE);
    assert_eq!(s.should_initiate_upload_at(&should_req("h2", false), NOW).unwrap(), answer(true, Reason::UploadStale));
}

#[test]
fn in_flight_duplicate_refused() {
    let mut s = seeded_uploading(NOW - MINUTE);
    assert_eq!(s.should_initiate_upload_at(&should_req("h2", false), NOW).unwrap(), answer(false, Reason::UploadInProgress));
    let e = s.initiate_upload_with(&init_req("h2", 1024), None, "U9".to_string(), NOW).unwrap_err();
    assert_eq!(e.code, Code::FailedPrecondition);
    assert!(e.message.ends_with(Reason::UploadInProgress.message()));
    assert_eq!(s.metadata().fetch(BUILD_ID, DebuginfoType::Executable).unwrap().upload.unwrap().id, "01H0000000000000000000000B");
}

#[test]
fn upload_to_debuginfod_record_refused() {
    let mut s = store();
    s.finish_new_build_id(BUILD_ID, DebuginfoType::Executable, BuildIdType::Gnu, "https://debuginfod.example/x");
    assert_eq!(s.begin_upload(header("U1")).unwrap_err().code, Code::FailedPrecondition);
    // a Debuginfod record always answers true, so an upload may replace it
    assert_eq!(initiate_id(&mut s, &init_req("h1", 10), None, "U1", NOW), "U1");
    assert!(s.begin_upload(header("U1")).is_ok());
}

#[test]
fn live_mark_finished_errors() {
    let mut s = store();
    let fin = MarkUploadFinishedRequest { build_id: BUILD_ID.to_string(), upload_id: "U1".to_string(), debuginfo_type: DebuginfoType::Executable };
    assert_eq!(s.mark_upload_finished(&fin).unwrap_err().code, Code::FailedPrecondition);
    let short = MarkUploadFinishedRequest { build_id: "ab".to_string(), ..fin };
    assert_eq!(s.mark_upload_finished(&short).unwrap_err().code, Code::InvalidArgument);
}

#[test]
fn duplicate_hash_on_completed_upload() {
    let mut s = seeded(uploaded("h1", false));
    assert_eq!(s.should_initiate_upload_at(&should_req("h1", false), NOW).unwrap(), answer(false, Reason::DebuginfoEqual));
    let e = s.initiate_upload_with(&init_req("h1", 1024), None, "U9".to_string(), NOW).unwrap_err();
    assert_eq!(e.code, Code::AlreadyExists);
}

#[test]
fn reupload_with_new_hash() {
    let mut s = seeded(uploaded("h1", false));
    assert_eq!(s.should_initiate_upload_at(&should_req("h2", false), NOW).unwrap(), answer(true, Reason::DebuginfoNotEqual));
    let id = initiate_id(&mut s, &init_req("h2", 1024), None, "U6", NOW);
    assert_eq!(id, "U6");
    let rec = s.metadata().fetch(BUILD_ID, DebuginfoType::Executable).unwrap();
    let up = rec.upload.unwrap();
    assert_eq!(up.state, UploadState::Uploading);
    assert_eq!(up.hash, "h2");
    assert_eq!(up.id, "U6");
    assert_eq!(up.started_at, Some(NOW));
}

#[test]
fn marked_invalid_record_needs_force() {
    let mut s = seeded(uploaded("h1", true));
    assert_eq!(s.should_initiate_upload_at(&should_req("h2", false), NOW).unwrap(), answer(false, Reason::AlreadyExists));
    assert_eq!(s.should_initiate_upload_at(&should_req("h2", true), NOW).unwrap(), answer(true, Reason::AlreadyExistsButForced));
    let mut req = init_req("h2", 1024);
    req.force = true;
    assert_eq!(initiate_id(&mut s, &req, None, "U7", NOW), "U7");
    // forcing the same hash onto an uploaded record is refused by the store
    let mut t = seeded(uploaded("h1", true));
    let mut same = init_req("h1", 1024);
    same.force = true;
    assert_eq!(t.initiate_upload_with(&same, None, "U8".to_string(), NOW).unwrap_err().code, Code::Internal);
}

#[test]
fn oversize_rejection() {
    let mut s = store();
    let e = s.initiate_upload_with(&init_req("h1", 2_000_000_000), Some(""), "U1".to_string(), NOW).unwrap_err();
    assert_eq!(e.code, Code::InvalidArgument);
    assert!(s.metadata().fetch(BUILD_ID, DebuginfoType::Executable).is_none());
}

#[test]
fn wrong_upload_id() {
    let mut s = store();
    initiate_id(&mut s, &init_req("h1", 1024), Some(""), "U2", NOW);
    let e = s.begin_upload(header("U3")).unwrap_err();
    assert_eq!(e.code, Code::FailedPrecondition);
}

#[test]
fn empty_hash_and_zero_size_rejected() {
    let mut s = store();
    assert_eq!(s.initiate_upload_with(&init_req("", 10), Some(""), "U1".to_string(), NOW).unwrap_err().code, Code::InvalidArgument);
    assert_eq!(s.initiate_upload_with(&init_req("h1", 0), Some(""), "U1".to_string(), NOW).unwrap_err().code, Code::InvalidArgument);
}

#[test]
fn short_build_id_rejected() {
    let s = store();
    let mut req = should_req("h1", false);
    req.build_id = "ab".to_string();
    assert_eq!(s.should_initiate_upload_at(&req, NOW).unwrap_err().code, Code::InvalidArgument);
    req.build_id = "abc".to_string();
    assert_eq!(s.should_initiate_upload_at(&req, NOW).unwrap(), ShouldInitiateStep::LookupUpstream);
}

#[test]
fn other_build_id_types_skip_upstream() {
    let s = store();
    let mut req = should_req("h1", false);
    req.build_id_type = BuildIdType::Go;
    assert_eq!(s.should_initiate_upload_at(&req, NOW).unwrap(), answer(true, Reason::FirstTimeSeen));
    let mut s2 = store();
    let a = s2.finish_new_build_id(BUILD_ID, DebuginfoType::Executable, BuildIdType::Hash, "https://mirror");
    assert_eq!(a.reason, Reason::FirstTimeSeen);
    assert!(s2.metadata().fetch(BUILD_ID, DebuginfoType::Executable).is_none());
}

#[test]
fn staleness_boundary() {
    // stale only strictly after duration plus grace
    let start = NOW - MAX_DURATION - STALE_GRACE_MS;
    let s = seeded_uploading(start);
    assert_eq!(s.should_initiate_upload_at(&should_req("h2", false), NOW).unwrap(), answer(false, Reason::UploadInProgress));
    assert_eq!(s.should_initiate_upload_at(&should_req("h2", false), NOW + 1).unwrap(), answer(true, Reason::UploadStale));
}

#[test]
fn upload_without_start_is_never_stale() {
    let mut rec = uploaded("h1", false);
    let mut up = rec.upload.take().unwrap();
    up.state = UploadState::Uploading;
    up.started_at = None;
    rec.upload = Some(up);
    let s = seeded(rec);
    assert_eq!(s.should_initiate_upload_at(&should_req("h1", false), i64::MAX).unwrap(), answer(false, Reason::UploadInProgress));
}

#[test]
fn uploaded_with_empty_hash_request() {
    let s = seeded(uploaded("h1", false));
    assert_eq!(s.should_initiate_upload_at(&should_req("", false), NOW).unwrap(), answer(true, Reason::DebuginfoInvalid));
}

#[test]
fn debuginfod_source_reasons() {
    let mut rec = uploaded("h1", false);
    rec.source = Source::Debuginfod;
    rec.upload = None;
    let s = seeded(rec.clone());
    assert_eq!(s.should_initiate_upload_at(&should_req("h1", false), NOW).unwrap(), answer(true, Reason::DebuginfodInvalid));
    rec.quality = Some(DebuginfoQuality { not_valid_elf: true });
    let s = seeded(rec);
    assert_eq!(s.should_initiate_upload_at(&should_req("h1", false), NOW).unwrap(), answer(true, Reason::DebuginfodSource));
}

#[test]
fn inconsistent_record_is_internal() {
    let mut rec = uploaded("h1", false);
    rec.upload = None;
    let mut m = MetadataStore::new();
    // a record that claims an upload source without upload info
    m.put(Debuginfo { source: Source::Debuginfod, ..rec.clone() });
    let s = DebuginfoStore::with_metadata(m, MAX_DURATION, MAX_SIZE);
    assert!(s.should_initiate_upload_at(&should_req("h1", false), NOW).is_ok());
    assert_eq!(s.handle_existing_debuginfo("h1", false, &rec, NOW).unwrap_err().code, Code::Internal);
}

#[test]
fn kinds_are_independent() {
    let mut s = store();
    initiate_id(&mut s, &init_req("h1", 10), Some(""), "U1", NOW);
    let mut req = should_req("h1", false);
    req.debuginfo_type = DebuginfoType::Sources;
    assert_eq!(s.should_initiate_upload_at(&req, NOW).unwrap(), ShouldInitiateStep::LookupUpstream);
}

#[test]
fn one_record_per_key_after_many_requests() {
    let mut m = MetadataStore::new();
    m.mark_as_uploading(BUILD_ID, "A", "h1", DebuginfoType::Executable, NOW).unwrap();
    m.mark_as_uploading(BUILD_ID, "B", "h2", DebuginfoType::Executable, NOW).unwrap();
    m.mark_as_debuginfod_source("https://m", BUILD_ID, DebuginfoType::Sources);
    m.mark_as_debuginfod_source("https://m", BUILD_ID, DebuginfoType::Sources);
    m.mark_as_uploaded(BUILD_ID, "B", DebuginfoType::Executable, NOW + 1).unwrap();
    let rec = m.fetch(BUILD_ID, DebuginfoType::Executable).unwrap();
    let up = rec.upload.unwrap();
    assert_eq!(up.id, "B");
    assert_eq!(up.state, UploadState::Uploaded);
    assert_eq!(up.finished_at, Some(NOW + 1));
    assert_eq!(m.fetch(BUILD_ID, DebuginfoType::Sources).unwrap().source, Source::Debuginfod);
}

#[test]
fn metadata_refuses_same_hash_over_uploaded() {
    let mut m = MetadataStore::new();
    m.put(uploaded("h1", false));
    assert_eq!(m.mark_as_uploading(BUILD_ID, "X", "h1", DebuginfoType::Executable, NOW).unwrap_err().code, Code::AlreadyExists);
    assert_eq!(m.fetch(BUILD_ID, DebuginfoType::Executable).unwrap().upload.unwrap().hash, "h1");
    assert_eq!(m.mark_as_uploaded(BUILD_ID, "nope", DebuginfoType::Executable, NOW).unwrap_err().code, Code::NotFound);
}

#[test]
fn finish_then_initiate_sequence() {
    let mut s = store();
    let id = initiate_id(&mut s, &init_req("h1", 10), Some(""), "U1", NOW);
    let rec = s.metadata().fetch(BUILD_ID, DebuginfoType::Executable).unwrap();
    assert_eq!(rec.upload.as_ref().unwrap().state, UploadState::Uploading);
    let fin = MarkUploadFinishedRequest { build_id: BUILD_ID.to_string(), upload_id: id, debuginfo_type: DebuginfoType::Executable };
    s.mark_upload_finished_at(&fin, NOW + 5).unwrap();
    let rec = s.metadata().fetch(BUILD_ID, DebuginfoType::Executable).unwrap();
    assert_eq!(rec.upload.as_ref().unwrap().state, UploadState::Uploaded);
    assert_eq!(rec.upload.as_ref().unwrap().hash, "h1");
}

#[test]
fn mark_finished_unknown_upload() {
    let mut s = store();
    let fin = MarkUploadFinishedRequest { build_id: BUILD_ID.to_string(), upload_id: "U1".to_string(), debuginfo_type: DebuginfoType::Executable };
    assert_eq!(s.mark_upload_finished_at(&fin, NOW).unwrap_err().code, Code::FailedPrecondition);
    let short = MarkUploadFinishedRequest { build_id: "ab".to_string(), ..fin };
    assert_eq!(s.mark_upload_finished_at(&short, NOW).unwrap_err().code, Code::InvalidArgument);
}

#[test]
fn concurrent_initiates_second_wins() {
    let mut s = seeded_uploading(NOW - 20 * MINUTE);
    let first = initiate_id(&mut s, &init_req("h1", 10), None, "U1", NOW);
    // while the first is in progress a second initiate is refused
    assert_eq!(s.initiate_upload_with(&init_req("h2", 10), None, "U2".to_string(), NOW + MINUTE).unwrap_err().code, Code::FailedPrecondition);
    // once it is stale the second initiate for the same key replaces it
    let second = initiate_id(&mut s, &init_req("h2", 10), None, "U2", NOW + 20 * MINUTE);
    assert_ne!(first, second);
    assert_eq!(s.begin_upload(header(&first)).unwrap_err().code, Code::FailedPrecondition);
    assert!(s.begin_upload(header(&second)).is_ok());
    let fin = MarkUploadFinishedRequest { build_id: BUILD_ID.to_string(), upload_id: first, debuginfo_type: DebuginfoType::Executable };
    assert_eq!(s.mark_upload_finished_at(&fin, NOW + 21 * MINUTE).unwrap_err().code, Code::FailedPrecondition);
}

#[test]
fn decision_is_deterministic() {
    let s = seeded(uploaded("h1", false));
    let a = s.should_initiate_upload_at(&should_req("h2", false), NOW).unwrap();
    let b = s.should_initiate_upload_at(&should_req("h2", false), NOW).unwrap();
    assert_eq!(a, b);
}

#[test]
fn upload_framing_errors() {
    let s = store();
    assert_eq!(s.begin_upload(None).unwrap_err().code, Code::InvalidArgument);
    assert_eq!(s.begin_upload(Some(UploadRequestData::ChunkData(vec![1]))).unwrap_err().code, Code::InvalidArgument);
    let bad_kind = Some(UploadRequestData::Info(UploadInfo { build_id: BUILD_ID.to_string(), upload_id: "U".to_string(), debuginfo_type: 7 }));
    assert_eq!(s.begin_upload(bad_kind).unwrap_err().code, Code::InvalidArgument);
    assert_eq!(s.begin_upload(header("U")).unwrap_err().code, Code::FailedPrecondition);
    let mut chunks = vec![1u8];
    assert_eq!(append_chunk(&mut chunks, header("U")).unwrap_err().code, Code::InvalidArgument);
    assert_eq!(append_chunk(&mut chunks, None).unwrap_err().code, Code::InvalidArgument);
    assert_eq!(chunks, vec![1u8]);
}

#[test]
fn header_decoding() {
    let info = UploadRequestInfo::try_from(header("U5").unwrap()).unwrap();
    assert_eq!(info.buildid, BUILD_ID);
    assert_eq!(info.upload_id, "U5");
    assert_eq!(info.debuginfo_type, DebuginfoType::Executable);
    assert_eq!(DebuginfoType::from_i32(2), Some(DebuginfoType::Sources));
    assert_eq!(DebuginfoType::from_i32(-1), None);
}

#[test]
fn live_clock_and_upload_ids() {
    let mut s = store();
    let a = match s.initiate_upload(&init_req("h1", 10), Some("")).unwrap() {
        InitiateStep::Instructions(i) => i.upload_id,
        _ => panic!("no instructions"),
    };
    assert_eq!(a.len(), 26);
    let mut t = store();
    let b = match t.initiate_upload(&init_req("h1", 10), Some("")).unwrap() {
        InitiateStep::Instructions(i) => i.upload_id,
        _ => panic!("no instructions"),
    };
    assert_ne!(a, b);
    assert_eq!(s.should_initiate_upload(&should_req("h1", false)).unwrap(), answer(false, Reason::UploadInProgress));
    let fin = MarkUploadFinishedRequest { build_id: BUILD_ID.to_string(), upload_id: a, debuginfo_type: DebuginfoType::Executable };
    s.mark_upload_finished(&fin).unwrap();
    assert_eq!(s.should_initiate_upload(&should_req("h1", false)).unwrap(), answer(false, Reason::DebuginfoEqual));
}

#[test]
fn reason_messages() {
    assert_eq!(Reason::FirstTimeSeen.message(), "First time we see this Build ID, and it does not exist in debuginfod, therefore please upload!");
    assert_eq!(Reason::InDebuginfod.message(), "Debuginfo exists in debuginfod, therefore no upload is necessary.");
    assert_ne!(Reason::DebuginfodSource.message(), Reason::DebuginfodInvalid.message());
}
