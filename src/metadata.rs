use vstd::prelude::*;
use crate::types::{text_eq, Code, Debuginfo, DebuginfoType, DebuginfoUpload, Source, Status, UploadState};

verus! {

/// In-memory metadata: at most one record per (Build ID, kind).
pub struct MetadataStore {
    records: Vec<Debuginfo>,
    contents: Ghost<Map<(Seq<char>, DebuginfoType), Debuginfo>>,
}

/// The record that `mark_as_uploading` writes.
pub open spec fn uploading_record(
    build_id: Seq<char>,
    kind: DebuginfoType,
    upload_id: Seq<char>,
    hash: Seq<char>,
    now: i64,
    r: Debuginfo,
) -> bool {
    &&& r.build_id@ == build_id
    &&& r.debuginfo_type == kind
    &&& r.source == Source::Upload
    &&& r.quality is None
    &&& r.debuginfod_server is None
    &&& r.upload matches Some(u) && u.id@ == upload_id && u.hash@ == hash && u.state
        == UploadState::Uploading && u.started_at == Some(now) && u.finished_at is None
}

/// `old` moved to `Uploaded` at `now`, all else kept.
pub open spec fn uploaded_record(old: Debuginfo, now: i64, r: Debuginfo) -> bool {
    &&& old.upload matches Some(ou)
    &&& r.upload matches Some(u)
    &&& u.id == ou.id && u.hash == ou.hash && u.started_at == ou.started_at
    &&& u.state == UploadState::Uploaded && u.finished_at == Some(now)
    &&& r.build_id == old.build_id && r.debuginfo_type == old.debuginfo_type
    &&& r.source == old.source && r.quality == old.quality
    &&& r.debuginfod_server == old.debuginfod_server
}

/// The record that `mark_as_debuginfod_source` writes.
pub open spec fn debuginfod_record(
    build_id: Seq<char>,
    kind: DebuginfoType,
    server: Seq<char>,
    r: Debuginfo,
) -> bool {
    &&& r.build_id@ == build_id
    &&& r.debuginfo_type == kind
    &&& r.source == Source::Debuginfod
    &&& r.upload is None
    &&& r.quality is None
    &&& r.debuginfod_server matches Some(s) && s@ == server
}

/// An `Uploaded` record with this hash stands under (`build_id`, `kind`).
pub open spec fn upload_blocked(
    m: Map<(Seq<char>, DebuginfoType), Debuginfo>,
    build_id: Seq<char>,
    kind: DebuginfoType,
    hash: Seq<char>,
) -> bool {
    &&& m.contains_key((build_id, kind))
    &&& m[(build_id, kind)].upload matches Some(u) && u.state == UploadState::Uploaded && u.hash@
        == hash
}

/// The record under (`build_id`, `kind`) holds the upload `upload_id`.
pub open spec fn has_upload(
    m: Map<(Seq<char>, DebuginfoType), Debuginfo>,
    build_id: Seq<char>,
    kind: DebuginfoType,
    upload_id: Seq<char>,
) -> bool {
    &&& m.contains_key((build_id, kind))
    &&& m[(build_id, kind)].upload matches Some(u) && u.id@ == upload_id
}

impl MetadataStore {
    /// The records, by (Build ID, kind).
    pub closed spec fn view(&self) -> Map<(Seq<char>, DebuginfoType), Debuginfo> {
        self.contents@
    }

    pub closed spec fn wf(&self) -> bool {
        &&& forall|i: int, j: int|
            0 <= i < j < self.records@.len() ==> #[trigger] self.records@[i].key()
                != #[trigger] self.records@[j].key()
        &&& forall|i: int|
            0 <= i < self.records@.len() ==> #[trigger] self.contents@.contains_key(
                self.records@[i].key(),
            ) && self.contents@[self.records@[i].key()] == self.records@[i]
        &&& forall|k: (Seq<char>, DebuginfoType)| #[trigger]
            self.contents@.contains_key(k) ==> exists|i: int|
                0 <= i < self.records@.len() && #[trigger] self.records@[i].key() == k
        &&& forall|i: int| 0 <= i < self.records@.len() ==> (#[trigger] self.records@[i]).wf()
    }

    /// Every record of a well-formed store sits under its own key and is consistent.
    pub proof fn lemma_records_keyed(&self)
        requires
            self.wf(),
        ensures
            forall|k: (Seq<char>, DebuginfoType)| #[trigger]
                self@.contains_key(k) ==> self@[k].key() == k && self@[k].wf(),
    {
        assert forall|k: (Seq<char>, DebuginfoType)| #[trigger]
            self@.contains_key(k) implies self@[k].key() == k && self@[k].wf() by {
            let i = choose|i: int| 0 <= i < self.records@.len() && #[trigger] self.records@[i].key() == k;
            assert(self.contents@.contains_key(self.records@[i].key()));
        }
    }

    /// The stored records, in storage order.
    pub closed spec fn records(&self) -> Seq<Debuginfo> {
        self.records@
    }

    /// A well-formed store holds at most one record per (Build ID, kind),
    /// and each record is the one its key maps to. Every operation that
    /// changes the store keeps it well-formed.
    pub proof fn lemma_one_record_per_key(&self)
        requires
            self.wf(),
        ensures
            forall|i: int, j: int|
                0 <= i < self.records().len() && 0 <= j < self.records().len()
                    && #[trigger] self.records()[i].key() == #[trigger] self.records()[j].key() ==> i
                    == j,
            forall|i: int|
                0 <= i < self.records().len() ==> self@[#[trigger] self.records()[i].key()]
                    == self.records()[i],
    {
        assert forall|i: int, j: int|
            0 <= i < self.records().len() && 0 <= j < self.records().len()
                && #[trigger] self.records()[i].key() == #[trigger] self.records()[j].key() implies i
                == j by {
            if i < j {
                assert(self.records@[i].key() != self.records@[j].key());
            } else if j < i {
                assert(self.records@[j].key() != self.records@[i].key());
            }
        }
        assert forall|i: int| 0 <= i < self.records().len() implies self@[
            #[trigger] self.records()[i].key()] == self.records()[i] by {
            assert(self.contents@.contains_key(self.records@[i].key()));
        }
    }

    pub fn new() -> (r: MetadataStore)
        ensures
            r.wf(),
            r@ == Map::<(Seq<char>, DebuginfoType), Debuginfo>::empty(),
    {
        MetadataStore { records: Vec::new(), contents: Ghost(Map::empty()) }
    }

    fn find(&self, build_id: &str, kind: DebuginfoType) -> (r: Option<usize>)
        requires
            self.wf(),
        ensures
            match r {
                Some(i) => i < self.records@.len() && self.records@[i as int].key() == (
                build_id@,
                kind,
                ) && self@.contains_key((build_id@, kind)),
                None => !self@.contains_key((build_id@, kind)),
            },
    {
        let mut i: usize = 0;
        while i < self.records.len()
            invariant
                self.wf(),
                i <= self.records@.len(),
                forall|j: int| 0 <= j < i ==> #[trigger] self.records@[j].key() != (build_id@, kind),
            decreases self.records@.len() - i,
        {
            let rec = &self.records[i];
            if rec.debuginfo_type == kind && text_eq(rec.build_id.as_str(), build_id) {
                assert(self.records@[i as int].key() == (build_id@, kind));
                return Some(i);
            }
            i += 1;
        }
        None
    }

    /// A snapshot of the record of (`build_id`, `kind`).
    pub fn fetch(&self, build_id: &str, kind: DebuginfoType) -> (r: Option<Debuginfo>)
        requires
            self.wf(),
        ensures
            r == (if self@.contains_key((build_id@, kind)) {
                Some(self@[(build_id@, kind)])
            } else {
                None
            }),
    {
        match self.find(build_id, kind) {
            Some(i) => Some(self.records[i].snapshot()),
            None => None,
        }
    }

    /// Writes `rec` as it is under its key, replacing a record there (records
    /// restored from elsewhere, or marked by an offline validator).
    pub fn put(&mut self, rec: Debuginfo)
        requires
            old(self).wf(),
            rec.wf(),
        ensures
            final(self).wf(),
            final(self)@ == old(self)@.insert(rec.key(), rec),
    {
        let ghost k = rec.key();
        let ghost old_records = self.records@;
        let ghost old_contents = self.contents@;
        let pos = self.find(rec.build_id.as_str(), rec.debuginfo_type);
        proof {
            self.lemma_records_keyed();
            self.contents@ = self.contents@.insert(k, rec);
        }
        match pos {
            Some(i) => {
                self.records.set(i, rec);
                assert forall|j: int| 0 <= j < self.records@.len() implies
                    #[trigger] self.contents@.contains_key(self.records@[j].key())
                    && self.contents@[self.records@[j].key()] == self.records@[j] by {
                    if j != i {
                        if j < i {
                            assert(old_records[j].key() != old_records[i as int].key());
                        } else {
                            assert(old_records[i as int].key() != old_records[j].key());
                        }
                        assert(self.records@[j] == old_records[j]);
                        assert(old_contents.contains_key(old_records[j].key()));
                        assert(old_contents[old_records[j].key()] == old_records[j]);
                    } else {
                        assert(self.records@[j] == rec);
                    }
                }
                assert forall|kk: (Seq<char>, DebuginfoType)| #[trigger]
                    self.contents@.contains_key(kk) implies exists|j: int|
                        0 <= j < self.records@.len() && #[trigger] self.records@[j].key() == kk by {
                    if kk == k {
                        assert(self.records@[i as int].key() == kk);
                    } else {
                        let j = choose|j: int| 0 <= j < old_records.len() && #[trigger] old_records[j].key() == kk;
                        assert(self.records@[j].key() == kk);
                    }
                }
            },
            None => {
                self.records.push(rec);
                let ghost n = old_records.len() as int;
                assert forall|kk: (Seq<char>, DebuginfoType)| #[trigger]
                    self.contents@.contains_key(kk) implies exists|j: int|
                        0 <= j < self.records@.len() && #[trigger] self.records@[j].key() == kk by {
                    if kk == k {
                        assert(self.records@[n].key() == kk);
                    } else {
                        let j = choose|j: int| 0 <= j < old_records.len() && #[trigger] old_records[j].key() == kk;
                        assert(self.records@[j].key() == kk);
                    }
                }
                assert forall|a: int, b: int| 0 <= a < b < self.records@.len() implies
                    #[trigger] self.records@[a].key() != #[trigger] self.records@[b].key() by {
                    if b == n {
                        assert(old_records[a].key() == self.records@[a].key());
                        assert(self.contents@.contains_key(old_records[a].key()));
                    }
                }
            },
        }
    }

    /// Records a fresh upload of (`build_id`, `kind`) started at `now`,
    /// replacing any record there, unless an `Uploaded` record with the same
    /// hash exists (then `AlreadyExists` and nothing changes).
    pub fn mark_as_uploading(
        &mut self,
        build_id: &str,
        upload_id: &str,
        hash: &str,
        kind: DebuginfoType,
        now: i64,
    ) -> (r: Result<(), Status>)
        requires
            old(self).wf(),
        ensures
            final(self).wf(),
            r is Err <==> old(self).blocks_uploading(build_id@, kind, hash@),
            r matches Err(e) ==> e.code == Code::AlreadyExists && final(self)@ == old(self)@,
            r is Ok ==> exists|rec: Debuginfo|
                #[trigger] uploading_record(build_id@, kind, upload_id@, hash@, now, rec)
                    && final(self)@ == old(self)@.insert((build_id@, kind), rec),
    {
        proof {
            self.lemma_records_keyed();
        }
        if let Some(i) = self.find(build_id, kind) {
            if let Some(u) = &self.records[i].upload {
                if u.state == UploadState::Uploaded && text_eq(u.hash.as_str(), hash) {
                    return Err(Status::new(Code::AlreadyExists, "debuginfo already uploaded with this hash"));
                }
            }
        }
        let rec = Debuginfo {
            build_id: build_id.to_string(),
            debuginfo_type: kind,
            source: Source::Upload,
            upload: Some(
                DebuginfoUpload {
                    id: upload_id.to_string(),
                    hash: hash.to_string(),
                    state: UploadState::Uploading,
                    started_at: Some(now),
                    finished_at: None,
                },
            ),
            quality: None,
            debuginfod_server: None,
        };
        assert(uploading_record(build_id@, kind, upload_id@, hash@, now, rec));
        self.put(rec);
        Ok(())
    }

    pub open spec fn blocks_uploading(&self, build_id: Seq<char>, kind: DebuginfoType, hash: Seq<char>) -> bool {
        upload_blocked(self@, build_id, kind, hash)
    }

    /// Moves the upload `upload_id` of (`build_id`, `kind`) to `Uploaded`,
    /// finished at `now`; `NotFound` when no record holds that upload.
    pub fn mark_as_uploaded(
        &mut self,
        build_id: &str,
        upload_id: &str,
        kind: DebuginfoType,
        now: i64,
    ) -> (r: Result<(), Status>)
        requires
            old(self).wf(),
        ensures
            final(self).wf(),
            r is Ok <==> old(self).holds_upload(build_id@, kind, upload_id@),
            r matches Err(e) ==> e.code == Code::NotFound && final(self)@ == old(self)@,
            r is Ok ==> exists|rec: Debuginfo|
                #[trigger] uploaded_record(old(self)@[(build_id@, kind)], now, rec)
                    && final(self)@ == old(self)@.insert((build_id@, kind), rec),
    {
        let i = match self.find(build_id, kind) {
            Some(i) => i,
            None => return Err(Status::new(Code::NotFound, "debuginfo metadata not found")),
        };
        proof {
            self.lemma_records_keyed();
        }
        let rec = self.records[i].snapshot();
        let upload = match rec.upload {
            Some(u) => u,
            None => return Err(Status::new(Code::NotFound, "debuginfo upload metadata not found")),
        };
        if !text_eq(upload.id.as_str(), upload_id) {
            return Err(Status::new(Code::NotFound, "debuginfo upload metadata not found"));
        }
        let new_rec = Debuginfo {
            upload: Some(
                DebuginfoUpload {
                    id: upload.id,
                    hash: upload.hash,
                    state: UploadState::Uploaded,
                    started_at: upload.started_at,
                    finished_at: Some(now),
                },
            ),
            ..rec
        };
        assert(uploaded_record(old(self)@[(build_id@, kind)], now, new_rec));
        self.put(new_rec);
        Ok(())
    }

    pub open spec fn holds_upload(&self, build_id: Seq<char>, kind: DebuginfoType, upload_id: Seq<char>) -> bool {
        has_upload(self@, build_id, kind, upload_id)
    }

    /// Records that (`build_id`, `kind`) is served by the debuginfod server
    /// `server`; writing it twice leaves the same store.
    pub fn mark_as_debuginfod_source(&mut self, server: &str, build_id: &str, kind: DebuginfoType)
        requires
            old(self).wf(),
        ensures
            final(self).wf(),
            exists|rec: Debuginfo|
                #[trigger] debuginfod_record(build_id@, kind, server@, rec)
                    && final(self)@ == old(self)@.insert((build_id@, kind), rec),
    {
        let rec = Debuginfo {
            build_id: build_id.to_string(),
            debuginfo_type: kind,
            source: Source::Debuginfod,
            upload: None,
            quality: None,
            debuginfod_server: Some(server.to_string()),
        };
        assert(debuginfod_record(build_id@, kind, server@, rec));
        self.put(rec);
    }
}

} // verus!
