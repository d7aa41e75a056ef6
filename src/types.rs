use vstd::prelude::*;

verus! {

/// Category of a debug payload; records of different kinds are independent.
#[derive(Clone, Copy, Debug, PartialEq, Eq, Structural)]
pub enum DebuginfoType {
    DebuginfoUnspecified,
    Executable,
    Sources,
}

impl DebuginfoType {
    pub open spec fn spec_from_i32(v: i32) -> Option<DebuginfoType> {
        if v == 0 {
            Some(DebuginfoType::DebuginfoUnspecified)
        } else if v == 1 {
            Some(DebuginfoType::Executable)
        } else if v == 2 {
            Some(DebuginfoType::Sources)
        } else {
            None
        }
    }

    /// The kind with the given wire number, if there is one.
    pub fn from_i32(v: i32) -> (r: Option<DebuginfoType>)
        ensures
            r == Self::spec_from_i32(v),
    {
        if v == 0 {
            Some(DebuginfoType::DebuginfoUnspecified)
        } else if v == 1 {
            Some(DebuginfoType::Executable)
        } else if v == 2 {
            Some(DebuginfoType::Sources)
        } else {
            None
        }
    }
}

/// How a Build ID was produced; only `Gnu` and `UnknownUnspecified` are looked
/// up upstream.
#[derive(Clone, Copy, Debug, PartialEq, Eq, Structural)]
pub enum BuildIdType {
    UnknownUnspecified,
    Gnu,
    Hash,
    Go,
}

/// Where the bytes of a record will be fetched from.
#[derive(Clone, Copy, Debug, PartialEq, Eq, Structural)]
pub enum Source {
    Upload,
    Debuginfod,
}

#[derive(Clone, Copy, Debug, PartialEq, Eq, Structural)]
pub enum UploadState {
    Uploading,
    Uploaded,
}

#[derive(Clone, Copy, Debug, PartialEq, Eq, Structural)]
pub struct DebuginfoQuality {
    pub not_valid_elf: bool,
}

/// One upload attempt. Times are milliseconds since the Unix epoch.
#[derive(Clone, Debug)]
pub struct DebuginfoUpload {
    pub id: String,
    pub hash: String,
    pub state: UploadState,
    pub started_at: Option<i64>,
    pub finished_at: Option<i64>,
}

impl DebuginfoUpload {
    /// A copy equal to `self`.
    pub fn snapshot(&self) -> (r: DebuginfoUpload)
        ensures
            r == *self,
    {
        DebuginfoUpload {
            id: self.id.clone(),
            hash: self.hash.clone(),
            state: self.state,
            started_at: self.started_at,
            finished_at: self.finished_at,
        }
    }
}

/// The metadata record of one (Build ID, kind).
#[derive(Clone, Debug)]
pub struct Debuginfo {
    pub build_id: String,
    pub debuginfo_type: DebuginfoType,
    pub source: Source,
    pub upload: Option<DebuginfoUpload>,
    pub quality: Option<DebuginfoQuality>,
    pub debuginfod_server: Option<String>,
}

impl Debuginfo {
    /// A record is consistent when it holds an upload exactly when its
    /// source is `Upload`.
    pub open spec fn wf(&self) -> bool {
        (self.source == Source::Upload) == self.upload.is_some()
    }

    pub open spec fn key(&self) -> (Seq<char>, DebuginfoType) {
        (self.build_id@, self.debuginfo_type)
    }

    /// True when an offline validator has marked the bytes unparseable.
    pub open spec fn spec_marked_invalid(&self) -> bool {
        match self.quality {
            Some(q) => q.not_valid_elf,
            None => false,
        }
    }

    pub fn marked_invalid(&self) -> (r: bool)
        ensures
            r == self.spec_marked_invalid(),
    {
        match self.quality {
            Some(q) => q.not_valid_elf,
            None => false,
        }
    }

    /// A copy equal to `self`.
    pub fn snapshot(&self) -> (r: Debuginfo)
        ensures
            r == *self,
    {
        let upload = match &self.upload {
            Some(u) => Some(u.snapshot()),
            None => None,
        };
        let server = match &self.debuginfod_server {
            Some(s) => Some(s.clone()),
            None => None,
        };
        Debuginfo {
            build_id: self.build_id.clone(),
            debuginfo_type: self.debuginfo_type,
            source: self.source,
            upload,
            quality: self.quality,
            debuginfod_server: server,
        }
    }
}

/// Whether two strings hold the same characters.
pub fn text_eq(a: &str, b: &str) -> (r: bool)
    ensures
        r == (a@ == b@),
{
    a.to_string() == b.to_string()
}

/// Error codes surfaced to the caller of the upload protocol.
#[derive(Clone, Copy, Debug, PartialEq, Eq, Structural)]
pub enum Code {
    InvalidArgument,
    FailedPrecondition,
    AlreadyExists,
    NotFound,
    Internal,
}

/// An error: a code and a human-readable message.
#[derive(Clone, Debug)]
pub struct Status {
    pub code: Code,
    pub message: String,
}

impl Status {
    pub fn new(code: Code, message: &str) -> (r: Status)
        ensures
            r.code == code,
            r.message@ == message@,
    {
        Status { code, message: message.to_string() }
    }
}

} // verus!
