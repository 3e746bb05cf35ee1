//! Plain-value models of the objects, statistics and targets that flow
//! through the deletion pipeline.

use std::path::PathBuf;
use vstd::prelude::*;

verus! {

/// One billion: the number of nanoseconds in a second.
pub const NANOS_PER_SECOND: u32 = 1_000_000_000;

/// A point in time as whole seconds since the Unix epoch plus the
/// sub-second part in nanoseconds (always below one second).
#[derive(Clone, Copy, Debug)]
pub struct Timestamp {
    secs: i64,
    nanos: u32,
}

impl Timestamp {
    #[verifier::type_invariant]
    spec fn nanos_below_one_second(self) -> bool {
        self.nanos < NANOS_PER_SECOND
    }

    /// Whole seconds since the Unix epoch.
    pub closed spec fn spec_secs(self) -> i64 {
        self.secs
    }

    /// Sub-second part in nanoseconds.
    pub closed spec fn spec_nanos(self) -> u32 {
        self.nanos
    }

    /// Builds a timestamp; the sub-second part must be below one second.
    pub fn new(secs: i64, nanos: u32) -> (t: Timestamp)
        requires
            nanos < NANOS_PER_SECOND,
        ensures
            t.spec_secs() == secs,
            t.spec_nanos() == nanos,
    {
        Timestamp { secs, nanos }
    }

    /// The timestamp `secs` seconds after the Unix epoch.
    pub fn from_secs(secs: i64) -> (t: Timestamp)
        ensures
            t.spec_secs() == secs,
            t.spec_nanos() == 0,
    {
        Timestamp { secs, nanos: 0 }
    }

    pub fn secs(&self) -> (r: i64)
        ensures
            r == self.spec_secs(),
    {
        self.secs
    }

    pub fn subsec_nanos(&self) -> (r: u32)
        ensures
            r == self.spec_nanos(),
            r < NANOS_PER_SECOND,
    {
        proof {
            use_type_invariant(self);
        }
        self.nanos
    }
}

/// An object of a bucket listed without versions.
#[derive(Debug)]
pub struct ObjectEntry {
    pub key: String,
    pub size: i64,
    pub last_modified: Timestamp,
    pub e_tag: Option<String>,
}

/// One version of an object of a versioned bucket.
#[derive(Debug)]
pub struct ObjectVersionEntry {
    pub key: String,
    pub version_id: Option<String>,
    pub size: i64,
    pub last_modified: Timestamp,
    pub e_tag: Option<String>,
    pub is_latest: Option<bool>,
}

/// A delete marker of a versioned bucket.
#[derive(Debug)]
pub struct DeleteMarkerEntry {
    pub key: String,
    pub version_id: Option<String>,
    pub last_modified: Timestamp,
    pub is_latest: Option<bool>,
}

/// An object listed from the target bucket: a plain object, an object
/// version, or a delete marker.
#[derive(Debug)]
pub enum S3Object {
    NotVersioning(ObjectEntry),
    Versioning(ObjectVersionEntry),
    DeleteMarker(DeleteMarkerEntry),
}

/// The view of an optional string as an optional character sequence.
pub open spec fn opt_view(o: Option<String>) -> Option<Seq<char>> {
    match o {
        Some(s) => Some(s@),
        None => None,
    }
}

/// Copies an optional string.
pub fn clone_opt_string(o: &Option<String>) -> (r: Option<String>)
    ensures
        r == *o,
{
    match o {
        Some(s) => Some(s.clone()),
        None => None,
    }
}

impl Clone for ObjectEntry {
    fn clone(&self) -> (r: Self)
        ensures
            r == *self,
    {
        ObjectEntry {
            key: self.key.clone(),
            size: self.size,
            last_modified: self.last_modified,
            e_tag: clone_opt_string(&self.e_tag),
        }
    }
}

impl Clone for ObjectVersionEntry {
    fn clone(&self) -> (r: Self)
        ensures
            r == *self,
    {
        ObjectVersionEntry {
            key: self.key.clone(),
            version_id: clone_opt_string(&self.version_id),
            size: self.size,
            last_modified: self.last_modified,
            e_tag: clone_opt_string(&self.e_tag),
            is_latest: self.is_latest,
        }
    }
}

impl Clone for DeleteMarkerEntry {
    fn clone(&self) -> (r: Self)
        ensures
            r == *self,
    {
        DeleteMarkerEntry {
            key: self.key.clone(),
            version_id: clone_opt_string(&self.version_id),
            last_modified: self.last_modified,
            is_latest: self.is_latest,
        }
    }
}

impl Clone for S3Object {
    fn clone(&self) -> (r: Self)
        ensures
            r == *self,
    {
        match self {
            S3Object::NotVersioning(o) => S3Object::NotVersioning(o.clone()),
            S3Object::Versioning(o) => S3Object::Versioning(o.clone()),
            S3Object::DeleteMarker(o) => S3Object::DeleteMarker(o.clone()),
        }
    }
}

impl S3Object {
    pub open spec fn key_spec(self) -> Seq<char> {
        match self {
            S3Object::NotVersioning(o) => o.key@,
            S3Object::Versioning(o) => o.key@,
            S3Object::DeleteMarker(o) => o.key@,
        }
    }

    pub open spec fn version_id_spec(self) -> Option<Seq<char>> {
        match self {
            S3Object::NotVersioning(_) => None,
            S3Object::Versioning(o) => opt_view(o.version_id),
            S3Object::DeleteMarker(o) => opt_view(o.version_id),
        }
    }

    pub open spec fn e_tag_spec(self) -> Option<Seq<char>> {
        match self {
            S3Object::NotVersioning(o) => opt_view(o.e_tag),
            S3Object::Versioning(o) => opt_view(o.e_tag),
            S3Object::DeleteMarker(_) => None,
        }
    }

    /// Delete markers carry no content and count as size zero.
    pub open spec fn size_spec(self) -> i64 {
        match self {
            S3Object::NotVersioning(o) => o.size,
            S3Object::Versioning(o) => o.size,
            S3Object::DeleteMarker(_) => 0,
        }
    }

    pub open spec fn last_modified_spec(self) -> Timestamp {
        match self {
            S3Object::NotVersioning(o) => o.last_modified,
            S3Object::Versioning(o) => o.last_modified,
            S3Object::DeleteMarker(o) => o.last_modified,
        }
    }

    /// A plain object is the only, hence latest, version; a missing flag
    /// counts as latest.
    pub open spec fn is_latest_spec(self) -> bool {
        match self {
            S3Object::NotVersioning(_) => true,
            S3Object::Versioning(o) => o.is_latest != Some(false),
            S3Object::DeleteMarker(o) => o.is_latest != Some(false),
        }
    }

    pub open spec fn is_delete_marker_spec(self) -> bool {
        self is DeleteMarker
    }

    pub fn key(&self) -> (r: &str)
        ensures
            r@ == self.key_spec(),
    {
        match self {
            S3Object::NotVersioning(o) => o.key.as_str(),
            S3Object::Versioning(o) => o.key.as_str(),
            S3Object::DeleteMarker(o) => o.key.as_str(),
        }
    }

    pub fn version_id(&self) -> (r: Option<&str>)
        ensures
            r is Some <==> self.version_id_spec() is Some,
            r matches Some(v) ==> v@ == self.version_id_spec()->0,
    {
        let v = match self {
            S3Object::NotVersioning(_) => &None,
            S3Object::Versioning(o) => &o.version_id,
            S3Object::DeleteMarker(o) => &o.version_id,
        };
        match v {
            Some(s) => Some(s.as_str()),
            None => None,
        }
    }

    pub fn e_tag(&self) -> (r: Option<&str>)
        ensures
            r is Some <==> self.e_tag_spec() is Some,
            r matches Some(v) ==> v@ == self.e_tag_spec()->0,
    {
        let v = match self {
            S3Object::NotVersioning(o) => &o.e_tag,
            S3Object::Versioning(o) => &o.e_tag,
            S3Object::DeleteMarker(_) => &None,
        };
        match v {
            Some(s) => Some(s.as_str()),
            None => None,
        }
    }

    pub fn size(&self) -> (r: i64)
        ensures
            r == self.size_spec(),
    {
        match self {
            S3Object::NotVersioning(o) => o.size,
            S3Object::Versioning(o) => o.size,
            S3Object::DeleteMarker(_) => 0,
        }
    }

    pub fn last_modified(&self) -> (r: Timestamp)
        ensures
            r == self.last_modified_spec(),
    {
        match self {
            S3Object::NotVersioning(o) => o.last_modified,
            S3Object::Versioning(o) => o.last_modified,
            S3Object::DeleteMarker(o) => o.last_modified,
        }
    }

    pub fn is_latest(&self) -> (r: bool)
        ensures
            r == self.is_latest_spec(),
    {
        match self {
            S3Object::NotVersioning(_) => true,
            S3Object::Versioning(o) => !matches!(o.is_latest, Some(false)),
            S3Object::DeleteMarker(o) => !matches!(o.is_latest, Some(false)),
        }
    }

    pub fn is_delete_marker(&self) -> (r: bool)
        ensures
            r == self.is_delete_marker_spec(),
    {
        matches!(self, S3Object::DeleteMarker(_))
    }
}

} // verus!

verus! {

/// Per-object statistics sent to the progress indicator.
#[derive(Debug)]
pub enum DeletionStatistics {
    DeleteComplete { key: String },
    DeleteBytes(u64),
    DeleteError { key: String },
    DeleteSkip { key: String },
    DeleteWarning { key: String },
}

/// The view of a statistic, keys as character sequences.
pub enum StatsView {
    DeleteComplete(Seq<char>),
    DeleteBytes(u64),
    DeleteError(Seq<char>),
    DeleteSkip(Seq<char>),
    DeleteWarning(Seq<char>),
}

impl View for DeletionStatistics {
    type V = StatsView;

    open spec fn view(&self) -> StatsView {
        match self {
            DeletionStatistics::DeleteComplete { key } => StatsView::DeleteComplete(key@),
            DeletionStatistics::DeleteBytes(n) => StatsView::DeleteBytes(*n),
            DeletionStatistics::DeleteError { key } => StatsView::DeleteError(key@),
            DeletionStatistics::DeleteSkip { key } => StatsView::DeleteSkip(key@),
            DeletionStatistics::DeleteWarning { key } => StatsView::DeleteWarning(key@),
        }
    }
}

/// The view of an optional borrowed string.
pub open spec fn opt_str_view(o: Option<&str>) -> Option<Seq<char>> {
    match o {
        Some(s) => Some(s@),
        None => None,
    }
}

/// Borrows an optional owned string.
pub fn opt_as_str(o: &Option<String>) -> (r: Option<&str>)
    ensures
        opt_str_view(r) == opt_view(*o),
{
    match o {
        Some(s) => Some(s.as_str()),
        None => None,
    }
}

/// Copies an optional borrowed string into an optional owned string.
pub fn to_owned_opt(o: Option<&str>) -> (r: Option<String>)
    ensures
        opt_view(r) == match o {
            Some(s) => Some(s@),
            None => None::<Seq<char>>,
        },
{
    match o {
        Some(s) => Some(s.to_owned()),
        None => None,
    }
}

/// The deletion target: a bucket and a key prefix.
#[derive(Debug)]
pub enum StoragePath {
    S3 { bucket: String, prefix: String },
}

impl StoragePath {
    /// The bucket and the prefix.
    pub open spec fn parts(self) -> (Seq<char>, Seq<char>) {
        match self {
            StoragePath::S3 { bucket, prefix } => (bucket@, prefix@),
        }
    }
}

impl Clone for StoragePath {
    fn clone(&self) -> (r: Self)
        ensures
            r == *self,
    {
        match self {
            StoragePath::S3 { bucket, prefix } => StoragePath::S3 { bucket: bucket.clone(), prefix: prefix.clone() },
        }
    }
}

#[verifier::external_type_specification]
#[verifier::external_body]
pub struct ExPathBuf(PathBuf);

/// Static AWS credentials.
#[derive(Clone, Debug)]
pub struct AccessKeys {
    pub access_key: String,
    pub secret_access_key: String,
    pub session_token: Option<String>,
}

/// Where the S3 client takes its credentials from.
#[derive(Clone, Debug)]
pub enum S3Credentials {
    /// A named profile of the AWS configuration files.
    Profile(String),
    /// Keys given on the command line.
    Credentials { access_keys: AccessKeys },
    /// The default provider chain (environment, instance metadata, ...).
    FromEnvironment,
}

/// Alternative locations of the AWS configuration files.
#[derive(Clone, Debug)]
pub struct ClientConfigLocation {
    pub aws_config_file: Option<PathBuf>,
    pub aws_shared_credentials_file: Option<PathBuf>,
}

} // verus!
