//! Crash recovery: the markers that a recording leaves while it runs, and
//! what a marker left behind by a crash says about the unfinished file.

use vstd::prelude::*;

verus! {

/// The marker written while a recording runs. Its start time is a UTC
/// instant, in seconds and nanoseconds since the Unix epoch.
#[derive(Debug, Clone)]
pub struct SessionMarker {
    pub session_id: String,
    pub target_file: String,
    pub container: String,
    pub started_at_secs: i64,
    pub started_at_nanos: u32,
    pub width: u32,
    pub height: u32,
    pub fps: u32,
    pub is_active: bool,
}

/// A recording that a crash left unfinished.
#[derive(Debug, Clone)]
pub struct UnfinishedSession {
    pub session_id: String,
    pub file_path: String,
    pub file_size_bytes: u64,
    pub started_at: String,
    pub recoverable: bool,
}

/// The name of the marker file of a session: the session id followed by
/// `.session.json`.
pub fn marker_file_name(session_id: &str) -> (name: String)
    ensures
        name@ == session_id@ + ".session.json"@,
{
    let mut name = String::from_str(session_id);
    name.append(".session.json");
    name
}

/// What chrono's `DateTime::from_timestamp(secs, nanos)` followed by
/// `to_rfc3339` gives: the RFC 3339 text of that UTC instant, or nothing
/// when the instant is outside chrono's range.
pub uninterp spec fn rfc3339_utc(secs: i64, nanos: u32) -> Option<Seq<char>>;

/// Calls `chrono::DateTime::from_timestamp` and, on the instant it gives,
/// `DateTime::to_rfc3339`; the result is named `rfc3339_utc` of the two
/// numbers, a function of them alone (the time zone is UTC).
#[verifier::external_body]
fn utc_rfc3339(secs: i64, nanos: u32) -> (r: Option<String>)
    ensures
        match r {
            Some(s) => rfc3339_utc(secs, nanos) == Some(s@),
            None => rfc3339_utc(secs, nanos) is None,
        },
{
    match chrono::DateTime::from_timestamp(secs, nanos) {
        Some(t) => Some(t.to_rfc3339()),
        None => None,
    }
}

/// The unfinished session that a leftover marker stands for, when its file
/// holds data (`file_size` bytes) and its start time can be written out.
pub fn unfinished_session(marker: &SessionMarker, file_size: u64) -> (r: Option<UnfinishedSession>)
    ensures
        r is Some <==> (file_size > 0 && rfc3339_utc(marker.started_at_secs, marker.started_at_nanos) is Some),
        r matches Some(u) ==> {
            &&& u.session_id == marker.session_id
            &&& u.file_path == marker.target_file
            &&& u.file_size_bytes == file_size
            &&& Some(u.started_at@) == rfc3339_utc(marker.started_at_secs, marker.started_at_nanos)
            &&& u.recoverable
        },
{
    if file_size == 0 {
        return None;
    }
    match utc_rfc3339(marker.started_at_secs, marker.started_at_nanos) {
        Some(started_at) => Some(session_record(marker, file_size, started_at)),
        None => None,
    }
}

/// The unfinished session that a leftover marker stands for, given the size
/// of its file and its start time written out.
pub fn session_record(marker: &SessionMarker, file_size: u64, started_at: String) -> (u: UnfinishedSession)
    ensures
        u.session_id == marker.session_id,
        u.file_path == marker.target_file,
        u.file_size_bytes == file_size,
        u.started_at == started_at,
        u.recoverable,
{
    UnfinishedSession {
        session_id: marker.session_id.clone(),
        file_path: marker.target_file.clone(),
        file_size_bytes: file_size,
        started_at,
        recoverable: true,
    }
}

/// What recovering a session gives: the recorded file when it still
/// exists, which is kept as it is; an error otherwise.
pub fn recovered_path(marker: &SessionMarker, target_exists: bool) -> (r: Result<String, String>)
    ensures
        target_exists <==> r is Ok,
        r matches Ok(p) ==> p == marker.target_file,
        r matches Err(e) ==> e@ == "Recorded file no longer exists"@,
{
    if target_exists {
        Ok(marker.target_file.clone())
    } else {
        Err(String::from_str("Recorded file no longer exists"))
    }
}


/// Where session markers are kept: the folder that holds them.
pub struct RecoveryManager {
    marker_dir: String,
}

impl RecoveryManager {
    /// A manager for the markers in `marker_dir`.
    pub fn new_at(marker_dir: String) -> (m: RecoveryManager)
        ensures
            m.marker_dir() == marker_dir,
    {
        RecoveryManager { marker_dir }
    }

    /// The folder that holds the session markers.
    pub closed spec fn marker_dir(&self) -> String {
        self.marker_dir
    }

    /// The folder that holds the session markers.
    pub fn marker_folder(&self) -> (d: &String)
        ensures
            *d == self.marker_dir(),
    {
        &self.marker_dir
    }
}

} // verus!
