//! Decisions of the download, upload and delete operations. The one
//! failure convention they share: a remote-call failure is absorbed — one
//! diagnostic is produced and the operation still reports success — while
//! a local failure (a summary without a key, a file that cannot be read
//! or written, a response body that cannot be collected) is a hard error.
//! The surrounding program performs the remote calls and the file I/O and
//! hands their outcomes back here.

use vstd::prelude::*;
use crate::summary::ObjectSummary;

verus! {

/// A hard failure: the operation's caller sees an error.
#[derive(Debug)]
pub enum OpError {
    /// The object summary carries no key.
    MissingKey,
    /// The local file could not be opened, streamed or written.
    LocalFile(String),
    /// The response body could not be collected.
    BodyRead(String),
}

/// A completed operation: either everything succeeded, or the remote
/// call failed and its one diagnostic was absorbed — the caller sees
/// success either way and cannot tell the two apart from the result
/// alone.
#[derive(Debug)]
pub enum OpReport {
    Done,
    Recovered(String),
}

/// Settles a remote call's outcome: success completes the operation, and
/// a failure is absorbed into a report carrying exactly one diagnostic.
pub fn absorb_remote(remote: Result<(), String>) -> (r: OpReport)
    ensures
        remote is Ok <==> r is Done,
        remote matches Err(e) ==> r matches OpReport::Recovered(d) && d@ == e@,
{
    match remote {
        Ok(()) => OpReport::Done,
        Err(diagnostic) => OpReport::Recovered(diagnostic),
    }
}

/// A download about to run: the key to fetch, which is also the name of
/// the local file to write.
pub struct DownloadPlan {
    pub key: String,
}

/// What a download writes: the file at `path` gets exactly `contents`,
/// created or truncated.
pub struct FileWrite {
    pub path: String,
    pub contents: Vec<u8>,
}

/// Begins a download: the summary must carry a key; without one the call
/// fails before anything is fetched and no file is created.
pub fn download_begin(o: &ObjectSummary) -> (r: Result<DownloadPlan, OpError>)
    ensures
        o.key is Some <==> r is Ok,
        r matches Ok(p) ==> p.key@ == o.key->Some_0@,
        r matches Err(e) ==> e is MissingKey,
{
    match &o.key {
        Some(k) => Ok(DownloadPlan { key: k.clone() }),
        None => Err(OpError::MissingKey),
    }
}

/// Settles the collected response body of a download: a collected body
/// becomes a write of exactly those bytes to a file named after the key,
/// and a body that could not be collected is a hard error.
pub fn download_save(plan: DownloadPlan, body: Result<Vec<u8>, String>) -> (r: Result<
    FileWrite,
    OpError,
>)
    ensures
        body is Ok <==> r is Ok,
        r matches Ok(w) ==> w.path@ == plan.key@ && w.contents@ == body->Ok_0@,
        body matches Err(e) ==> r matches Err(er) && er matches OpError::BodyRead(m) && m@ == e@,
{
    match body {
        Ok(bytes) => Ok(FileWrite { path: plan.key, contents: bytes }),
        Err(diagnostic) => Err(OpError::BodyRead(diagnostic)),
    }
}

/// Settles the local file write of a download: a failed write is a hard
/// error; a completed one completes the operation.
pub fn download_finish(write: Result<(), String>) -> (r: Result<OpReport, OpError>)
    ensures
        write is Ok <==> r is Ok,
        r matches Ok(rep) ==> rep is Done,
        write matches Err(e) ==> r matches Err(er) && er matches OpError::LocalFile(m) && m@ == e@,
{
    match write {
        Ok(()) => Ok(OpReport::Done),
        Err(diagnostic) => Err(OpError::LocalFile(diagnostic)),
    }
}

/// An upload about to run: the object key, which is the local file path
/// verbatim, directory separators included.
pub struct UploadPlan {
    pub key: String,
}

/// Begins an upload: the local file must have opened as a streaming
/// body; a failure to open it is a hard error, and a file that opened is
/// sent under its exact path string as the key.
pub fn upload_begin(path: &String, opened: Result<(), String>) -> (r: Result<UploadPlan, OpError>)
    ensures
        opened is Ok <==> r is Ok,
        r matches Ok(p) ==> p.key@ == path@,
        opened matches Err(e) ==> r matches Err(er) && er matches OpError::LocalFile(m) && m@
            == e@,
{
    match opened {
        Ok(()) => Ok(UploadPlan { key: path.clone() }),
        Err(diagnostic) => Err(OpError::LocalFile(diagnostic)),
    }
}

/// Begins a delete: the summary must carry a key; without one the call
/// fails before anything is sent.
pub fn delete_begin(o: &ObjectSummary) -> (r: Result<String, OpError>)
    ensures
        o.key is Some <==> r is Ok,
        r matches Ok(k) ==> k@ == o.key->Some_0@,
        r matches Err(e) ==> e is MissingKey,
{
    match &o.key {
        Some(k) => Ok(k.clone()),
        None => Err(OpError::MissingKey),
    }
}

} // verus!
