//! Idempotent publishing of deduplicated entries to one backend.
//!
//! Publishing alternates outside work (existence queries, uploads, the
//! three-phase remote-API protocol) with decisions.  The decisions live
//! here, as a per-entry state machine: `EntryRun::step` consumes the outcome
//! of the previous outside action and names the next one.  The driver that
//! actually performs the actions is the application shell's business.
//!
//! Two guarantees shape every backend: a dry run never names a mutating
//! action, and an entry whose destination key already exists is skipped,
//! never rewritten.

use vstd::prelude::*;

use crate::config::{PathConfig, RemoteStorageType};
use crate::dedup::PublishEntry;
use crate::digest::{sha256_digest, spec_sha256};
use crate::hexfmt::{hex_upper_bytes, spec_hex_upper_bytes};
use crate::pathname::{file_name, spec_file_name};
use crate::symstore::{FileInfo, FileType, ResourceType, spec_key};

verus! {

/// The publish-relevant shape of the selected backend.
#[derive(Clone, Debug)]
pub enum Backend {
    /// An object store: existence checks and streamed puts, addressed by
    /// prefix + key.
    ObjectStore { bucket: String, prefix: String },
    /// A local filesystem mirror: plain copies into `dest_dir / key`,
    /// idempotent by construction, so no existence check.
    LocalPath { dest_dir: String },
    /// A remote symbol-hosting API: existence check, then the three-phase
    /// create / put / finish protocol.
    RemoteApi { base_url: String, project: String },
}

/// Metadata of the remote-API "create" and "finish" requests.
#[derive(Debug)]
pub struct UploadRequest {
    pub file_type: FileType,
    pub file_size: usize,
    pub file_name: String,
    pub identifier: String,
    pub resource_type: ResourceType,
    pub sha256: String,
}

impl UploadRequest {
    /// An equal copy of this request.
    pub fn duplicate(&self) -> (res: UploadRequest)
        ensures
            res == *self,
    {
        UploadRequest {
            file_type: self.file_type,
            file_size: self.file_size,
            file_name: self.file_name.clone(),
            identifier: self.identifier.clone(),
            resource_type: self.resource_type,
            sha256: self.sha256.clone(),
        }
    }
}

/// Where one entry stands in its publish protocol.
#[derive(Clone, Copy, PartialEq, Eq, Debug, Structural)]
pub enum Phase {
    Ready,
    Announced,
    Checking,
    Writing,
    Creating,
    Putting,
    Finishing,
    Complete,
}

/// The outcome of the previous outside action, handed back by the driver.
pub enum PublishEvent {
    /// Begin the entry.
    Start,
    /// The announcement line was logged.
    Announced,
    /// The existence query answered.
    ExistsResult(bool),
    /// The store write or local copy finished (or failed).
    WriteResult(bool),
    /// The remote-API "create" call answered with a signed upload URL, or
    /// failed.
    CreateResult(Option<String>),
    /// The PUT of the file bytes to the signed URL finished (or failed).
    PutResult(bool),
    /// The remote-API "finish" call finished (or failed).
    FinishResult(bool),
}

/// The next outside action the driver must perform, or how the entry ended.
pub enum PublishStep {
    /// Log this announcement line (dry and live runs log the same line).
    Announce(String),
    /// Query, read-only, whether this destination key exists.
    CheckExists(String),
    /// Write the file content under this destination key.
    Write(String),
    /// POST the "create" request with this metadata.
    ApiCreate(UploadRequest),
    /// PUT the raw file bytes to this signed URL.
    ApiPut(String),
    /// POST the "finish" request with this metadata.
    ApiFinish(UploadRequest),
    /// Terminal: the key already exists; log this line, write nothing.
    SkipExists(String),
    /// Terminal: an outside action failed; log this line, continue the run.
    Failed(String),
    /// Terminal: the entry completed.
    Done,
}

/// Whether a step mutates the backend.  Only these four write anywhere;
/// everything else is logging or a read-only query.
pub open spec fn spec_mutating(act: PublishStep) -> bool {
    match act {
        PublishStep::Write(_) => true,
        PublishStep::ApiCreate(_) => true,
        PublishStep::ApiPut(_) => true,
        PublishStep::ApiFinish(_) => true,
        _ => false,
    }
}

/// The full destination key of an entry on a backend.
pub open spec fn spec_full_key(backend: Backend, key: Seq<char>) -> Seq<char> {
    match backend {
        Backend::ObjectStore { bucket: _, prefix } => prefix@ + key,
        Backend::LocalPath { dest_dir } => dest_dir@ + "/"@ + key,
        Backend::RemoteApi { base_url: _, project: _ } => key,
    }
}

/// The announcement line of an entry, identical for dry and live runs.
pub open spec fn spec_announce_message(backend: Backend, entry: PublishEntry) -> Seq<char> {
    match backend {
        Backend::ObjectStore { bucket, prefix } => "uploading '"@ + entry.info.path@
            + "' to bucket '"@ + bucket@ + "' with key '"@ + prefix@ + entry.key@ + "'"@,
        Backend::LocalPath { dest_dir } => "Copying '"@ + entry.info.path@ + "' to '"@ + dest_dir@
            + "/"@ + entry.key@ + "'"@,
        Backend::RemoteApi { base_url: _, project: _ } => "uploading '"@ + entry.info.path@
            + "' to symbol server with key '"@ + entry.key@ + "'"@,
    }
}

/// The line logged when the destination key already exists.
pub open spec fn spec_skip_message(backend: Backend, key: Seq<char>) -> Seq<char> {
    "skipped, already exists: '"@ + spec_full_key(backend, key) + "'"@
}

/// The line logged when an outside action failed for an entry.
pub open spec fn spec_fail_message(entry: PublishEntry) -> Seq<char> {
    "failed to publish '"@ + entry.info.path@ + "'"@
}

/// One entry's journey through its publish protocol.
pub struct EntryRun {
    pub backend: Backend,
    pub entry: PublishEntry,
    pub request: Option<UploadRequest>,
    pub dry_run: bool,
    pub phase: Phase,
}

impl EntryRun {
    /// The entry's key is the one derived from its identity, phases fit
    /// the backend, a remote-API run carries its request, and a dry run
    /// never gets past announcing.
    pub open spec fn wf(self) -> bool {
        &&& self.entry.wf()
        &&& (self.backend matches Backend::RemoteApi { .. } ==> self.request is Some)
        &&& (self.dry_run ==> self.phase == Phase::Ready || self.phase == Phase::Announced
            || self.phase == Phase::Complete)
        &&& (self.phase == Phase::Writing ==> !(self.backend matches Backend::RemoteApi { .. }))
        &&& (self.phase == Phase::Checking ==> !(self.backend matches Backend::LocalPath { .. }))
        &&& ((self.phase == Phase::Creating || self.phase == Phase::Putting || self.phase
            == Phase::Finishing) ==> self.backend matches Backend::RemoteApi { .. })
    }

    /// Which event the protocol expects in this phase; a completed entry
    /// expects none.
    pub open spec fn event_fits(self, event: PublishEvent) -> bool {
        match self.phase {
            Phase::Ready => event is Start,
            Phase::Announced => event is Announced,
            Phase::Checking => event is ExistsResult,
            Phase::Writing => event is WriteResult,
            Phase::Creating => event is CreateResult,
            Phase::Putting => event is PutResult,
            Phase::Finishing => event is FinishResult,
            Phase::Complete => false,
        }
    }

    /// The phase after consuming an event.
    pub open spec fn spec_next_phase(self, event: PublishEvent) -> Phase {
        match self.phase {
            Phase::Ready => Phase::Announced,
            Phase::Announced => if self.dry_run {
                Phase::Complete
            } else {
                match self.backend {
                    Backend::LocalPath { .. } => Phase::Writing,
                    _ => Phase::Checking,
                }
            },
            Phase::Checking => if event matches PublishEvent::ExistsResult(e) && e {
                Phase::Complete
            } else {
                match self.backend {
                    Backend::RemoteApi { .. } => Phase::Creating,
                    _ => Phase::Writing,
                }
            },
            Phase::Writing => Phase::Complete,
            Phase::Creating => if event matches PublishEvent::CreateResult(u) && u is Some {
                Phase::Putting
            } else {
                Phase::Complete
            },
            Phase::Putting => if event matches PublishEvent::PutResult(ok) && ok {
                Phase::Finishing
            } else {
                Phase::Complete
            },
            Phase::Finishing => Phase::Complete,
            Phase::Complete => Phase::Complete,
        }
    }

    /// The action that consuming an event must produce.
    pub open spec fn spec_action_ok(self, event: PublishEvent, act: PublishStep) -> bool {
        match self.phase {
            Phase::Ready => act matches PublishStep::Announce(m) && m@ == spec_announce_message(
                self.backend,
                self.entry,
            ),
            Phase::Announced => if self.dry_run {
                act is Done
            } else {
                match self.backend {
                    Backend::LocalPath { .. } => act matches PublishStep::Write(k) && k@
                        == spec_full_key(self.backend, self.entry.key@),
                    Backend::ObjectStore { .. } => act matches PublishStep::CheckExists(k) && k@
                        == spec_full_key(self.backend, self.entry.key@),
                    Backend::RemoteApi { .. } => act matches PublishStep::CheckExists(k) && k@
                        == self.entry.key@,
                }
            },
            Phase::Checking => if event matches PublishEvent::ExistsResult(e) && e {
                act matches PublishStep::SkipExists(m) && m@ == spec_skip_message(
                    self.backend,
                    self.entry.key@,
                )
            } else {
                match self.backend {
                    Backend::RemoteApi { .. } => self.request matches Some(req) && act matches
                        PublishStep::ApiCreate(r) && r == req,
                    _ => act matches PublishStep::Write(k) && k@ == spec_full_key(
                        self.backend,
                        self.entry.key@,
                    ),
                }
            },
            Phase::Writing => if event matches PublishEvent::WriteResult(ok) && ok {
                act is Done
            } else {
                act matches PublishStep::Failed(m) && m@ == spec_fail_message(self.entry)
            },
            Phase::Creating => match event {
                PublishEvent::CreateResult(u) => match u {
                    Some(signed) => act matches PublishStep::ApiPut(url) && url@ == signed@,
                    None => act matches PublishStep::Failed(m) && m@ == spec_fail_message(
                        self.entry,
                    ),
                },
                _ => false,
            },
            Phase::Putting => if event matches PublishEvent::PutResult(ok) && ok {
                self.request matches Some(req) && act matches PublishStep::ApiFinish(r) && r
                    == req
            } else {
                act matches PublishStep::Failed(m) && m@ == spec_fail_message(self.entry)
            },
            Phase::Finishing => if event matches PublishEvent::FinishResult(ok) && ok {
                act is Done
            } else {
                act matches PublishStep::Failed(m) && m@ == spec_fail_message(self.entry)
            },
            Phase::Complete => false,
        }
    }

    /// A fresh run for one entry, ready to start.  The entry must carry
    /// the key derived from its identity: the protocol publishes under no
    /// other.
    pub fn new(
        backend: Backend,
        entry: PublishEntry,
        request: Option<UploadRequest>,
        dry_run: bool,
    ) -> (res: EntryRun)
        requires
            entry.wf(),
            backend matches Backend::RemoteApi { .. } ==> request is Some,
        ensures
            res.backend == backend,
            res.entry == entry,
            res.request == request,
            res.dry_run == dry_run,
            res.phase == Phase::Ready,
            res.wf(),
    {
        EntryRun { backend, entry, request, dry_run, phase: Phase::Ready }
    }

    /// Whether the backend is the local filesystem mirror.
    fn backend_is_local(&self) -> (res: bool)
        ensures
            res == (self.backend matches Backend::LocalPath { .. }),
    {
        match &self.backend {
            Backend::LocalPath { .. } => true,
            _ => false,
        }
    }

    /// Whether the backend is the remote symbol-hosting API.
    fn backend_is_remote_api(&self) -> (res: bool)
        ensures
            res == (self.backend matches Backend::RemoteApi { .. }),
    {
        match &self.backend {
            Backend::RemoteApi { .. } => true,
            _ => false,
        }
    }

    /// The full destination key of this entry on this backend.
    pub fn full_key(&self) -> (res: String)
        ensures
            res@ == spec_full_key(self.backend, self.entry.key@),
    {
        let mut s = String::new();
        match &self.backend {
            Backend::ObjectStore { bucket: _, prefix } => {
                s.append(prefix.as_str());
                s.append(self.entry.key.as_str());
            },
            Backend::LocalPath { dest_dir } => {
                s.append(dest_dir.as_str());
                s.append("/");
                s.append(self.entry.key.as_str());
            },
            Backend::RemoteApi { .. } => {
                s.append(self.entry.key.as_str());
            },
        }
        s
    }

    /// The announcement line for this entry.
    pub fn announce_message(&self) -> (res: String)
        ensures
            res@ == spec_announce_message(self.backend, self.entry),
    {
        let mut s = String::new();
        match &self.backend {
            Backend::ObjectStore { bucket, prefix } => {
                s.append("uploading '");
                s.append(self.entry.info.path.as_str());
                s.append("' to bucket '");
                s.append(bucket.as_str());
                s.append("' with key '");
                s.append(prefix.as_str());
                s.append(self.entry.key.as_str());
                s.append("'");
            },
            Backend::LocalPath { dest_dir } => {
                s.append("Copying '");
                s.append(self.entry.info.path.as_str());
                s.append("' to '");
                s.append(dest_dir.as_str());
                s.append("/");
                s.append(self.entry.key.as_str());
                s.append("'");
            },
            Backend::RemoteApi { .. } => {
                s.append("uploading '");
                s.append(self.entry.info.path.as_str());
                s.append("' to symbol server with key '");
                s.append(self.entry.key.as_str());
                s.append("'");
            },
        }
        s
    }

    /// The skip line for this entry.
    fn skip_message(&self) -> (res: String)
        ensures
            res@ == spec_skip_message(self.backend, self.entry.key@),
    {
        let mut s = String::new();
        s.append("skipped, already exists: '");
        let key = self.full_key();
        s.append(key.as_str());
        s.append("'");
        s
    }

    /// The failure line for this entry.
    fn fail_message(&self) -> (res: String)
        ensures
            res@ == spec_fail_message(self.entry),
    {
        let mut s = String::new();
        s.append("failed to publish '");
        s.append(self.entry.info.path.as_str());
        s.append("'");
        s
    }

    /// Consume the outcome of the previous action and name the next one.
    ///
    /// Beyond following the protocol exactly, every step keeps two promises:
    /// a dry run never names a mutating action, and an existence query that
    /// answered "present" ends the entry with a skip, never a write.
    pub fn step(&mut self, event: PublishEvent) -> (act: PublishStep)
        requires
            old(self).wf(),
            old(self).event_fits(event),
        ensures
            final(self).backend == old(self).backend,
            final(self).entry == old(self).entry,
            final(self).request == old(self).request,
            final(self).dry_run == old(self).dry_run,
            final(self).phase == old(self).spec_next_phase(event),
            final(self).wf(),
            old(self).spec_action_ok(event, act),
            old(self).dry_run ==> !spec_mutating(act),
            (event matches PublishEvent::ExistsResult(e) && e) ==> (act matches
                PublishStep::SkipExists(_) && final(self).phase == Phase::Complete),
    {
        match self.phase {
            Phase::Ready => {
                let msg = self.announce_message();
                self.phase = Phase::Announced;
                PublishStep::Announce(msg)
            },
            Phase::Announced => {
                if self.dry_run {
                    self.phase = Phase::Complete;
                    PublishStep::Done
                } else if self.backend_is_local() {
                    let key = self.full_key();
                    self.phase = Phase::Writing;
                    PublishStep::Write(key)
                } else if self.backend_is_remote_api() {
                    let key = self.entry.key.clone();
                    self.phase = Phase::Checking;
                    PublishStep::CheckExists(key)
                } else {
                    let key = self.full_key();
                    self.phase = Phase::Checking;
                    PublishStep::CheckExists(key)
                }
            },
            Phase::Checking => {
                match event {
                    PublishEvent::ExistsResult(true) => {
                        let msg = self.skip_message();
                        self.phase = Phase::Complete;
                        PublishStep::SkipExists(msg)
                    },
                    PublishEvent::ExistsResult(false) => {
                        if self.backend_is_remote_api() {
                            let req = match &self.request {
                                Some(r) => r.duplicate(),
                                None => {
                                    proof {
                                        assert(false);
                                    }
                                    // never reached: a remote-API run
                                    // carries its request
                                    UploadRequest {
                                        file_type: FileType::Elf,
                                        file_size: 0,
                                        file_name: String::new(),
                                        identifier: String::new(),
                                        resource_type: ResourceType::Executable,
                                        sha256: String::new(),
                                    }
                                },
                            };
                            self.phase = Phase::Creating;
                            PublishStep::ApiCreate(req)
                        } else {
                            let key = self.full_key();
                            self.phase = Phase::Writing;
                            PublishStep::Write(key)
                        }
                    },
                    _ => {
                        proof {
                            assert(false);
                        }
                        PublishStep::Done
                    },
                }
            },
            Phase::Writing => {
                match event {
                    PublishEvent::WriteResult(true) => {
                        self.phase = Phase::Complete;
                        PublishStep::Done
                    },
                    PublishEvent::WriteResult(false) => {
                        let msg = self.fail_message();
                        self.phase = Phase::Complete;
                        PublishStep::Failed(msg)
                    },
                    _ => {
                        proof {
                            assert(false);
                        }
                        PublishStep::Done
                    },
                }
            },
            Phase::Creating => {
                match event {
                    PublishEvent::CreateResult(Some(url)) => {
                        self.phase = Phase::Putting;
                        PublishStep::ApiPut(url)
                    },
                    PublishEvent::CreateResult(None) => {
                        let msg = self.fail_message();
                        self.phase = Phase::Complete;
                        PublishStep::Failed(msg)
                    },
                    _ => {
                        proof {
                            assert(false);
                        }
                        PublishStep::Done
                    },
                }
            },
            Phase::Putting => {
                match event {
                    PublishEvent::PutResult(true) => {
                        let req = match &self.request {
                            Some(r) => r.duplicate(),
                            None => {
                                proof {
                                    assert(false);
                                }
                                // never reached: a remote-API run carries
                                // its request
                                UploadRequest {
                                    file_type: FileType::Elf,
                                    file_size: 0,
                                    file_name: String::new(),
                                    identifier: String::new(),
                                    resource_type: ResourceType::Executable,
                                    sha256: String::new(),
                                }
                            },
                        };
                        self.phase = Phase::Finishing;
                        PublishStep::ApiFinish(req)
                    },
                    PublishEvent::PutResult(false) => {
                        let msg = self.fail_message();
                        self.phase = Phase::Complete;
                        PublishStep::Failed(msg)
                    },
                    _ => {
                        proof {
                            assert(false);
                        }
                        PublishStep::Done
                    },
                }
            },
            Phase::Finishing => {
                match event {
                    PublishEvent::FinishResult(true) => {
                        self.phase = Phase::Complete;
                        PublishStep::Done
                    },
                    PublishEvent::FinishResult(false) => {
                        let msg = self.fail_message();
                        self.phase = Phase::Complete;
                        PublishStep::Failed(msg)
                    },
                    _ => {
                        proof {
                            assert(false);
                        }
                        PublishStep::Done
                    },
                }
            },
            Phase::Complete => {
                proof {
                    assert(false);
                }
                PublishStep::Done
            },
        }
    }
}

/// A dry run is a no-op: from any well-formed state of a dry-run entry,
/// whatever event fits, the action the protocol allows is never a mutating
/// one.  Together with `step` preserving well-formedness, no trace of a
/// dry run ever writes.
pub proof fn lemma_dry_run_no_mutation(run: EntryRun, event: PublishEvent, act: PublishStep)
    requires
        run.wf(),
        run.dry_run,
        run.event_fits(event),
        run.spec_action_ok(event, act),
    ensures
        !spec_mutating(act),
{
}

/// An entry is never published under a key other than the one derived
/// from its identity: whatever event fits a well-formed state, any write
/// action the protocol allows carries the backend's full key of exactly
/// `spec_key` of the entry's identity.
pub proof fn lemma_write_key_is_derived(run: EntryRun, event: PublishEvent, act: PublishStep)
    requires
        run.wf(),
        run.event_fits(event),
        run.spec_action_ok(event, act),
    ensures
        act matches PublishStep::Write(k) ==> k@ == spec_full_key(
            run.backend,
            spec_key(run.entry.info),
        ),
{
}

/// Skip if exists: when the existence query answers "present", the protocol
/// allows only a skip — never the write path — and the entry is complete.
pub proof fn lemma_skip_if_exists(run: EntryRun, act: PublishStep)
    requires
        run.wf(),
        run.event_fits(PublishEvent::ExistsResult(true)),
        run.spec_action_ok(PublishEvent::ExistsResult(true), act),
    ensures
        act matches PublishStep::SkipExists(_),
        !spec_mutating(act),
        run.spec_next_phase(PublishEvent::ExistsResult(true)) == Phase::Complete,
{
}

/// The publish-relevant shape of a configured transport, if uploads to it
/// are supported.  Plain HTTP servers take no uploads.
pub fn backend_of(storage: &RemoteStorageType) -> (res: Option<Backend>)
    ensures
        res is None <==> storage matches RemoteStorageType::Http(_),
        storage matches RemoteStorageType::S3(c) ==> res matches Some(b) && b matches
            Backend::ObjectStore { bucket, prefix } && bucket@ == c.bucket@ && prefix@
            == c.prefix@,
        storage matches RemoteStorageType::B2(c) ==> res matches Some(b) && b matches
            Backend::ObjectStore { bucket, prefix } && bucket@ == c.bucket@ && prefix@
            == c.prefix@,
        storage matches RemoteStorageType::SymbolServer(c) ==> res matches Some(b) && b matches
            Backend::RemoteApi { base_url, project } && project@ == c.project@ && (match c.url {
            Some(u) => base_url@ == u@,
            None => base_url@ == "https://api.symbolserver.com"@,
        }),
        storage matches RemoteStorageType::Path(c) ==> res matches Some(b) && b matches
            Backend::LocalPath { dest_dir } && dest_dir@ == c.path@,
{
    match storage {
        RemoteStorageType::Http(_) => None,
        RemoteStorageType::S3(c) => Some(
            Backend::ObjectStore { bucket: c.bucket.clone(), prefix: c.prefix.clone() },
        ),
        RemoteStorageType::B2(c) => Some(
            Backend::ObjectStore { bucket: c.bucket.clone(), prefix: c.prefix.clone() },
        ),
        RemoteStorageType::SymbolServer(c) => {
            let base_url = match &c.url {
                Some(u) => u.clone(),
                None => String::from_str("https://api.symbolserver.com"),
            };
            Some(Backend::RemoteApi { base_url, project: c.project.clone() })
        },
        RemoteStorageType::Path(c) => Some(Backend::LocalPath { dest_dir: c.path.clone() }),
    }
}

/// Build the remote-API request metadata for one identity and its file
/// content: the identity's fields, the file name, and the uppercase-hex
/// SHA-256 of the content.
pub fn make_upload_request(info: &FileInfo, data: &[u8]) -> (res: UploadRequest)
    ensures
        res.file_type == info.file_type,
        res.file_size == info.file_size,
        res.file_name@ == spec_file_name(info.path@),
        res.identifier@ == info.identifier@,
        res.resource_type == info.resource_type,
        res.sha256@ == spec_hex_upper_bytes(spec_sha256(data@)),
{
    let digest = sha256_digest(data);
    UploadRequest {
        file_type: info.file_type,
        file_size: info.file_size,
        file_name: file_name(info.path.as_str()),
        identifier: info.identifier.clone(),
        resource_type: info.resource_type,
        sha256: hex_upper_bytes(digest.as_slice()),
    }
}

/// One planned local copy: the source file, the destination path under the
/// mirror directory, the line to log, and whether to perform the copy
/// (never on a dry run).
pub struct CopyAction {
    pub source: String,
    pub dest: String,
    pub message: String,
    pub perform: bool,
}

/// Plan the copies that publish these identities into a local filesystem
/// mirror: one copy per file, to `dest_dir / key`.  On a dry run every copy
/// is withheld, while the log lines stay those of a live run.
pub fn copy_to_folder(config: &PathConfig, files: &Vec<FileInfo>, dryrun: bool) -> (res: Vec<
    CopyAction,
>)
    ensures
        res@.len() == files@.len(),
        forall|i: int|
            0 <= i < files@.len() ==> {
                let f = files@[i];
                let dest = config.path@ + "/"@ + spec_key(f);
                &&& (#[trigger] res@[i]).source@ == f.path@
                &&& res@[i].dest@ == dest
                &&& res@[i].message@ == "Copying '"@ + f.path@ + "' to '"@ + dest + "'"@
                &&& res@[i].perform == !dryrun
            },
{
    let mut res: Vec<CopyAction> = Vec::new();
    let mut i: usize = 0;
    while i < files.len()
        invariant
            0 <= i <= files@.len(),
            res@.len() == i,
            forall|j: int|
                0 <= j < i ==> {
                    let f = files@[j];
                    let dest = config.path@ + "/"@ + spec_key(f);
                    &&& (#[trigger] res@[j]).source@ == f.path@
                    &&& res@[j].dest@ == dest
                    &&& res@[j].message@ == "Copying '"@ + f.path@ + "' to '"@ + dest + "'"@
                    &&& res@[j].perform == !dryrun
                },
        decreases files@.len() - i,
    {
        let file = &files[i];
        let key = file.key();
        let mut dest = String::new();
        dest.append(config.path.as_str());
        dest.append("/");
        dest.append(key.as_str());
        let mut message = String::new();
        message.append("Copying '");
        message.append(file.path.as_str());
        message.append("' to '");
        message.append(dest.as_str());
        message.append("'");
        res.push(
            CopyAction { source: file.path.clone(), dest, message, perform: !dryrun },
        );
        i = i + 1;
    }
    res
}

} // verus!

