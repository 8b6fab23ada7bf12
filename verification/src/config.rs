//! Configuration data model: storage backends and their access rights.
//!
//! These are plain values; reading them from a configuration file on disk is
//! the application shell's business.  Exactly one writable server is resolved
//! per run before publishing begins.

use vstd::prelude::*;

verus! {

/// Whole-program configuration: an optional cache directory and the list of
/// configured remote storages.
pub struct Config {
    pub cache_dir: Option<String>,
    pub servers: Vec<RemoteStorage>,
}

/// An S3 object-store destination.
pub struct S3Config {
    pub bucket: String,
    pub prefix: String,
    pub region: String,
    pub profile: Option<String>,
}

/// A B2 object-store destination (S3-compatible, with its own endpoint and
/// credential lookup).
pub struct B2Config {
    pub bucket: String,
    pub prefix: String,
    pub endpoint: String,
    pub account_id: Option<String>,
}

/// A remote symbol-hosting API destination.
pub struct SymbolServerConfig {
    pub project: String,
    pub url: Option<String>,
}

/// A plain HTTP server (download only; uploads to it are not supported).
pub struct HttpConfig {
    pub url: String,
}

/// A local filesystem mirror destination.
pub struct PathConfig {
    pub path: String,
}

/// What a configured server may be used for.
#[derive(Clone, Copy, PartialEq, Eq, Debug, Structural)]
pub enum RemoteStorageAccess {
    Read,
    ReadWrite,
}

/// One configured server: its access rights, an optional name to select it
/// by, and its transport.
pub struct RemoteStorage {
    pub access: RemoteStorageAccess,
    pub name: Option<String>,
    pub storage_type: RemoteStorageType,
}

/// The transport of a configured server.
pub enum RemoteStorageType {
    Http(HttpConfig),
    S3(S3Config),
    B2(B2Config),
    SymbolServer(SymbolServerConfig),
    Path(PathConfig),
}

/// The servers assumed when no configuration file names any: one public
/// debuginfod server, readable but not writable.
pub fn default_servers() -> (res: Vec<RemoteStorage>)
    ensures
        res@.len() == 1,
        res@[0].access == RemoteStorageAccess::Read,
        res@[0].name is None,
        res@[0].storage_type matches RemoteStorageType::Http(c) && c.url@
            == "https://debuginfod.elfutils.org/"@,
{
    let server = RemoteStorage {
        access: RemoteStorageAccess::Read,
        name: None,
        storage_type: RemoteStorageType::Http(
            HttpConfig { url: String::from_str("https://debuginfod.elfutils.org/") },
        ),
    };
    let mut servers: Vec<RemoteStorage> = Vec::new();
    servers.push(server);
    servers
}

} // verus!
