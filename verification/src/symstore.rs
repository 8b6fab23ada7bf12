//! Object identities and the symbol-store key layout.
//!
//! A `FileInfo` records what was learned about one object file: its path, its
//! container format, its size, its raw embedded identifier and whether it is
//! the executable itself or its separated debug information.  `FileInfo::key`
//! maps that identity to the canonical relative path under which the file is
//! published, following the symbol-server layout convention.  The exact
//! separators and literal segment names are a wire-level contract with the
//! debuggers that later query the store.

use vstd::prelude::*;

use crate::pathname::{file_name, spec_file_name};

verus! {

/// The container format of an object file.
#[derive(Clone, Copy, PartialEq, Eq, Hash, Debug, Structural)]
pub enum FileType {
    Pe,
    Pdb,
    Elf,
    MachO,
}

/// Whether a file is the linked binary itself or its separated debug data.
#[derive(Clone, Copy, PartialEq, Eq, Hash, Debug, Structural)]
pub enum ResourceType {
    Executable,
    DebugInfo,
}

/// Identity of one inspected object file.
#[derive(Clone, PartialEq, Eq, Hash, Debug)]
pub struct FileInfo {
    pub path: String,
    pub file_type: FileType,
    pub file_size: usize,
    pub identifier: String,
    pub resource_type: ResourceType,
}

/// Failure of the symbol-store layer.
#[derive(Debug)]
pub enum SymStoreErr {
    NotAFile,
    IoErr(String),
}

/// The symbol-store key for an identity, per the layout convention:
///
/// | format | resource type | key |
/// |--------|---------------|-----|
/// | Elf    | DebugInfo     | `buildid/{id}/debuginfo` |
/// | Elf    | Executable    | `buildid/{id}/executable` |
/// | Pe     | any           | `{filename}/{id}/{filename}` |
/// | Pdb    | any           | `{filename}/{id}/{filename}` |
/// | MachO  | Executable    | `{filename}/mach-uuid-{id}/{filename}` |
/// | MachO  | DebugInfo     | `_.dwarf/mach-uuid-sym-{id}/_.dwarf` |
pub open spec fn spec_key(info: FileInfo) -> Seq<char> {
    let id = info.identifier@;
    let fname = spec_file_name(info.path@);
    match info.file_type {
        FileType::Elf => match info.resource_type {
            ResourceType::Executable => "buildid/"@ + id + "/executable"@,
            ResourceType::DebugInfo => "buildid/"@ + id + "/debuginfo"@,
        },
        FileType::MachO => match info.resource_type {
            ResourceType::Executable => fname + "/mach-uuid-"@ + id + "/"@ + fname,
            ResourceType::DebugInfo => "_.dwarf/mach-uuid-sym-"@ + id + "/_.dwarf"@,
        },
        FileType::Pdb | FileType::Pe => fname + "/"@ + id + "/"@ + fname,
    }
}

impl FileInfo {
    /// An identity is well formed when its raw identifier is present,
    /// i.e. non-empty.
    pub open spec fn wf(self) -> bool {
        self.identifier@.len() > 0
    }

    /// Derive the symbol-store key for this identity.
    ///
    /// A pure function of the identity: the same identity always yields the
    /// same key string.
    pub fn key(&self) -> (res: String)
        ensures
            res@ == spec_key(*self),
    {
        let mut s = String::new();
        match self.file_type {
            FileType::Elf => {
                s.append("buildid/");
                s.append(self.identifier.as_str());
                match self.resource_type {
                    ResourceType::Executable => s.append("/executable"),
                    ResourceType::DebugInfo => s.append("/debuginfo"),
                }
            },
            FileType::MachO => {
                match self.resource_type {
                    ResourceType::Executable => {
                        let fname = file_name(self.path.as_str());
                        s.append(fname.as_str());
                        s.append("/mach-uuid-");
                        s.append(self.identifier.as_str());
                        s.append("/");
                        s.append(fname.as_str());
                    },
                    ResourceType::DebugInfo => {
                        s.append("_.dwarf/mach-uuid-sym-");
                        s.append(self.identifier.as_str());
                        s.append("/_.dwarf");
                    },
                }
            },
            FileType::Pdb | FileType::Pe => {
                let fname = file_name(self.path.as_str());
                s.append(fname.as_str());
                s.append("/");
                s.append(self.identifier.as_str());
                s.append("/");
                s.append(fname.as_str());
            },
        }
        s
    }
}

/// Key derivation is idempotent: `key` promises nothing but
/// `spec_key(self)`, a function of the identity alone, so any two
/// derivations from the same identity yield an identical key string.
pub proof fn lemma_key_idempotent(info: FileInfo, first: Seq<char>, second: Seq<char>)
    requires
        first == spec_key(info),
        second == spec_key(info),
    ensures
        first == second,
{
}

} // verus!
