//! Full inspection of a candidate file: parse it and extract its identity.
//!
//! The binary-format parser itself is an external collaborator; this module
//! consumes it as a black box that turns raw bytes into a format tag, an
//! optional raw identifier string, a has-debug-info flag and the debug
//! signature, and derives a `FileInfo` from those plain values.  Every one
//! of the parser's verdicts is a function of the bytes alone, so each
//! carries a name, and the inspection contract pins the result for every
//! input: a file the parser rejects, or one missing the identifier its
//! format requires, yields no identity — that is a skip, never an error —
//! and every other file yields exactly the identity that the derivation
//! rules below assign.

use vstd::prelude::*;

use crate::hexfmt::{
    hex_upper_bytes, push_hex_upper_u32, spec_hex_upper_bytes, spec_hex_upper_u32,
};
use crate::symstore::{FileInfo, FileType, ResourceType};

verus! {

/// The format the parser recognizes in these bytes: `None` when parsing
/// fails or the recognized format is outside this library's scope.
pub uninterp spec fn spec_parsed_format(data: Seq<u8>) -> Option<FileType>;

/// The code identifier the parser extracts from these bytes, rendered its
/// canonical way (e.g. lowercase hex for an ELF build id), if the object
/// carries one.
pub uninterp spec fn spec_parsed_code_id(data: Seq<u8>) -> Option<Seq<char>>;

/// Whether the parser finds debug information in these bytes.
pub uninterp spec fn spec_parsed_has_debug_info(data: Seq<u8>) -> bool;

/// The 16 bytes of the debug signature the parser extracts from these
/// bytes.
pub uninterp spec fn spec_parsed_debug_sig(data: Seq<u8>) -> Seq<u8>;

/// The age of the debug identifier the parser extracts from these bytes.
pub uninterp spec fn spec_parsed_debug_age(data: Seq<u8>) -> u32;

/// What one full parse of a candidate's bytes reports, as plain values.
#[derive(Debug)]
pub struct ParseOutcome {
    pub format: FileType,
    pub code_id: Option<String>,
    pub has_debug_info: bool,
    pub debug_sig: Vec<u8>,
    pub debug_age: u32,
}

/// Relies on `symbolic_debuginfo::Object::parse` and its accessors
/// `file_format`, `code_id` (with `CodeId`'s string form), `has_debug_info`
/// and `debug_id` (`DebugId::uuid` is built from the 16 identifier bytes,
/// `DebugId::appendix` is the age).  All of them depend on the parsed bytes
/// alone, so their verdicts are the named results above.  Bytes the parser
/// rejects, and formats outside this library's scope, come back as `None`.
#[verifier::external_body]
fn parse_summary(data: &[u8]) -> (res: Option<ParseOutcome>)
    ensures
        (res is Some) == (spec_parsed_format(data@) is Some),
        res matches Some(o) ==> {
            &&& spec_parsed_format(data@) == Some(o.format)
            &&& (o.code_id is Some) == (spec_parsed_code_id(data@) is Some)
            &&& (o.code_id matches Some(s) ==> spec_parsed_code_id(data@) == Some(s@))
            &&& o.has_debug_info == spec_parsed_has_debug_info(data@)
            &&& o.debug_sig@ == spec_parsed_debug_sig(data@)
            &&& o.debug_sig@.len() == 16
            &&& o.debug_age == spec_parsed_debug_age(data@)
        },
{
    let obj = symbolic_debuginfo::Object::parse(data).ok()?;
    let format = match obj.file_format() {
        symbolic_debuginfo::FileFormat::Elf => FileType::Elf,
        symbolic_debuginfo::FileFormat::Pe => FileType::Pe,
        symbolic_debuginfo::FileFormat::Pdb => FileType::Pdb,
        symbolic_debuginfo::FileFormat::MachO => FileType::MachO,
        _ => return None,
    };
    let id = obj.debug_id();
    let code_id = obj.code_id().map(|c| c.to_string());
    let has_debug_info = obj.has_debug_info();
    let debug_sig = id.uuid().into_bytes().to_vec();
    Some(ParseOutcome { format, code_id, has_debug_info, debug_sig, debug_age: id.appendix() })
}

/// The fields an identity must hold.
pub open spec fn spec_info_is(
    info: FileInfo,
    path: Seq<char>,
    file_type: FileType,
    file_size: int,
    identifier: Seq<char>,
    resource_type: ResourceType,
) -> bool {
    &&& info.path@ == path
    &&& info.file_type == file_type
    &&& info.file_size == file_size
    &&& info.identifier@ == identifier
    &&& info.resource_type == resource_type
}

/// Which resource a format's file stands for: a PE is always the
/// executable, a PDB always the debug information, and for ELF and Mach-O
/// the embedded debug information decides.
pub open spec fn spec_resource_type(format: FileType, has_debug_info: bool) -> ResourceType {
    match format {
        FileType::Pe => ResourceType::Executable,
        FileType::Pdb => ResourceType::DebugInfo,
        _ => if has_debug_info {
            ResourceType::DebugInfo
        } else {
            ResourceType::Executable
        },
    }
}

/// The identity a parse outcome derives to: a PDB's identifier is built
/// from signature and age, every other format needs a non-empty code
/// identifier or yields no identity.
pub open spec fn spec_outcome_identity(
    path: Seq<char>,
    file_size: int,
    outcome: ParseOutcome,
    res: Option<FileInfo>,
) -> bool {
    match outcome.format {
        FileType::Pdb => res matches Some(info) && spec_info_is(
            info,
            path,
            FileType::Pdb,
            file_size,
            spec_hex_upper_bytes(outcome.debug_sig@) + spec_hex_upper_u32(
                outcome.debug_age as nat,
            ),
            ResourceType::DebugInfo,
        ),
        _ => match outcome.code_id {
            Some(id) => if id@.len() > 0 {
                res matches Some(info) && spec_info_is(
                    info,
                    path,
                    outcome.format,
                    file_size,
                    id@,
                    spec_resource_type(outcome.format, outcome.has_debug_info),
                )
            } else {
                res is None
            },
            None => res is None,
        },
    }
}

/// The identity that inspecting these bytes under this path must yield:
/// none when the parser rejects them or the format-required identifier is
/// absent or empty, and exactly the derived identity otherwise.
pub open spec fn spec_identity_is(path: Seq<char>, data: Seq<u8>, res: Option<FileInfo>) -> bool {
    match spec_parsed_format(data) {
        None => res is None,
        Some(format) => match format {
            FileType::Pdb => res matches Some(info) && spec_info_is(
                info,
                path,
                FileType::Pdb,
                data.len() as int,
                spec_hex_upper_bytes(spec_parsed_debug_sig(data)) + spec_hex_upper_u32(
                    spec_parsed_debug_age(data) as nat,
                ),
                ResourceType::DebugInfo,
            ),
            _ => match spec_parsed_code_id(data) {
                Some(id) => if id.len() > 0 {
                    res matches Some(info) && spec_info_is(
                        info,
                        path,
                        format,
                        data.len() as int,
                        id,
                        spec_resource_type(format, spec_parsed_has_debug_info(data)),
                    )
                } else {
                    res is None
                },
                None => res is None,
            },
        },
    }
}

/// Identity of a PE file: always the executable, keyed by its code id; a
/// missing or empty code id yields no identity.
pub fn pe_to_info(path: &str, file_size: usize, code_id: Option<String>) -> (res: Option<
    FileInfo,
>)
    ensures
        res is Some <==> (code_id matches Some(id) && id@.len() > 0),
        res matches Some(info) ==> spec_info_is(
            info,
            path@,
            FileType::Pe,
            file_size as int,
            code_id->Some_0@,
            ResourceType::Executable,
        ),
{
    match code_id {
        Some(id) => {
            if id.as_str().is_empty() {
                None
            } else {
                Some(
                    FileInfo {
                        path: path.to_owned(),
                        file_type: FileType::Pe,
                        file_size,
                        identifier: id,
                        resource_type: ResourceType::Executable,
                    },
                )
            }
        },
        None => None,
    }
}

/// Identity of a PDB file: always debug information, keyed by the debug
/// signature as 32 fixed-width uppercase hex digits immediately followed by
/// the age as minimal-width uppercase hex, no separator.
pub fn pdb_to_info(path: &str, file_size: usize, signature: &[u8], age: u32) -> (res: FileInfo)
    ensures
        spec_info_is(
            res,
            path@,
            FileType::Pdb,
            file_size as int,
            spec_hex_upper_bytes(signature@) + spec_hex_upper_u32(age as nat),
            ResourceType::DebugInfo,
        ),
{
    let mut identifier = hex_upper_bytes(signature);
    push_hex_upper_u32(&mut identifier, age);
    FileInfo {
        path: path.to_owned(),
        file_type: FileType::Pdb,
        file_size,
        identifier,
        resource_type: ResourceType::DebugInfo,
    }
}

/// Identity of an ELF file: keyed by its build id (lowercase hex, as the
/// parser renders it); debug information when the object carries a debug
/// section, else the executable.  A missing or empty build id yields no
/// identity.
pub fn elf_to_info(
    path: &str,
    file_size: usize,
    code_id: Option<String>,
    has_debug_info: bool,
) -> (res: Option<FileInfo>)
    ensures
        res is Some <==> (code_id matches Some(id) && id@.len() > 0),
        res matches Some(info) ==> spec_info_is(
            info,
            path@,
            FileType::Elf,
            file_size as int,
            code_id->Some_0@,
            if has_debug_info {
                ResourceType::DebugInfo
            } else {
                ResourceType::Executable
            },
        ),
{
    match code_id {
        Some(id) => {
            if id.as_str().is_empty() {
                None
            } else {
                Some(
                    FileInfo {
                        path: path.to_owned(),
                        file_type: FileType::Elf,
                        file_size,
                        identifier: id,
                        resource_type: if has_debug_info {
                            ResourceType::DebugInfo
                        } else {
                            ResourceType::Executable
                        },
                    },
                )
            }
        },
        None => None,
    }
}

/// Identity of a Mach-O file: keyed by its UUID (as the parser renders it);
/// debug information when the object carries DWARF data, else the
/// executable.  A missing or empty UUID yields no identity.
pub fn macho_to_info(
    path: &str,
    file_size: usize,
    code_id: Option<String>,
    has_debug_info: bool,
) -> (res: Option<FileInfo>)
    ensures
        res is Some <==> (code_id matches Some(id) && id@.len() > 0),
        res matches Some(info) ==> spec_info_is(
            info,
            path@,
            FileType::MachO,
            file_size as int,
            code_id->Some_0@,
            if has_debug_info {
                ResourceType::DebugInfo
            } else {
                ResourceType::Executable
            },
        ),
{
    match code_id {
        Some(id) => {
            if id.as_str().is_empty() {
                None
            } else {
                Some(
                    FileInfo {
                        path: path.to_owned(),
                        file_type: FileType::MachO,
                        file_size,
                        identifier: id,
                        resource_type: if has_debug_info {
                            ResourceType::DebugInfo
                        } else {
                            ResourceType::Executable
                        },
                    },
                )
            }
        },
        None => None,
    }
}

/// Derive the identity a parse outcome stands for: PDB identifiers from
/// signature and age, the other formats from their non-empty code
/// identifier, nothing otherwise.
pub fn object_to_info(path: &str, file_size: usize, parsed: &ParseOutcome) -> (res: Option<
    FileInfo,
>)
    ensures
        spec_outcome_identity(path@, file_size as int, *parsed, res),
        res matches Some(info) ==> info.wf() && info.path@ == path@ && info.file_size
            == file_size,
{
    let code_id: Option<String> = match &parsed.code_id {
        Some(id) => Some(id.clone()),
        None => None,
    };
    proof {
        assert(code_id == parsed.code_id);
    }
    match parsed.format {
        FileType::Pe => pe_to_info(path, file_size, code_id),
        FileType::Pdb => {
            let info = pdb_to_info(path, file_size, parsed.debug_sig.as_slice(), parsed.debug_age);
            proof {
                assert(spec_hex_upper_u32(parsed.debug_age as nat).len() >= 1);
            }
            Some(info)
        },
        FileType::Elf => elf_to_info(path, file_size, code_id, parsed.has_debug_info),
        FileType::MachO => macho_to_info(path, file_size, code_id, parsed.has_debug_info),
    }
}

/// Inspect one candidate: parse the complete file content and derive its
/// identity.  Content the parser rejects, or whose format-required
/// identifier is absent or empty, yields no identity; everything else
/// yields exactly the derived identity, well formed, under this path and
/// the content's length.
pub fn file_to_info(path: &str, data: &[u8]) -> (res: Option<FileInfo>)
    ensures
        spec_identity_is(path@, data@, res),
        res matches Some(info) ==> info.wf() && info.path@ == path@ && info.file_size
            == data@.len(),
{
    match parse_summary(data) {
        Some(outcome) => object_to_info(path, data.len(), &outcome),
        None => None,
    }
}

} // verus!
