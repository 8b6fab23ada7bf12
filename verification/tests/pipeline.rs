use symbols::dedup::{deduplicate, PublishEntry};
use symbols::inspect::{
    elf_to_info, file_to_info, macho_to_info, object_to_info, pdb_to_info, pe_to_info,
    ParseOutcome,
};
use symbols::sniff::{classify, SNIFF_LEN};
use symbols::symstore::{FileInfo, FileType, ResourceType};

fn with_magic(magic: &[u8]) -> Vec<u8> {
    let mut data = vec![0u8; SNIFF_LEN];
    data[..magic.len()].copy_from_slice(magic);
    data
}

#[test]
fn classify_elf_magic() {
    let data = with_magic(&[0x7F, b'E', b'L', b'F']);
    assert!(matches!(classify(&data), Some(FileType::Elf)));
}

#[test]
fn classify_pe_magic_both_orders() {
    assert!(matches!(classify(&with_magic(b"MZ")), Some(FileType::Pe)));
    assert!(matches!(classify(&with_magic(b"ZM")), Some(FileType::Pe)));
}

#[test]
fn classify_pdb_magic() {
    let data = with_magic(b"Microsoft C/C++ MSF 7.00\r\n\x1aDS\0\0\0");
    assert!(matches!(classify(&data), Some(FileType::Pdb)));
}

#[test]
fn classify_macho_magics() {
    for magic in [
        [0xFEu8, 0xED, 0xFA, 0xCE],
        [0xFE, 0xED, 0xFA, 0xCF],
        [0xCE, 0xFA, 0xED, 0xFE],
        [0xCF, 0xFA, 0xED, 0xFE],
    ] {
        assert!(matches!(classify(&with_magic(&magic)), Some(FileType::MachO)));
    }
}

#[test]
fn classify_fails_closed_on_short_input() {
    // a real magic, but fewer than the required leading bytes
    let data = [0x7Fu8, b'E', b'L', b'F'];
    assert!(classify(&data).is_none());
}

#[test]
fn classify_rejects_unknown_magic() {
    let data = with_magic(b"#!/bin/sh");
    assert!(classify(&data).is_none());
}

#[test]
fn pe_identity_needs_code_id() {
    assert!(pe_to_info("a/app.exe", 9, None).is_none());
    assert!(pe_to_info("a/app.exe", 9, Some(String::new())).is_none());
    let info = pe_to_info("a/app.exe", 9, Some("5F3759DF".to_string())).unwrap();
    assert_eq!(info.path, "a/app.exe");
    assert!(matches!(info.file_type, FileType::Pe));
    assert_eq!(info.file_size, 9);
    assert_eq!(info.identifier, "5F3759DF");
    assert!(matches!(info.resource_type, ResourceType::Executable));
}

#[test]
fn elf_identity_resource_type_follows_debug_info() {
    let exe = elf_to_info("/bin/foo", 1, Some("00ff".to_string()), false).unwrap();
    assert!(matches!(exe.resource_type, ResourceType::Executable));
    let dbg = elf_to_info("/bin/foo", 1, Some("00ff".to_string()), true).unwrap();
    assert!(matches!(dbg.resource_type, ResourceType::DebugInfo));
    assert!(elf_to_info("/bin/foo", 1, None, true).is_none());
}

#[test]
fn macho_identity_resource_type_follows_debug_info() {
    let exe = macho_to_info("/out/tool", 1, Some("aa-bb".to_string()), false).unwrap();
    assert!(matches!(exe.resource_type, ResourceType::Executable));
    let dbg = macho_to_info("/out/tool", 1, Some("aa-bb".to_string()), true).unwrap();
    assert!(matches!(dbg.resource_type, ResourceType::DebugInfo));
    assert!(macho_to_info("/out/tool", 1, None, false).is_none());
}

#[test]
fn pdb_identity_concatenates_signature_and_age() {
    let signature = [
        0x01u8, 0x23, 0x45, 0x67, 0x89, 0xAB, 0xCD, 0xEF, 0x01, 0x23, 0x45, 0x67, 0x89, 0xAB,
        0xCD, 0xEF,
    ];
    let info = pdb_to_info("/syms/app.pdb", 7, &signature, 2);
    assert_eq!(info.identifier, "0123456789ABCDEF0123456789ABCDEF2");
    assert!(matches!(info.file_type, FileType::Pdb));
    assert!(matches!(info.resource_type, ResourceType::DebugInfo));
    assert_eq!(info.key(), "app.pdb/0123456789ABCDEF0123456789ABCDEF2/app.pdb");
}

#[test]
fn pdb_identity_age_renders_without_leading_zeroes() {
    let signature = [0u8; 16];
    let info = pdb_to_info("p.pdb", 7, &signature, 0x10);
    assert_eq!(info.identifier, "0000000000000000000000000000000010");
}

#[test]
fn unparsable_content_yields_no_identity() {
    let data = with_magic(&[0x7F, b'E', b'L', b'F']);
    // carries the ELF magic but is no well-formed object
    assert!(file_to_info("/tmp/garbage", &data).is_none());
}

fn entry(key: &str, path: &str) -> PublishEntry {
    PublishEntry {
        key: key.to_string(),
        info: FileInfo {
            path: path.to_string(),
            file_type: FileType::Elf,
            file_size: 1,
            identifier: "00ff".to_string(),
            resource_type: ResourceType::DebugInfo,
        },
    }
}

#[test]
fn duplicate_keys_collapse_to_last_entry_with_warning() {
    let entries = vec![
        entry("buildid/00ff/debuginfo", "/tree-a/lib.so"),
        entry("buildid/00ff/debuginfo", "/tree-b/lib.so"),
    ];
    let (out, warns) = deduplicate(entries);
    assert_eq!(out.len(), 1);
    assert_eq!(out[0].key, "buildid/00ff/debuginfo");
    assert_eq!(out[0].info.path, "/tree-b/lib.so");
    assert_eq!(warns.len(), 1);
    assert_eq!(warns[0].key, "buildid/00ff/debuginfo");
    assert_eq!(warns[0].old_path, "/tree-a/lib.so");
    assert_eq!(warns[0].new_path, "/tree-b/lib.so");
}

#[test]
fn dedup_keeps_distinct_keys_and_is_deterministic() {
    let entries = vec![
        entry("k1", "/a"),
        entry("k2", "/b"),
        entry("k1", "/c"),
        entry("k3", "/d"),
        entry("k1", "/e"),
    ];
    let (out, warns) = deduplicate(entries);
    assert_eq!(out.len(), 3);
    let k1 = out.iter().find(|e| e.key == "k1").unwrap();
    assert_eq!(k1.info.path, "/e");
    let k2 = out.iter().find(|e| e.key == "k2").unwrap();
    assert_eq!(k2.info.path, "/b");
    let k3 = out.iter().find(|e| e.key == "k3").unwrap();
    assert_eq!(k3.info.path, "/d");
    assert_eq!(warns.len(), 2);
    assert_eq!(warns[0].old_path, "/a");
    assert_eq!(warns[0].new_path, "/c");
    assert_eq!(warns[1].old_path, "/c");
    assert_eq!(warns[1].new_path, "/e");
}

#[test]
fn empty_input_publishes_nothing() {
    let (out, warns) = deduplicate(Vec::new());
    assert!(out.is_empty());
    assert!(warns.is_empty());
}

/// A minimal 64-bit ELF executable: one PT_NOTE program header carrying a
/// GNU build-id note of four bytes, padded so the sniffer sees enough
/// leading bytes.
fn minimal_elf_with_build_id() -> Vec<u8> {
    let mut data = vec![0u8; 256];
    data[0..4].copy_from_slice(&[0x7F, b'E', b'L', b'F']);
    data[4] = 2; // 64-bit
    data[5] = 1; // little endian
    data[6] = 1; // current version
    data[16] = 2; // executable
    data[18] = 62; // x86-64
    data[20] = 1; // current version
    data[32] = 64; // program headers start after the file header
    data[52] = 64; // file header size
    data[54] = 56; // program header size
    data[56] = 1; // one program header
    data[64] = 4; // PT_NOTE
    data[68] = 4; // readable
    data[72] = 120; // note offset
    data[96] = 20; // note size in the file
    data[104] = 20; // note size in memory
    data[112] = 4; // alignment
    data[120] = 4; // name size
    data[124] = 4; // desc size
    data[128] = 3; // NT_GNU_BUILD_ID
    data[132..136].copy_from_slice(b"GNU\0");
    data[136..140].copy_from_slice(&[0xDE, 0xAD, 0xBE, 0xEF]);
    data
}

#[test]
fn classification_agrees_with_full_parse_on_a_well_formed_elf() {
    let data = minimal_elf_with_build_id();
    // the cheap classification and the full parse name the same format
    assert!(matches!(classify(&data), Some(FileType::Elf)));
    let info = file_to_info("/build/a.out", &data).unwrap();
    assert!(matches!(info.file_type, FileType::Elf));
    assert_eq!(info.identifier, "deadbeef");
    assert!(matches!(info.resource_type, ResourceType::Executable));
    assert_eq!(info.file_size, 256);
    assert_eq!(info.key(), "buildid/deadbeef/executable");
}

#[test]
fn parse_outcome_derives_identity_per_format() {
    let pdb = ParseOutcome {
        format: FileType::Pdb,
        code_id: None,
        has_debug_info: true,
        debug_sig: vec![0u8; 16],
        debug_age: 1,
    };
    let info = object_to_info("x/app.pdb", 5, &pdb).unwrap();
    assert_eq!(info.identifier, format!("{}1", "0".repeat(32)));
    assert!(matches!(info.resource_type, ResourceType::DebugInfo));
    let elf = ParseOutcome {
        format: FileType::Elf,
        code_id: Some("00ff".to_string()),
        has_debug_info: false,
        debug_sig: vec![0u8; 16],
        debug_age: 0,
    };
    let info = object_to_info("/bin/a", 5, &elf).unwrap();
    assert_eq!(info.identifier, "00ff");
    assert!(matches!(info.resource_type, ResourceType::Executable));
    let pe = ParseOutcome {
        format: FileType::Pe,
        code_id: None,
        has_debug_info: false,
        debug_sig: vec![0u8; 16],
        debug_age: 0,
    };
    assert!(object_to_info("a.exe", 5, &pe).is_none());
}
