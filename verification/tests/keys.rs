use symbols::hexfmt::{hex_upper_bytes, hex_upper_u32};
use symbols::pathname::file_name;
use symbols::symstore::{FileInfo, FileType, ResourceType};

fn info(path: &str, ft: FileType, id: &str, rt: ResourceType) -> FileInfo {
    FileInfo {
        path: path.to_string(),
        file_type: ft,
        file_size: 4,
        identifier: id.to_string(),
        resource_type: rt,
    }
}

#[test]
fn elf_debuginfo_key() {
    let i = info(
        "/build/libfoo.so.dbg",
        FileType::Elf,
        "deadbeef0102",
        ResourceType::DebugInfo,
    );
    assert_eq!(i.key(), "buildid/deadbeef0102/debuginfo");
}

#[test]
fn elf_executable_key() {
    let i = info("/bin/foo", FileType::Elf, "deadbeef0102", ResourceType::Executable);
    assert_eq!(i.key(), "buildid/deadbeef0102/executable");
}

#[test]
fn pe_key() {
    let i = info("C:/out/app.exe", FileType::Pe, "5F3759DF", ResourceType::Executable);
    assert_eq!(i.key(), "app.exe/5F3759DF/app.exe");
}

#[test]
fn pdb_key() {
    let i = info(
        "/syms/app.pdb",
        FileType::Pdb,
        "0123456789ABCDEF0123456789ABCDEF2",
        ResourceType::DebugInfo,
    );
    assert_eq!(i.key(), "app.pdb/0123456789ABCDEF0123456789ABCDEF2/app.pdb");
}

#[test]
fn macho_executable_key() {
    let i = info(
        "/out/tool",
        FileType::MachO,
        "67e9247c-814e-392b-a027-dbde6748fcbf",
        ResourceType::Executable,
    );
    assert_eq!(
        i.key(),
        "tool/mach-uuid-67e9247c-814e-392b-a027-dbde6748fcbf/tool"
    );
}

#[test]
fn macho_debuginfo_key() {
    let i = info(
        "/out/tool.dSYM",
        FileType::MachO,
        "67e9247c-814e-392b-a027-dbde6748fcbf",
        ResourceType::DebugInfo,
    );
    assert_eq!(
        i.key(),
        "_.dwarf/mach-uuid-sym-67e9247c-814e-392b-a027-dbde6748fcbf/_.dwarf"
    );
}

#[test]
fn key_is_idempotent() {
    let i = info("/bin/foo", FileType::Elf, "00ff", ResourceType::Executable);
    let first = i.key();
    let second = i.key();
    assert_eq!(first, second);
}

#[test]
fn file_name_takes_last_component() {
    assert_eq!(file_name("/a/b/c.so"), "c.so");
    assert_eq!(file_name("app.exe"), "app.exe");
    assert_eq!(file_name("/a/b/"), "");
    assert_eq!(file_name(""), "");
}

#[test]
fn hex_upper_bytes_renders_fixed_width() {
    assert_eq!(hex_upper_bytes(&[0xBE, 0xEF]), "BEEF");
    assert_eq!(hex_upper_bytes(&[0x00, 0x01, 0x0A]), "00010A");
    assert_eq!(hex_upper_bytes(&[]), "");
}

#[test]
fn hex_upper_u32_renders_minimal_width() {
    assert_eq!(hex_upper_u32(0), "0");
    assert_eq!(hex_upper_u32(2), "2");
    assert_eq!(hex_upper_u32(0x5F), "5F");
    assert_eq!(hex_upper_u32(0xFFFFFFFF), "FFFFFFFF");
}
