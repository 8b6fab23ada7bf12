//! Cheap pre-filter classifying a file by its leading magic bytes.
//!
//! Reads only the first bytes of a candidate (the caller hands them in) and
//! classifies it as ELF, PE, PDB or Mach-O without a full parse, so that
//! walking a large directory tree stays cheap.  Classification fails closed:
//! fewer than 256 bytes means no classification.

use vstd::prelude::*;

use crate::symstore::FileType;

verus! {

/// How many leading bytes the sniffer demands before it classifies at all.
pub const SNIFF_LEN: usize = 256;

/// The MSF stream signature that opens every supported PDB file.
pub const PDB_MAGIC: [u8; 32] = [0x4D, 0x69, 0x63, 0x72, 0x6F, 0x73, 0x6F, 0x66, 0x74, 0x20, 0x43, 0x2F, 0x43, 0x2B, 0x2B, 0x20, 0x4D, 0x53, 0x46, 0x20, 0x37, 0x2E, 0x30, 0x30, 0x0D, 0x0A, 0x1A, 0x44, 0x53, 0x00, 0x00, 0x00];

/// `\x7f E L F`
pub open spec fn spec_elf_magic(b: Seq<u8>) -> bool {
    b.len() >= 4 && b[0] == 0x7Fu8 && b[1] == 0x45u8 && b[2] == 0x4Cu8 && b[3] == 0x46u8
}

/// `MZ` or `ZM`
pub open spec fn spec_pe_magic(b: Seq<u8>) -> bool {
    b.len() >= 2 && ((b[0] == 0x4Du8 && b[1] == 0x5Au8) || (b[0] == 0x5Au8 && b[1] == 0x4Du8))
}

/// The 32-byte MSF stream signature.
pub open spec fn spec_pdb_magic(b: Seq<u8>) -> bool {
    b.len() >= 32 && b.subrange(0, 32) == PDB_MAGIC@
}

/// The four Mach-O magic numbers: 32- or 64-bit, either byte order.
pub open spec fn spec_macho_magic(b: Seq<u8>) -> bool {
    b.len() >= 4 && {
        ||| (b[0] == 0xFEu8 && b[1] == 0xEDu8 && b[2] == 0xFAu8 && b[3] == 0xCEu8)
        ||| (b[0] == 0xFEu8 && b[1] == 0xEDu8 && b[2] == 0xFAu8 && b[3] == 0xCFu8)
        ||| (b[0] == 0xCEu8 && b[1] == 0xFAu8 && b[2] == 0xEDu8 && b[3] == 0xFEu8)
        ||| (b[0] == 0xCFu8 && b[1] == 0xFAu8 && b[2] == 0xEDu8 && b[3] == 0xFEu8)
    }
}

/// The classification of a block of leading bytes, rules checked in order;
/// `None` stands for an unrecognized (or too short) file.
pub open spec fn spec_classify(b: Seq<u8>) -> Option<FileType> {
    if b.len() < SNIFF_LEN {
        None
    } else if spec_elf_magic(b) {
        Some(FileType::Elf)
    } else if spec_pe_magic(b) {
        Some(FileType::Pe)
    } else if spec_pdb_magic(b) {
        Some(FileType::Pdb)
    } else if spec_macho_magic(b) {
        Some(FileType::MachO)
    } else {
        None
    }
}

/// Whether the first 32 bytes are the MSF stream signature.
fn is_pdb_magic(data: &[u8]) -> (res: bool)
    requires
        data@.len() >= 32,
    ensures
        res == spec_pdb_magic(data@),
{
    let mut j: usize = 0;
    while j < 32
        invariant
            0 <= j <= 32,
            data@.len() >= 32,
            forall|k: int| 0 <= k < j ==> data@[k] == PDB_MAGIC@[k],
        decreases 32 - j,
    {
        if data[j] != PDB_MAGIC[j] {
            assert(data@.subrange(0, 32) != PDB_MAGIC@) by {
                assert(data@.subrange(0, 32)[j as int] != PDB_MAGIC@[j as int]);
            }
            return false;
        }
        j = j + 1;
    }
    assert(data@.subrange(0, 32) =~= PDB_MAGIC@);
    true
}

/// Classify a block of leading file bytes by its magic, without a full parse.
pub fn classify(data: &[u8]) -> (res: Option<FileType>)
    ensures
        res == spec_classify(data@),
{
    if data.len() < SNIFF_LEN {
        return None;
    }
    if data[0] == 0x7F && data[1] == 0x45 && data[2] == 0x4C && data[3] == 0x46 {
        return Some(FileType::Elf);
    }
    if (data[0] == 0x4D && data[1] == 0x5A) || (data[0] == 0x5A && data[1] == 0x4D) {
        return Some(FileType::Pe);
    }
    if is_pdb_magic(data) {
        return Some(FileType::Pdb);
    }
    let m0 = data[0];
    let m1 = data[1];
    let m2 = data[2];
    let m3 = data[3];
    if (m0 == 0xFE && m1 == 0xED && m2 == 0xFA && (m3 == 0xCE || m3 == 0xCF)) || ((m0 == 0xCE
        || m0 == 0xCF) && m1 == 0xFA && m2 == 0xED && m3 == 0xFE) {
        return Some(FileType::MachO);
    }
    None
}

/// No false negatives for ELF: leading bytes long enough and carrying the ELF
/// magic always classify as ELF.
pub proof fn lemma_classify_elf(b: Seq<u8>)
    requires
        b.len() >= SNIFF_LEN,
        spec_elf_magic(b),
    ensures
        spec_classify(b) == Some(FileType::Elf),
{
}

/// No false negatives for PE.
pub proof fn lemma_classify_pe(b: Seq<u8>)
    requires
        b.len() >= SNIFF_LEN,
        spec_pe_magic(b),
    ensures
        spec_classify(b) == Some(FileType::Pe),
{
}

/// No false negatives for PDB.
pub proof fn lemma_classify_pdb(b: Seq<u8>)
    requires
        b.len() >= SNIFF_LEN,
        spec_pdb_magic(b),
    ensures
        spec_classify(b) == Some(FileType::Pdb),
{
    assert(b[0] == PDB_MAGIC@[0]) by {
        assert(b.subrange(0, 32)[0] == b[0]);
    }
    assert(b[1] == PDB_MAGIC@[1]) by {
        assert(b.subrange(0, 32)[1] == b[1]);
    }
}

/// Classification is sound: whatever format the sniffer names, the bytes
/// carry that format's magic.
pub proof fn lemma_classify_sound(b: Seq<u8>)
    ensures
        spec_classify(b) == Some(FileType::Elf) ==> spec_elf_magic(b),
        spec_classify(b) == Some(FileType::Pe) ==> spec_pe_magic(b),
        spec_classify(b) == Some(FileType::Pdb) ==> spec_pdb_magic(b),
        spec_classify(b) == Some(FileType::MachO) ==> spec_macho_magic(b),
        spec_classify(b) is Some ==> b.len() >= SNIFF_LEN,
{
}

/// No false negatives for Mach-O.
pub proof fn lemma_classify_macho(b: Seq<u8>)
    requires
        b.len() >= SNIFF_LEN,
        spec_macho_magic(b),
    ensures
        spec_classify(b) == Some(FileType::MachO),
{
    if spec_pdb_magic(b) {
        assert(b[0] == PDB_MAGIC@[0]) by {
            assert(b.subrange(0, 32)[0] == b[0]);
        }
    }
}

} // verus!
