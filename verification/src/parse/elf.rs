//! The Executable and Linking Format is a format for binary executables, object code and shared libraries
use vstd::prelude::*;

verus! {

/// The size of the ELF header of a 64-bit object in bytes
pub const ELF_HEADER_SIZE: usize = 64;

/// The size of a program header of a 64-bit object in bytes
pub const PROGRAM_HEADER_SIZE: usize = 56;

/// The little endian 16-bit number at offset `at` of `bytes`.
pub open spec fn le_u16(bytes: Seq<u8>, at: int) -> nat {
    (bytes[at] as nat) + (bytes[at + 1] as nat) * 0x100
}

/// The little endian 32-bit number at offset `at` of `bytes`.
pub open spec fn le_u32(bytes: Seq<u8>, at: int) -> nat {
    le_u16(bytes, at) + le_u16(bytes, at + 2) * 0x1_0000
}

/// The little endian 64-bit number at offset `at` of `bytes`.
pub open spec fn le_u64(bytes: Seq<u8>, at: int) -> nat {
    le_u32(bytes, at) + le_u32(bytes, at + 4) * 0x1_0000_0000
}

/// The ELF header is present at the start of all ELF binaries
#[derive(Debug, Clone, Copy)]
pub struct ElfHeader {
    pub e_ident: [u8; 16],
    pub e_type: u16,
    pub e_machine: u16,
    pub e_version: u32,
    pub e_entry: u64,
    pub e_phoff: u64,
    pub e_shoff: u64,
    pub e_flags: u32,
    pub e_ehsize: u16,
    pub e_phentsize: u16,
    pub e_phnum: u16,
    pub e_shentsize: u16,
    pub e_shnum: u16,
    pub e_shstrndx: u16,
}

/// The program header describes a segment or other information the system needs to prepare the program for execution
#[derive(Debug, Clone, Copy, PartialEq, Eq, Structural)]
pub struct ProgramHeader {
    pub p_type: u32,
    pub p_flags: u32,
    pub p_offset: u64,
    pub p_vaddr: u64,
    pub p_paddr: u64,
    pub p_filesz: u64,
    pub p_memsz: u64,
    pub p_align: u64,
}

/// Whether `header` holds the fields of the ELF header in the first 64 bytes of `bytes`.
pub open spec fn elf_header_of(header: ElfHeader, bytes: Seq<u8>) -> bool {
    &&& header.e_ident@ == bytes.subrange(0, 16)
    &&& header.e_type == le_u16(bytes, 16)
    &&& header.e_machine == le_u16(bytes, 18)
    &&& header.e_version == le_u32(bytes, 20)
    &&& header.e_entry == le_u64(bytes, 24)
    &&& header.e_phoff == le_u64(bytes, 32)
    &&& header.e_shoff == le_u64(bytes, 40)
    &&& header.e_flags == le_u32(bytes, 48)
    &&& header.e_ehsize == le_u16(bytes, 52)
    &&& header.e_phentsize == le_u16(bytes, 54)
    &&& header.e_phnum == le_u16(bytes, 56)
    &&& header.e_shentsize == le_u16(bytes, 58)
    &&& header.e_shnum == le_u16(bytes, 60)
    &&& header.e_shstrndx == le_u16(bytes, 62)
}

/// Whether `header` holds the fields of the program header at offset `at` of `bytes`.
pub open spec fn program_header_of(header: ProgramHeader, bytes: Seq<u8>, at: int) -> bool {
    &&& header.p_type == le_u32(bytes, at)
    &&& header.p_flags == le_u32(bytes, at + 4)
    &&& header.p_offset == le_u64(bytes, at + 8)
    &&& header.p_vaddr == le_u64(bytes, at + 16)
    &&& header.p_paddr == le_u64(bytes, at + 24)
    &&& header.p_filesz == le_u64(bytes, at + 32)
    &&& header.p_memsz == le_u64(bytes, at + 40)
    &&& header.p_align == le_u64(bytes, at + 48)
}

/// A little endian 64-bit number is its eight bytes, the least significant first.
pub proof fn lemma_le_u64_bytes(bytes: Seq<u8>, at: int)
    ensures
        le_u64(bytes, at) == bytes[at] as int + bytes[at + 1] as int * 0x100 + bytes[at + 2] as int * 0x1_0000
            + bytes[at + 3] as int * 0x100_0000 + bytes[at + 4] as int * 0x1_0000_0000 + bytes[at + 5] as int
            * 0x100_0000_0000 + bytes[at + 6] as int * 0x1_0000_0000_0000 + bytes[at + 7] as int
            * 0x100_0000_0000_0000,
{
}

/// A decoded program header holds the fields of the ELF64 program header layout: the 32-bit
/// type and flags at offsets 0 and 4, then the six 64-bit fields offset, virtual address,
/// physical address, size in the file, size in memory and alignment at 8, 16, 24, 32, 40 and
/// 48; each field comes from its own bytes of the 56.
pub proof fn lemma_program_header_layout(header: ProgramHeader, bytes: Seq<u8>, at: int)
    requires
        program_header_of(header, bytes, at),
    ensures
        header.p_type == le_u32(bytes, at),
        header.p_flags == le_u32(bytes, at + 4),
        header.p_offset == le_u64(bytes, at + 8),
        header.p_vaddr == le_u64(bytes, at + 16),
        header.p_paddr == le_u64(bytes, at + 24),
        header.p_filesz == le_u64(bytes, at + 32),
        header.p_memsz == le_u64(bytes, at + 40),
        header.p_align == le_u64(bytes, at + 48),
        forall|other: Seq<u8>|
            other.len() == bytes.len() && (forall|k: int| at <= k < at + PROGRAM_HEADER_SIZE ==> other[k] == bytes[k])
                ==> program_header_of(header, other, at),
{
    assert forall|other: Seq<u8>|
        other.len() == bytes.len() && (forall|k: int| at <= k < at + PROGRAM_HEADER_SIZE ==> other[k] == bytes[k])
            implies program_header_of(header, other, at) by {
        assert(forall|k: int| 0 <= k < 56 ==> #[trigger] other[at + k] == bytes[at + k]);
    }
}

/// Little endian numbers read from bytes that agree agree.
proof fn lemma_le_agree(a: Seq<u8>, b: Seq<u8>, at: int, width: int)
    requires
        width == 4 || width == 8,
        forall|k: int| at <= k < at + width ==> a[k] == b[k],
    ensures
        width == 4 ==> le_u32(a, at) == le_u32(b, at),
        width == 8 ==> le_u64(a, at) == le_u64(b, at),
{
    assert(a[at] == b[at] && a[at + 1] == b[at + 1] && a[at + 2] == b[at + 2] && a[at + 3] == b[at + 3]);
    if width == 8 {
        assert(a[at + 4] == b[at + 4] && a[at + 5] == b[at + 5] && a[at + 6] == b[at + 6] && a[at + 7]
            == b[at + 7]);
    }
}

/// Each field of a program header depends on its own bytes alone: two program headers decoded
/// from bytes that agree on a field's bytes agree on that field, whatever the other bytes hold.
pub proof fn lemma_program_header_fields_apart(
    first: ProgramHeader,
    first_bytes: Seq<u8>,
    second: ProgramHeader,
    second_bytes: Seq<u8>,
    at: int,
)
    requires
        program_header_of(first, first_bytes, at),
        program_header_of(second, second_bytes, at),
    ensures
        (forall|k: int| at <= k < at + 4 ==> first_bytes[k] == second_bytes[k]) ==> first.p_type == second.p_type,
        (forall|k: int| at + 4 <= k < at + 8 ==> first_bytes[k] == second_bytes[k]) ==> first.p_flags
            == second.p_flags,
        (forall|k: int| at + 8 <= k < at + 16 ==> first_bytes[k] == second_bytes[k]) ==> first.p_offset
            == second.p_offset,
        (forall|k: int| at + 16 <= k < at + 24 ==> first_bytes[k] == second_bytes[k]) ==> first.p_vaddr
            == second.p_vaddr,
        (forall|k: int| at + 24 <= k < at + 32 ==> first_bytes[k] == second_bytes[k]) ==> first.p_paddr
            == second.p_paddr,
        (forall|k: int| at + 32 <= k < at + 40 ==> first_bytes[k] == second_bytes[k]) ==> first.p_filesz
            == second.p_filesz,
        (forall|k: int| at + 40 <= k < at + 48 ==> first_bytes[k] == second_bytes[k]) ==> first.p_memsz
            == second.p_memsz,
        (forall|k: int| at + 48 <= k < at + 56 ==> first_bytes[k] == second_bytes[k]) ==> first.p_align
            == second.p_align,
{
    if forall|k: int| at <= k < at + 4 ==> first_bytes[k] == second_bytes[k] {
        lemma_le_agree(first_bytes, second_bytes, at, 4);
    }
    if forall|k: int| at + 4 <= k < at + 8 ==> first_bytes[k] == second_bytes[k] {
        lemma_le_agree(first_bytes, second_bytes, at + 4, 4);
    }
    if forall|k: int| at + 8 <= k < at + 16 ==> first_bytes[k] == second_bytes[k] {
        lemma_le_agree(first_bytes, second_bytes, at + 8, 8);
    }
    if forall|k: int| at + 16 <= k < at + 24 ==> first_bytes[k] == second_bytes[k] {
        lemma_le_agree(first_bytes, second_bytes, at + 16, 8);
    }
    if forall|k: int| at + 24 <= k < at + 32 ==> first_bytes[k] == second_bytes[k] {
        lemma_le_agree(first_bytes, second_bytes, at + 24, 8);
    }
    if forall|k: int| at + 32 <= k < at + 40 ==> first_bytes[k] == second_bytes[k] {
        lemma_le_agree(first_bytes, second_bytes, at + 32, 8);
    }
    if forall|k: int| at + 40 <= k < at + 48 ==> first_bytes[k] == second_bytes[k] {
        lemma_le_agree(first_bytes, second_bytes, at + 40, 8);
    }
    if forall|k: int| at + 48 <= k < at + 56 ==> first_bytes[k] == second_bytes[k] {
        lemma_le_agree(first_bytes, second_bytes, at + 48, 8);
    }
}

/// A parsed ELF header holds the fields of the ELF64 header layout: the identification in bytes
/// 0..16, then the type, machine, version, entry point, program header offset, section header
/// offset, flags and the six 16-bit sizes and counts at their offsets.
pub proof fn lemma_elf_header_layout(header: ElfHeader, bytes: Seq<u8>)
    requires
        elf_header_of(header, bytes),
    ensures
        header.e_ident@ == bytes.subrange(0, 16),
        header.e_type == le_u16(bytes, 16),
        header.e_machine == le_u16(bytes, 18),
        header.e_version == le_u32(bytes, 20),
        header.e_entry == le_u64(bytes, 24),
        header.e_phoff == le_u64(bytes, 32),
        header.e_shoff == le_u64(bytes, 40),
        header.e_flags == le_u32(bytes, 48),
        header.e_ehsize == le_u16(bytes, 52),
        header.e_phentsize == le_u16(bytes, 54),
        header.e_phnum == le_u16(bytes, 56),
        header.e_shentsize == le_u16(bytes, 58),
        header.e_shnum == le_u16(bytes, 60),
        header.e_shstrndx == le_u16(bytes, 62),
{
}

/// Whether `bytes` holds an ELF object: a whole ELF header that starts with the magic number
/// 0x7f 'E' 'L' 'F', and the program headers it announces, all inside the bytes.
pub open spec fn is_elf(bytes: Seq<u8>) -> bool {
    &&& bytes.len() >= ELF_HEADER_SIZE
    &&& bytes[0] == 0x7fu8 && bytes[1] == 0x45u8 && bytes[2] == 0x4cu8 && bytes[3] == 0x46u8
    &&& le_u64(bytes, 32) + le_u16(bytes, 56) * PROGRAM_HEADER_SIZE <= bytes.len()
}

/// The little endian 16-bit number at offset `at` of `bytes`
fn read_u16(bytes: &[u8], at: usize) -> (value: u16)
    requires
        at + 2 <= bytes.len(),
    ensures
        value == le_u16(bytes@, at as int),
{
    (bytes[at] as u16) + (bytes[at + 1] as u16) * 0x100
}

/// The little endian 32-bit number at offset `at` of `bytes`
fn read_u32(bytes: &[u8], at: usize) -> (value: u32)
    requires
        at + 4 <= bytes.len(),
    ensures
        value == le_u32(bytes@, at as int),
{
    (read_u16(bytes, at) as u32) + (read_u16(bytes, at + 2) as u32) * 0x1_0000
}

/// The little endian 64-bit number at offset `at` of `bytes`
fn read_u64(bytes: &[u8], at: usize) -> (value: u64)
    requires
        at + 8 <= bytes.len(),
    ensures
        value == le_u64(bytes@, at as int),
{
    (read_u32(bytes, at) as u64) + (read_u32(bytes, at + 4) as u64) * 0x1_0000_0000
}

/// Decode the program header at offset `at` of `bytes`
fn read_program_header(bytes: &[u8], at: usize) -> (header: ProgramHeader)
    requires
        at + PROGRAM_HEADER_SIZE <= bytes.len(),
    ensures
        program_header_of(header, bytes@, at as int),
{
    ProgramHeader {
        p_type: read_u32(bytes, at),
        p_flags: read_u32(bytes, at + 4),
        p_offset: read_u64(bytes, at + 8),
        p_vaddr: read_u64(bytes, at + 16),
        p_paddr: read_u64(bytes, at + 24),
        p_filesz: read_u64(bytes, at + 32),
        p_memsz: read_u64(bytes, at + 40),
        p_align: read_u64(bytes, at + 48),
    }
}

/// An ELF object file
pub struct ElfObject<'a> {
    pub bytes: &'a [u8],
    pub elf_header: ElfHeader,
    pub program_headers: Vec<ProgramHeader>,
}

impl<'a> ElfObject<'a> {
    /// Parse an ELF object from a byte slice: the ELF header from the first 64 bytes, then the
    /// `e_phnum` program headers from `e_phoff` on. `None` where the bytes hold no ELF object.
    pub fn parse(bytes: &'a [u8]) -> (object: Option<ElfObject<'a>>)
        ensures
            match object {
                Some(o) => {
                    &&& is_elf(bytes@)
                    &&& o.bytes@ == bytes@
                    &&& elf_header_of(o.elf_header, bytes@)
                    &&& o.program_headers@.len() == le_u16(bytes@, 56)
                    &&& forall|i: int| 0 <= i < o.program_headers@.len() ==> program_header_of(
                        #[trigger] o.program_headers@[i],
                        bytes@,
                        le_u64(bytes@, 32) + i * PROGRAM_HEADER_SIZE,
                    )
                },
                None => !is_elf(bytes@),
            },
    {
        if bytes.len() < ELF_HEADER_SIZE {
            return None;
        }
        if !(bytes[0] == 0x7f && bytes[1] == 0x45 && bytes[2] == 0x4c && bytes[3] == 0x46) {
            return None;
        }
        let phoff = read_u64(bytes, 32);
        let phnum = read_u16(bytes, 56);
        if phoff > bytes.len() as u64 {
            return None;
        }
        let start = phoff as usize;
        let table = (phnum as usize) * PROGRAM_HEADER_SIZE;
        if table > bytes.len() - start {
            return None;
        }
        let mut e_ident = [0u8; 16];
        let mut k: usize = 0;
        while k < 16
            invariant
                bytes@.len() >= ELF_HEADER_SIZE,
                k <= 16,
                e_ident@.len() == 16,
                forall|j: int| 0 <= j < k ==> e_ident@[j] == bytes@[j],
            decreases 16 - k,
        {
            e_ident[k] = bytes[k];
            k = k + 1;
        }
        assert(e_ident@ =~= bytes@.subrange(0, 16));
        let elf_header = ElfHeader {
            e_ident,
            e_type: read_u16(bytes, 16),
            e_machine: read_u16(bytes, 18),
            e_version: read_u32(bytes, 20),
            e_entry: read_u64(bytes, 24),
            e_phoff: phoff,
            e_shoff: read_u64(bytes, 40),
            e_flags: read_u32(bytes, 48),
            e_ehsize: read_u16(bytes, 52),
            e_phentsize: read_u16(bytes, 54),
            e_phnum: phnum,
            e_shentsize: read_u16(bytes, 58),
            e_shnum: read_u16(bytes, 60),
            e_shstrndx: read_u16(bytes, 62),
        };
        let mut program_headers: Vec<ProgramHeader> = Vec::new();
        let mut i: usize = 0;
        while i < phnum as usize
            invariant
                start == le_u64(bytes@, 32),
                phnum == le_u16(bytes@, 56),
                start + phnum * PROGRAM_HEADER_SIZE <= bytes.len(),
                i <= phnum,
                program_headers@.len() == i,
                forall|j: int| 0 <= j < i ==> program_header_of(
                    #[trigger] program_headers@[j],
                    bytes@,
                    start + j * PROGRAM_HEADER_SIZE,
                ),
            decreases phnum - i,
        {
            assert(start + i * PROGRAM_HEADER_SIZE + PROGRAM_HEADER_SIZE <= bytes.len()) by (nonlinear_arith)
                requires
                    i < phnum,
                    start + phnum * PROGRAM_HEADER_SIZE <= bytes.len(),
            ;
            let header = read_program_header(bytes, start + i * PROGRAM_HEADER_SIZE);
            program_headers.push(header);
            i = i + 1;
        }
        Some(ElfObject { bytes, elf_header, program_headers })
    }
}

} // verus!
