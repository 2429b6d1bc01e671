use kernel::fs::initramfs::InitramFs;
use kernel::fs::prepare_fs;
use kernel::vfs::inode::FileSystem;
use kernel::parse::cpio::CpioParser;
use kernel::parse::elf::ElfObject;
use kernel::vfs::error::VfsError;
use kernel::vfs::inode::INodeNumber;

/// One entry of a binary CPIO archive: the header, the NUL terminated path and the data, each
/// padded to an even length.
fn entry(path: &str, data: &[u8]) -> Vec<u8> {
    let mut bytes = vec![0xc7, 0x71];
    bytes.extend_from_slice(&[0u8; 18]);
    let path_size = path.len() as u16 + 1;
    bytes.extend_from_slice(&path_size.to_le_bytes());
    let size = data.len() as u32;
    bytes.extend_from_slice(&[(size >> 16) as u8, (size >> 24) as u8, size as u8, (size >> 8) as u8]);
    bytes.extend_from_slice(path.as_bytes());
    bytes.push(0);
    if path_size % 2 == 1 {
        bytes.push(0);
    }
    bytes.extend_from_slice(data);
    if data.len() % 2 == 1 {
        bytes.push(0);
    }
    bytes
}

fn archive(entries: &[(&str, &[u8])]) -> &'static [u8] {
    let mut bytes = Vec::new();
    for (path, data) in entries {
        bytes.extend(entry(path, data));
    }
    bytes.extend(entry("TRAILER!!!", &[]));
    Box::leak(bytes.into_boxed_slice())
}

fn number(num: u128) -> INodeNumber {
    INodeNumber::new(num, false)
}

#[test]
fn parser_reads_entries_until_trailer() {
    let bytes = archive(&[("init", b"hello"), ("bin/sh", b"ab")]);
    let mut parser = CpioParser::new(bytes);
    let first = parser.next().unwrap();
    assert_eq!(first.path, "init");
    assert_eq!(first.data, b"hello");
    let second = parser.next().unwrap();
    assert_eq!(second.path, "bin/sh");
    assert_eq!(second.data, b"ab");
    assert!(parser.next().is_none());
    assert!(parser.next().is_none());
}

#[test]
fn parser_stops_on_truncated_archive() {
    let bytes = archive(&[("init", b"hello")]);
    let mut parser = CpioParser::new(&bytes[..20]);
    assert!(parser.next().is_none());
    let mut parser = CpioParser::new(&bytes[..30]);
    assert!(parser.next().is_none());
}

#[test]
fn parser_stops_on_empty_path() {
    let mut bytes = entry("x", b"");
    bytes[20] = 0;
    bytes[21] = 0;
    let bytes: &'static [u8] = Box::leak(bytes.into_boxed_slice());
    let mut parser = CpioParser::new(bytes);
    assert!(parser.next().is_none());
}

#[test]
fn initramfs_lookup_and_read() {
    let bytes = archive(&[("init", b"hello"), ("bin", b""), ("bin/sh", b"shell")]);
    let fs = InitramFs::new(bytes);
    assert_eq!(fs.lookup(number(0), "init"), Ok(number(1)));
    assert_eq!(fs.lookup(number(0), "bin"), Ok(number(2)));
    assert_eq!(fs.lookup(number(2), "sh"), Ok(number(3)));
    assert_eq!(fs.lookup(number(2), "init"), Err(VfsError::NoSuchFile));
    assert_eq!(fs.lookup(number(9), "init"), Err(VfsError::NoSuchFile));
    assert_eq!(fs.length(number(1)), Ok(5));
    let mut buf = [0u8; 8];
    assert_eq!(fs.read(number(1), 0, &mut buf), Ok(5));
    assert_eq!(&buf[..5], b"hello");
    let mut small = [0u8; 2];
    assert_eq!(fs.read(number(1), 2, &mut small), Ok(2));
    assert_eq!(&small, b"ll");
    assert_eq!(fs.read(number(1), 5, &mut buf), Err(VfsError::OutOfBounds));
    assert_eq!(fs.read(number(2), 0, &mut buf), Err(VfsError::OutOfBounds));
    assert_eq!(fs.read(number(7), 0, &mut buf), Err(VfsError::NoSuchFile));
    assert_eq!(fs.create_dir(number(0), "x"), Err(VfsError::Unsupported));
    assert_eq!(fs.write(number(1), 0, b"x"), Err(VfsError::Unsupported));
}

/// An ELF image: a 64-byte header announcing `phnum` program headers at `phoff`, then the
/// given program headers at that offset.
fn elf_image(phoff: u64, phnum: u16, headers: &[[u64; 7]], len: usize) -> Vec<u8> {
    let mut bytes = vec![0u8; len];
    bytes[..4].copy_from_slice(&[0x7f, b'E', b'L', b'F']);
    bytes[4] = 2;
    bytes[16..18].copy_from_slice(&2u16.to_le_bytes());
    bytes[18..20].copy_from_slice(&0x3eu16.to_le_bytes());
    bytes[20..24].copy_from_slice(&1u32.to_le_bytes());
    bytes[24..32].copy_from_slice(&0x40_1000u64.to_le_bytes());
    bytes[32..40].copy_from_slice(&phoff.to_le_bytes());
    bytes[54..56].copy_from_slice(&56u16.to_le_bytes());
    bytes[56..58].copy_from_slice(&phnum.to_le_bytes());
    for (k, header) in headers.iter().enumerate() {
        let at = phoff as usize + k * 56;
        bytes[at..at + 4].copy_from_slice(&(header[0] as u32).to_le_bytes());
        bytes[at + 4..at + 8].copy_from_slice(&((header[0] >> 32) as u32).to_le_bytes());
        for (f, value) in header[1..].iter().enumerate() {
            bytes[at + 8 + f * 8..at + 16 + f * 8].copy_from_slice(&value.to_le_bytes());
        }
    }
    bytes
}

#[test]
fn elf_parse_rejects_what_is_no_elf_object() {
    assert!(ElfObject::parse(&[0x7f, b'E', b'L', b'F']).is_none());
    let mut bad_magic = elf_image(64, 0, &[], 64);
    bad_magic[1] = b'X';
    assert!(ElfObject::parse(&bad_magic).is_none());
    let truncated = elf_image(64, 2, &[[1, 0, 0, 0, 0, 0, 0]], 64 + 56);
    assert!(ElfObject::parse(&truncated).is_none());
    let far = elf_image(u64::MAX, 1, &[], 64);
    assert!(ElfObject::parse(&far).is_none());
}

#[test]
fn elf_parse_reads_header_and_program_headers() {
    let first = [(5u64 << 32) | 1, 0x1000, 0x40_1000, 0x40_1000, 0x20, 0x30, 0x1000];
    let second = [(6u64 << 32) | 1, 0x2000, 0x40_2000, 0x40_2000, 0x8, 0x10, 0x1000];
    let bytes = elf_image(64, 2, &[first, second], 64 + 2 * 56);
    let object = ElfObject::parse(&bytes).unwrap();
    assert_eq!(object.elf_header.e_ident[..5], [0x7f, b'E', b'L', b'F', 2]);
    assert_eq!(object.elf_header.e_type, 2);
    assert_eq!(object.elf_header.e_machine, 0x3e);
    assert_eq!(object.elf_header.e_version, 1);
    assert_eq!(object.elf_header.e_entry, 0x40_1000);
    assert_eq!(object.elf_header.e_phoff, 64);
    assert_eq!(object.elf_header.e_phentsize, 56);
    assert_eq!(object.elf_header.e_phnum, 2);
    assert_eq!(object.program_headers.len(), 2);
    assert_eq!(object.program_headers[0].p_type, 1);
    assert_eq!(object.program_headers[0].p_flags, 5);
    assert_eq!(object.program_headers[0].p_offset, 0x1000);
    assert_eq!(object.program_headers[0].p_memsz, 0x30);
    assert_eq!(object.program_headers[1].p_flags, 6);
    assert_eq!(object.program_headers[1].p_vaddr, 0x40_2000);
    assert_eq!(object.program_headers[1].p_align, 0x1000);
    let bare = elf_image(64, 0, &[], 64);
    assert!(ElfObject::parse(&bare).unwrap().program_headers.is_empty());
}

#[test]
fn parser_takes_data_that_ends_the_archive() {
    let bytes: &'static [u8] = Box::leak(entry("init", b"hi").into_boxed_slice());
    let mut parser = CpioParser::new(bytes);
    let only = parser.next().unwrap();
    assert_eq!(only.path, "init");
    assert_eq!(only.data, b"hi");
    assert!(parser.next().is_none());
}

#[test]
fn initramfs_lookup_finds_the_child_not_a_suffix() {
    let bytes = archive(&[("dir", b""), ("dir/ba", b"x"), ("dir/a", b"y")]);
    let fs = InitramFs::new(bytes);
    assert_eq!(fs.lookup(number(1), "a"), Ok(number(3)));
    assert_eq!(fs.lookup(number(1), "ba"), Ok(number(2)));
    assert_eq!(fs.lookup(number(0), "a"), Err(VfsError::NoSuchFile));
    assert_eq!(fs.lookup(number(0), "dir"), Ok(number(1)));
}

#[test]
fn prepare_fs_builds_the_initramfs_of_the_archive() {
    let bytes = archive(&[("init", b"hello")]);
    match prepare_fs("initramfs", bytes) {
        Ok(FileSystem::Initramfs(fs)) => {
            assert_eq!(fs.lookup(number(0), "init"), Ok(number(1)));
            assert_eq!(fs.length(number(1)), Ok(5));
        },
        _ => panic!("expected an initramfs"),
    }
}
