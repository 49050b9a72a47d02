use pamplemouche::macho::loader::{
    load_commands, macho_image, parse_header, CPU_TYPE_ARM64, LC_DYLD_INFO_ONLY, LC_LOAD_DYLIB, LC_MAIN, LC_SEGMENT_64,
    LC_SYMTAB, LC_UUID, MH_CIGAM_64, MH_EXECUTE, MH_MAGIC_64, FAT_MAGIC, CPU_TYPE_X86_64,
};
use pamplemouche::macho::{LoadCommand, ParseError};

fn push_u32(b: &mut Vec<u8>, v: u32) {
    b.extend_from_slice(&v.to_le_bytes());
}

fn push_u64(b: &mut Vec<u8>, v: u64) {
    b.extend_from_slice(&v.to_le_bytes());
}

fn header(n_cmds: u32, size_of_cmds: u32) -> Vec<u8> {
    let mut b = Vec::new();
    push_u32(&mut b, MH_MAGIC_64);
    push_u32(&mut b, CPU_TYPE_X86_64);
    push_u32(&mut b, 3);
    push_u32(&mut b, MH_EXECUTE);
    push_u32(&mut b, n_cmds);
    push_u32(&mut b, size_of_cmds);
    push_u32(&mut b, 0x85);
    push_u32(&mut b, 0);
    b
}

fn name16(name: &[u8]) -> [u8; 16] {
    let mut a = [0u8; 16];
    a[..name.len()].copy_from_slice(name);
    a
}

fn segment_cmd(name: &[u8], nsects: u32) -> Vec<u8> {
    let mut b = Vec::new();
    push_u32(&mut b, LC_SEGMENT_64);
    push_u32(&mut b, 72 + 80 * nsects);
    b.extend_from_slice(&name16(name));
    push_u64(&mut b, 0x1_0000_0000);
    push_u64(&mut b, 0x4000);
    push_u64(&mut b, 0);
    push_u64(&mut b, 0x4000);
    push_u32(&mut b, 5);
    push_u32(&mut b, 0xFFFF_FFFF);
    push_u32(&mut b, nsects);
    push_u32(&mut b, 0);
    for i in 0..nsects {
        b.extend_from_slice(&name16(b"__text"));
        b.extend_from_slice(&name16(name));
        push_u64(&mut b, 0x1_0000_1000 + i as u64);
        push_u64(&mut b, 0x20);
        push_u32(&mut b, 0x1000 + i);
        push_u32(&mut b, 4);
        push_u32(&mut b, 0);
        push_u32(&mut b, 0);
        push_u32(&mut b, 0x8000_0400);
        push_u32(&mut b, 0);
        push_u32(&mut b, 0);
        push_u32(&mut b, 0);
    }
    b
}

#[test]
fn parse_header_reads_fields() {
    let b = header(3, 100);
    let h = parse_header(&b).unwrap();
    assert_eq!(h.magic, MH_MAGIC_64);
    assert_eq!(h.cpu_type, CPU_TYPE_X86_64);
    assert_eq!(h.cpu_subtype, 3);
    assert_eq!(h.file_type, MH_EXECUTE);
    assert_eq!(h.n_cmds, 3);
    assert_eq!(h.size_of_cmds, 100);
    assert_eq!(h.flags, 0x85);
}

#[test]
fn parse_header_errors() {
    assert_eq!(parse_header(&[0xCF, 0xFA, 0xED]).unwrap_err(), ParseError::UnexpectedEof);
    let mut b = header(0, 0);
    b[0..4].copy_from_slice(&FAT_MAGIC.to_le_bytes());
    assert_eq!(parse_header(&b).unwrap_err(), ParseError::UnrecognisedMagic(FAT_MAGIC));
    b[0..4].copy_from_slice(&MH_CIGAM_64.to_le_bytes());
    assert_eq!(parse_header(&b).unwrap_err(), ParseError::UnrecognisedMagic(MH_CIGAM_64));
    // Right magic, but the header is cut short.
    let short = &header(0, 0)[..20];
    assert_eq!(parse_header(short).unwrap_err(), ParseError::UnexpectedEof);
    assert_eq!(load_commands(short).err(), Some(ParseError::UnexpectedEof));
}

#[test]
fn walks_all_command_kinds() {
    let mut cmds = Vec::new();
    cmds.extend_from_slice(&segment_cmd(b"__TEXT", 2));
    // LC_MAIN
    push_u32(&mut cmds, LC_MAIN);
    push_u32(&mut cmds, 24);
    push_u64(&mut cmds, 0x3f50);
    push_u64(&mut cmds, 0);
    // LC_UUID
    push_u32(&mut cmds, LC_UUID);
    push_u32(&mut cmds, 24);
    cmds.extend_from_slice(&[1, 2, 3, 4, 5, 6, 7, 8, 9, 10, 11, 12, 13, 14, 15, 16]);
    // LC_LOAD_DYLIB
    push_u32(&mut cmds, LC_LOAD_DYLIB);
    push_u32(&mut cmds, 32);
    push_u32(&mut cmds, 24); // name offset
    push_u32(&mut cmds, 2); // timestamp
    push_u32(&mut cmds, 0x0005_0000); // current version
    push_u32(&mut cmds, 0x0001_0000); // compatibility version
    cmds.extend_from_slice(b"libSys\0\0");
    // LC_DYLD_INFO_ONLY
    push_u32(&mut cmds, LC_DYLD_INFO_ONLY);
    push_u32(&mut cmds, 48);
    for v in [0x100u32, 0x10, 0x200, 0x20, 0x300, 0x30, 0x400, 0x40, 0x500, 0x50] {
        push_u32(&mut cmds, v);
    }
    // LC_SYMTAB, left undecoded
    push_u32(&mut cmds, LC_SYMTAB);
    push_u32(&mut cmds, 24);
    cmds.extend_from_slice(&[0u8; 16]);

    let mut b = header(6, cmds.len() as u32);
    b.extend_from_slice(&cmds);
    let mut it = load_commands(&b).unwrap();

    match it.next() {
        Some(Ok(LoadCommand::Segment(seg))) => {
            assert_eq!(seg.name, "__TEXT");
            assert_eq!(seg.vmaddr, 0x1_0000_0000);
            assert_eq!(seg.vmsize, 0x4000);
            assert_eq!(seg.fileoff, 0);
            assert_eq!(seg.filesize, 0x4000);
            assert_eq!(seg.maxprot, 5);
            assert_eq!(seg.initprot, -1);
            assert_eq!(seg.sections.len(), 2);
            assert_eq!(&seg.sections[1].sectname[..6], b"__text");
            assert_eq!(seg.sections[1].addr, 0x1_0000_1001);
            assert_eq!(seg.sections[1].offset, 0x1001);
            assert_eq!(seg.sections[0].flags, 0x8000_0400);
        }
        other => panic!("expected a segment, got {:?}", other),
    }
    match it.next() {
        Some(Ok(LoadCommand::Main { entryoff, stacksize })) => {
            assert_eq!(entryoff, 0x3f50);
            assert_eq!(stacksize, 0);
        }
        other => panic!("expected LC_MAIN, got {:?}", other),
    }
    match it.next() {
        Some(Ok(LoadCommand::Uuid(u))) => assert_eq!(u, [1, 2, 3, 4, 5, 6, 7, 8, 9, 10, 11, 12, 13, 14, 15, 16]),
        other => panic!("expected LC_UUID, got {:?}", other),
    }
    match it.next() {
        Some(Ok(LoadCommand::LoadDylib { name_offset, current_version })) => {
            assert_eq!(name_offset, 24);
            assert_eq!(current_version, 0x0005_0000);
        }
        other => panic!("expected LC_LOAD_DYLIB, got {:?}", other),
    }
    match it.next() {
        Some(Ok(LoadCommand::DyldInfo { rebase_off, bind_off, lazy_bind_off, export_off })) => {
            // rebase, bind, weak bind, lazy bind, export: offset then size each.
            assert_eq!((rebase_off, bind_off, lazy_bind_off, export_off), (0x100, 0x200, 0x400, 0x500));
        }
        other => panic!("expected LC_DYLD_INFO_ONLY, got {:?}", other),
    }
    match it.next() {
        Some(Ok(LoadCommand::Other { cmd, cmdsize })) => {
            assert_eq!(cmd, LC_SYMTAB);
            assert_eq!(cmdsize, 24);
        }
        other => panic!("expected an undecoded command, got {:?}", other),
    }
    assert!(it.next().is_none());
    assert!(it.next().is_none());
}

#[test]
fn segment_name_not_utf8_is_question_mark() {
    let mut cmd = segment_cmd(b"\xff\xfeBAD", 0);
    let mut b = header(1, cmd.len() as u32);
    b.append(&mut cmd);
    let mut it = load_commands(&b).unwrap();
    match it.next() {
        Some(Ok(LoadCommand::Segment(seg))) => {
            assert_eq!(seg.name, "?");
            assert!(seg.sections.is_empty());
        }
        other => panic!("expected a segment, got {:?}", other),
    }
}

#[test]
fn segment_name_fills_whole_field() {
    let mut cmd = segment_cmd(b"ABCDEFGHIJKLMNOP", 0);
    let mut b = header(1, cmd.len() as u32);
    b.append(&mut cmd);
    let mut it = load_commands(&b).unwrap();
    match it.next() {
        Some(Ok(LoadCommand::Segment(seg))) => assert_eq!(seg.name, "ABCDEFGHIJKLMNOP"),
        other => panic!("expected a segment, got {:?}", other),
    }
}

#[test]
fn invalid_cmdsize_repeats_until_count_exhausted() {
    let mut b = header(2, 8);
    push_u32(&mut b, LC_SYMTAB);
    push_u32(&mut b, 6);
    let mut it = load_commands(&b).unwrap();
    assert_eq!(it.next().unwrap().unwrap_err(), ParseError::InvalidCmdSize);
    assert_eq!(it.next().unwrap().unwrap_err(), ParseError::InvalidCmdSize);
    assert!(it.next().is_none());
}

#[test]
fn truncated_commands_are_eof() {
    // The command announces more bytes than the binary holds.
    let mut b = header(1, 16);
    push_u32(&mut b, LC_SYMTAB);
    push_u32(&mut b, 24);
    let mut it = load_commands(&b).unwrap();
    assert_eq!(it.next().unwrap().unwrap_err(), ParseError::UnexpectedEof);

    // No bytes left for the command prefix.
    let b = header(1, 0);
    let mut it = load_commands(&b).unwrap();
    assert_eq!(it.next().unwrap().unwrap_err(), ParseError::UnexpectedEof);

    // A segment that declares more sections than its cmdsize holds.
    let mut cmd = segment_cmd(b"__DATA", 1);
    cmd[64..68].copy_from_slice(&3u32.to_le_bytes());
    let mut b = header(1, cmd.len() as u32);
    b.append(&mut cmd);
    let mut it = load_commands(&b).unwrap();
    assert_eq!(it.next().unwrap().unwrap_err(), ParseError::UnexpectedEof);

    // An LC_MAIN too short for its fields.
    let mut b = header(1, 16);
    push_u32(&mut b, LC_MAIN);
    push_u32(&mut b, 16);
    push_u64(&mut b, 1);
    let mut it = load_commands(&b).unwrap();
    assert_eq!(it.next().unwrap().unwrap_err(), ParseError::UnexpectedEof);
}

#[test]
fn zero_commands_yields_nothing() {
    let b = header(0, 0);
    let mut it = load_commands(&b).unwrap();
    assert!(it.next().is_none());
}

fn push_u32_be(b: &mut Vec<u8>, v: u32) {
    b.extend_from_slice(&v.to_be_bytes());
}

/// A universal binary with the given (cpu type, offset, size) table entries,
/// padded with zeros to `len` bytes.
fn fat(arches: &[(u32, u32, u32)], len: usize) -> Vec<u8> {
    let mut b = Vec::new();
    push_u32_be(&mut b, FAT_MAGIC);
    push_u32_be(&mut b, arches.len() as u32);
    for &(cpu, off, size) in arches {
        push_u32_be(&mut b, cpu);
        push_u32_be(&mut b, 0);
        push_u32_be(&mut b, off);
        push_u32_be(&mut b, size);
        push_u32_be(&mut b, 12);
    }
    b.resize(len, 0);
    b
}

fn main_image() -> Vec<u8> {
    let mut b = header(1, 24);
    push_u32(&mut b, LC_MAIN);
    push_u32(&mut b, 24);
    push_u64(&mut b, 0x1234);
    push_u64(&mut b, 0x8000);
    b
}

#[test]
fn fat_binary_loads_x86_64_slice() {
    let image = main_image();
    let n = image.len() as u32;
    // An arm64 slice of junk at 64, the x86-64 slice at 128.
    let mut b = fat(&[(CPU_TYPE_ARM64, 64, 16), (CPU_TYPE_X86_64, 128, n)], 128);
    b[64..80].copy_from_slice(&[0xAA; 16]);
    b.extend_from_slice(&image);
    assert_eq!(macho_image(&b).unwrap(), &image[..]);
    let mut it = load_commands(&b).unwrap();
    match it.next() {
        Some(Ok(LoadCommand::Main { entryoff, stacksize })) => {
            assert_eq!(entryoff, 0x1234);
            assert_eq!(stacksize, 0x8000);
        }
        other => panic!("expected LC_MAIN, got {:?}", other),
    }
    assert!(it.next().is_none());
}

#[test]
fn single_arch_image_is_whole_binary() {
    let image = main_image();
    assert_eq!(macho_image(&image).unwrap(), &image[..]);
    assert_eq!(macho_image(&image[..3]).unwrap_err(), ParseError::UnexpectedEof);
}

#[test]
fn fat_binary_errors() {
    // No x86-64 slice: the first slice's CPU type is reported.
    let b = fat(&[(CPU_TYPE_ARM64, 64, 16)], 80);
    assert_eq!(load_commands(&b).err(), Some(ParseError::UnsupportedArch(CPU_TYPE_ARM64)));
    // No slice at all.
    let b = fat(&[], 8);
    assert_eq!(load_commands(&b).err(), Some(ParseError::UnsupportedArch(0)));
    // The x86-64 slice runs past the end of the file.
    let b = fat(&[(CPU_TYPE_X86_64, 64, 100)], 100);
    assert_eq!(load_commands(&b).err(), Some(ParseError::UnexpectedEof));
    // The architecture table is cut short.
    let b = fat(&[(CPU_TYPE_X86_64, 64, 100)], 20);
    assert_eq!(load_commands(&b).err(), Some(ParseError::UnexpectedEof));
    // The header is cut short.
    assert_eq!(load_commands(&[0xCA, 0xFE, 0xBA, 0xBE, 0]).err(), Some(ParseError::UnexpectedEof));
    // The slice is there, but it is not a 64-bit Mach-O image.
    let mut b = fat(&[(CPU_TYPE_X86_64, 32, 32)], 64);
    b[32..36].copy_from_slice(&[1, 2, 3, 4]);
    assert_eq!(load_commands(&b).err(), Some(ParseError::UnrecognisedMagic(0x0403_0201)));
}
