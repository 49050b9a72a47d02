//! Mach-O loader — parser for 64-bit Mach-O binaries.  Load commands are
//! parsed lazily, and segment names borrow from the binary's bytes.
//!
//! Supports:
//! * Single-arch Mach-O 64 (`MH_MAGIC_64`)
//! * Universal / Fat binaries (`FAT_MAGIC`): the x86-64 slice is loaded
//! * Load commands: `LC_SEGMENT_64`, `LC_MAIN`, `LC_DYLD_INFO*`,
//!   `LC_SYMTAB`, `LC_DYSYMTAB`, `LC_LOAD_DYLIB`, `LC_ID_DYLIB`,
//!   `LC_UUID`, `LC_BUILD_VERSION`, `LC_SOURCE_VERSION`

use vstd::prelude::*;
use vstd::utf8::{decode_utf8, valid_utf8};

verus! {

// ── Magic numbers ─────────────────────────────────────────────────────────────

/// 64-bit Mach-O (little-endian).
pub const MH_MAGIC_64: u32 = 0xFEED_FACF;
/// 64-bit Mach-O (big-endian / byte-swapped).
pub const MH_CIGAM_64: u32 = 0xCFFA_EDFE;
/// Universal/fat binary (big-endian magic).
pub const FAT_MAGIC: u32 = 0xCAFE_BABE;
/// Universal/fat binary (little-endian magic).
pub const FAT_CIGAM: u32 = 0xBEBA_FECA;

// ── File type constants ───────────────────────────────────────────────────────

/// Demand-paged executable.
pub const MH_EXECUTE: u32 = 0x2;
/// Fixed-VM shared library.
pub const MH_FVMLIB: u32 = 0x3;
/// Dynamically-bound shared library.
pub const MH_DYLIB: u32 = 0x6;
/// Dynamically-bound bundle.
pub const MH_BUNDLE: u32 = 0x8;

// ── CPU type / subtype ────────────────────────────────────────────────────────

pub const CPU_TYPE_X86_64: u32 = 0x0100_0007;
pub const CPU_TYPE_ARM64: u32 = 0x0100_000C;

// ── Load-command identifiers ──────────────────────────────────────────────────

pub const LC_SEGMENT_64: u32 = 0x19;
pub const LC_SYMTAB: u32 = 0x2;
pub const LC_DYSYMTAB: u32 = 0xB;
pub const LC_LOAD_DYLIB: u32 = 0xC;
pub const LC_ID_DYLIB: u32 = 0xD;
pub const LC_MAIN: u32 = 0x8000_0028;
pub const LC_DYLD_INFO: u32 = 0x22;
pub const LC_DYLD_INFO_ONLY: u32 = 0x8000_0022;
pub const LC_UUID: u32 = 0x1B;
pub const LC_BUILD_VERSION: u32 = 0x32;
pub const LC_SOURCE_VERSION: u32 = 0x2A;

// ── Error type ───────────────────────────────────────────────────────────────

/// Errors produced by the Mach-O parser.
#[derive(Debug, Clone, Copy, PartialEq, Eq, Structural)]
pub enum ParseError {
    /// The byte slice is too short to contain the requested structure.
    UnexpectedEof,
    /// The magic number does not correspond to a supported Mach-O format.
    UnrecognisedMagic(u32),
    /// A load command's `cmdsize` is too small or not aligned.
    InvalidCmdSize,
    /// The binary's CPU architecture is not supported.
    UnsupportedArch(u32),
    /// A string offset points outside the binary.
    InvalidStringOffset,
}

// ── Raw on-disk structures ────────────────────────────────────────────────────
//
// All multi-byte fields are stored little-endian, the byte order of the
// x86-64 and arm64 targets this parser serves.

/// Size in bytes of [`MachHeader64`] on disk.
pub const MACH_HEADER_64_SIZE: usize = 32;
/// Size in bytes of [`LoadCommandHeader`] on disk.
pub const LOAD_COMMAND_HEADER_SIZE: usize = 8;
/// Size in bytes of [`SegmentCommand64`] on disk.
pub const SEGMENT_COMMAND_64_SIZE: usize = 72;
/// Size in bytes of [`Section64Raw`] on disk.
pub const SECTION_64_SIZE: usize = 80;
/// Size in bytes of [`FatHeader`] on disk.
pub const FAT_HEADER_SIZE: usize = 8;
/// Size in bytes of [`FatArch`] on disk.
pub const FAT_ARCH_SIZE: usize = 20;
/// Size in bytes of [`EntryPointCommand`] on disk.
pub const ENTRY_POINT_COMMAND_SIZE: usize = 24;

/// 64-bit Mach-O file header.
#[derive(Debug, Clone, Copy)]
pub struct MachHeader64 {
    pub magic: u32,
    pub cpu_type: u32,
    pub cpu_subtype: u32,
    pub file_type: u32,
    pub n_cmds: u32,
    pub size_of_cmds: u32,
    pub flags: u32,
    pub _reserved: u32,
}

/// Generic load-command prefix (8 bytes).
#[derive(Debug, Clone, Copy)]
pub struct LoadCommandHeader {
    pub cmd: u32,
    pub cmdsize: u32,
}

/// `LC_SEGMENT_64` load command.
#[derive(Debug, Clone, Copy)]
pub struct SegmentCommand64 {
    pub cmd: u32,
    pub cmdsize: u32,
    pub segname: [u8; 16],
    pub vmaddr: u64,
    pub vmsize: u64,
    pub fileoff: u64,
    pub filesize: u64,
    pub maxprot: i32,
    pub initprot: i32,
    pub nsects: u32,
    pub flags: u32,
}

/// `section_64` descriptor within an `LC_SEGMENT_64`.
#[derive(Debug, Clone, Copy)]
pub struct Section64Raw {
    pub sectname: [u8; 16],
    pub segname: [u8; 16],
    pub addr: u64,
    pub size: u64,
    pub offset: u32,
    pub align: u32,
    pub reloff: u32,
    pub nreloc: u32,
    pub flags: u32,
    pub _reserved1: u32,
    pub _reserved2: u32,
    pub _reserved3: u32,
}

/// `LC_MAIN` load command.
#[derive(Debug, Clone, Copy)]
pub struct EntryPointCommand {
    pub cmd: u32,
    pub cmdsize: u32,
    /// File offset of the main() function.
    pub entryoff: u64,
    /// Initial stack size (0 = use default).
    pub stacksize: u64,
}

/// Fat (universal binary) header.
#[derive(Debug, Clone, Copy)]
pub struct FatHeader {
    pub magic: u32,
    pub n_fat_arch: u32,
}

/// Fat architecture descriptor.
#[derive(Debug, Clone, Copy)]
pub struct FatArch {
    pub cpu_type: u32,
    pub cpu_subtype: u32,
    pub offset: u32,
    pub size: u32,
    pub align: u32,
}

// ── High-level parsed representations ────────────────────────────────────────

/// A parsed `LC_SEGMENT_64` including its sections.
#[derive(Debug)]
pub struct Segment64<'a> {
    pub name: &'a str,
    pub vmaddr: u64,
    pub vmsize: u64,
    pub fileoff: u64,
    pub filesize: u64,
    pub maxprot: i32,
    pub initprot: i32,
    pub sections: Vec<Section64Raw>,
}

/// A parsed section descriptor.
#[derive(Debug)]
pub struct Section64<'a> {
    pub sectname: &'a str,
    pub segname: &'a str,
    pub addr: u64,
    pub size: u64,
    pub offset: u32,
}

/// A parsed Mach-O load command.
#[derive(Debug)]
pub enum LoadCommand<'a> {
    Segment(Segment64<'a>),
    Main { entryoff: u64, stacksize: u64 },
    Uuid([u8; 16]),
    LoadDylib { name_offset: u32, current_version: u32 },
    DyldInfo { rebase_off: u32, bind_off: u32, lazy_bind_off: u32, export_off: u32 },
    Other { cmd: u32, cmdsize: u32 },
}

// ── Byte-level model ─────────────────────────────────────────────────────────

/// The little-endian `u32` stored in `b` at `off`.
pub open spec fn le_u32(b: Seq<u8>, off: int) -> int {
    b[off] as int + 256 * b[off + 1] + 65536 * b[off + 2] + 16777216 * b[off + 3]
}

/// The little-endian `u64` stored in `b` at `off`.
pub open spec fn le_u64(b: Seq<u8>, off: int) -> int {
    le_u32(b, off) + 4294967296 * le_u32(b, off + 4)
}

/// The header that the first bytes of `b` encode.
pub open spec fn header_at(b: Seq<u8>) -> MachHeader64 {
    MachHeader64 {
        magic: le_u32(b, 0) as u32,
        cpu_type: le_u32(b, 4) as u32,
        cpu_subtype: le_u32(b, 8) as u32,
        file_type: le_u32(b, 12) as u32,
        n_cmds: le_u32(b, 16) as u32,
        size_of_cmds: le_u32(b, 20) as u32,
        flags: le_u32(b, 24) as u32,
        _reserved: le_u32(b, 28) as u32,
    }
}

/// What parsing the Mach-O header of `b` gives.
pub open spec fn spec_parse_header(b: Seq<u8>) -> Result<MachHeader64, ParseError> {
    if b.len() < 4 {
        Err(ParseError::UnexpectedEof)
    } else if le_u32(b, 0) != MH_MAGIC_64 {
        Err(ParseError::UnrecognisedMagic(le_u32(b, 0) as u32))
    } else if b.len() < MACH_HEADER_64_SIZE {
        Err(ParseError::UnexpectedEof)
    } else {
        Ok(header_at(b))
    }
}


/// The big-endian `u32` stored in `b` at `off`, the byte order of the fat
/// header and of its architecture table.
pub open spec fn be_u32(b: Seq<u8>, off: int) -> int {
    16777216 * b[off] + 65536 * b[off + 1] + 256 * b[off + 2] + b[off + 3] as int
}

/// `b` starts with the fat magic: it is a universal binary.
pub open spec fn is_fat(b: Seq<u8>) -> bool {
    b.len() >= 4 && be_u32(b, 0) == FAT_MAGIC
}

/// The offset of entry `k` of the fat architecture table.
pub open spec fn fat_arch_offset(k: int) -> int {
    FAT_HEADER_SIZE + FAT_ARCH_SIZE * k
}

/// The fat architecture descriptor stored in `b` at `off`.
pub open spec fn fat_arch_at(b: Seq<u8>, off: int) -> FatArch {
    FatArch {
        cpu_type: be_u32(b, off) as u32,
        cpu_subtype: be_u32(b, off + 4) as u32,
        offset: be_u32(b, off + 8) as u32,
        size: be_u32(b, off + 12) as u32,
        align: be_u32(b, off + 16) as u32,
    }
}

/// The index of the first of the first `n` table entries of the universal
/// binary `b`, at or after `k`, that describes an x86-64 slice, or `n` when
/// there is none.
pub open spec fn first_x86_64_arch(b: Seq<u8>, n: int, k: int) -> int
    decreases n - k,
{
    if k >= n {
        n
    } else if be_u32(b, fat_arch_offset(k)) == CPU_TYPE_X86_64 {
        k
    } else {
        first_x86_64_arch(b, n, k + 1)
    }
}

/// Where the Mach-O image to load lies in `b`, as a start and an end: the
/// whole of `b` for a single-architecture binary, the x86-64 slice for a
/// universal one.  A universal binary whose header or architecture table is
/// cut short, or whose x86-64 slice runs past its end, is `UnexpectedEof`;
/// one without an x86-64 slice is `UnsupportedArch`, with the CPU type of
/// its first slice (0 when it has none).
pub open spec fn spec_macho_image(b: Seq<u8>) -> Result<(int, int), ParseError> {
    if b.len() < 4 {
        Err(ParseError::UnexpectedEof)
    } else if !is_fat(b) {
        Ok((0, b.len() as int))
    } else if b.len() < FAT_HEADER_SIZE {
        Err(ParseError::UnexpectedEof)
    } else {
        let n = be_u32(b, 4);
        if fat_arch_offset(n) > b.len() {
            Err(ParseError::UnexpectedEof)
        } else {
            let k = first_x86_64_arch(b, n, 0);
            if k == n {
                Err(ParseError::UnsupportedArch(if n == 0 { 0 } else { be_u32(b, FAT_HEADER_SIZE as int) as u32 }))
            } else {
                let arch = fat_arch_at(b, fat_arch_offset(k));
                if arch.offset + arch.size > b.len() {
                    Err(ParseError::UnexpectedEof)
                } else {
                    Ok((arch.offset as int, arch.offset + arch.size))
                }
            }
        }
    }
}

/// The index of the first zero byte of `b` at or after `from`, or the length
/// of `b` when there is none.
pub open spec fn first_nul(b: Seq<u8>, from: int) -> int
    decreases b.len() - from,
{
    if from >= b.len() {
        b.len() as int
    } else if b[from] == 0 {
        from
    } else {
        first_nul(b, from + 1)
    }
}

/// The bytes of a segment command's 16-byte name field up to its first NUL.
pub open spec fn segment_name_bytes(cmd: Seq<u8>) -> Seq<u8> {
    let field = cmd.subrange(8, 24);
    field.take(first_nul(field, 0))
}

/// The segment name that the parser reports: the name bytes read as UTF-8,
/// or `"?"` when they are not valid UTF-8.
pub open spec fn segment_name(cmd: Seq<u8>) -> Seq<char> {
    let raw = segment_name_bytes(cmd);
    if valid_utf8(raw) {
        decode_utf8(raw)
    } else {
        seq!['?']
    }
}

/// `sec` is the section descriptor stored in `b` at `off`.
pub open spec fn section_matches(sec: Section64Raw, b: Seq<u8>, off: int) -> bool {
    &&& sec.sectname@ == b.subrange(off, off + 16)
    &&& sec.segname@ == b.subrange(off + 16, off + 32)
    &&& sec.addr == le_u64(b, off + 32)
    &&& sec.size == le_u64(b, off + 40)
    &&& sec.offset == le_u32(b, off + 48)
    &&& sec.align == le_u32(b, off + 52)
    &&& sec.reloff == le_u32(b, off + 56)
    &&& sec.nreloc == le_u32(b, off + 60)
    &&& sec.flags == le_u32(b, off + 64)
    &&& sec._reserved1 == le_u32(b, off + 68)
    &&& sec._reserved2 == le_u32(b, off + 72)
    &&& sec._reserved3 == le_u32(b, off + 76)
}

/// The number of sections that the segment command `cmd` declares.
pub open spec fn segment_nsects(cmd: Seq<u8>) -> int {
    le_u32(cmd, 64)
}

/// `cmd` holds a whole segment command together with all its sections.
pub open spec fn segment_fits(cmd: Seq<u8>) -> bool {
    &&& cmd.len() >= SEGMENT_COMMAND_64_SIZE
    &&& cmd.len() >= SEGMENT_COMMAND_64_SIZE + SECTION_64_SIZE * segment_nsects(cmd)
}

/// `seg` is the segment that the segment command `cmd` describes.
pub open spec fn segment_matches(seg: Segment64, cmd: Seq<u8>) -> bool {
    &&& seg.name@ == segment_name(cmd)
    &&& seg.vmaddr == le_u64(cmd, 24)
    &&& seg.vmsize == le_u64(cmd, 32)
    &&& seg.fileoff == le_u64(cmd, 40)
    &&& seg.filesize == le_u64(cmd, 48)
    &&& seg.maxprot == (le_u32(cmd, 56) as u32) as i32
    &&& seg.initprot == (le_u32(cmd, 60) as u32) as i32
    &&& seg.sections@.len() == segment_nsects(cmd)
    &&& forall|i: int|
        0 <= i < seg.sections@.len() ==> section_matches(
            #[trigger] seg.sections@[i],
            cmd,
            SEGMENT_COMMAND_64_SIZE + SECTION_64_SIZE * i,
        )
}

/// `cmd` identifies a dylib command.
pub open spec fn is_dylib_cmd(c: int) -> bool {
    c == LC_LOAD_DYLIB || c == LC_ID_DYLIB
}

/// `cmd` identifies a dyld-info command.
pub open spec fn is_dyld_info_cmd(c: int) -> bool {
    c == LC_DYLD_INFO || c == LC_DYLD_INFO_ONLY
}

/// Why the body of the load command `cmd` (all its `cmdsize` bytes) cannot be
/// decoded, if it cannot: its kind needs more bytes than it holds.
pub open spec fn command_body_error(cmd: Seq<u8>) -> Option<ParseError> {
    let c = le_u32(cmd, 0);
    if c == LC_SEGMENT_64 {
        if segment_fits(cmd) { None } else { Some(ParseError::UnexpectedEof) }
    } else if c == LC_MAIN || c == LC_UUID || is_dylib_cmd(c) {
        if cmd.len() >= 24 { None } else { Some(ParseError::UnexpectedEof) }
    } else if is_dyld_info_cmd(c) {
        if cmd.len() >= 48 { None } else { Some(ParseError::UnexpectedEof) }
    } else {
        None
    }
}

/// `lc` is the load command that the bytes `cmd` encode.  Fields are read
/// where `<mach-o/loader.h>` lays them out: a `dylib_command` holds the
/// name offset at 8, the timestamp at 12 and the current version at 16; a
/// `dyld_info_command` holds the rebase, bind, weak-bind, lazy-bind and
/// export offset/size pairs from 8 on, 8 bytes apart.
pub open spec fn command_matches(lc: LoadCommand, cmd: Seq<u8>) -> bool {
    let c = le_u32(cmd, 0);
    if c == LC_SEGMENT_64 {
        lc matches LoadCommand::Segment(seg) && segment_matches(seg, cmd)
    } else if c == LC_MAIN {
        lc == LoadCommand::Main { entryoff: le_u64(cmd, 8) as u64, stacksize: le_u64(cmd, 16) as u64 }
    } else if c == LC_UUID {
        lc matches LoadCommand::Uuid(uuid) && uuid@ == cmd.subrange(8, 24)
    } else if is_dylib_cmd(c) {
        lc == LoadCommand::LoadDylib {
            name_offset: le_u32(cmd, 8) as u32,
            current_version: le_u32(cmd, 16) as u32,
        }
    } else if is_dyld_info_cmd(c) {
        lc == LoadCommand::DyldInfo {
            rebase_off: le_u32(cmd, 8) as u32,
            bind_off: le_u32(cmd, 16) as u32,
            lazy_bind_off: le_u32(cmd, 32) as u32,
            export_off: le_u32(cmd, 40) as u32,
        }
    } else {
        lc == LoadCommand::Other { cmd: c as u32, cmdsize: le_u32(cmd, 4) as u32 }
    }
}

/// Parsing the load command of `b` that starts at `off`: the offset just past
/// it, or the error that stops it.
pub open spec fn spec_command_at(b: Seq<u8>, off: int) -> Result<int, ParseError> {
    if off + LOAD_COMMAND_HEADER_SIZE > b.len() {
        Err(ParseError::UnexpectedEof)
    } else {
        let size = le_u32(b, off + 4);
        if size < 8 || size % 4 != 0 {
            Err(ParseError::InvalidCmdSize)
        } else if off + size > b.len() {
            Err(ParseError::UnexpectedEof)
        } else {
            match command_body_error(b.subrange(off, off + size)) {
                Some(e) => Err(e),
                None => Ok(off + size),
            }
        }
    }
}

/// A load command is decoded from its own `cmdsize` bytes alone: two
/// binaries that hold the same bytes from the command's offset to its end
/// give the same outcome there, and (by `next`'s contract, which decodes
/// the command from exactly those bytes) the same command.
pub proof fn lemma_command_reads_own_bytes(b1: Seq<u8>, b2: Seq<u8>, off: int)
    requires
        0 <= off,
        off + LOAD_COMMAND_HEADER_SIZE <= b1.len(),
        le_u32(b1, off + 4) >= LOAD_COMMAND_HEADER_SIZE,
        le_u32(b1, off + 4) % 4 == 0,
        off + le_u32(b1, off + 4) <= b1.len(),
        off + le_u32(b1, off + 4) <= b2.len(),
        b1.subrange(off, off + le_u32(b1, off + 4)) == b2.subrange(off, off + le_u32(b1, off + 4)),
    ensures
        spec_command_at(b1, off) == spec_command_at(b2, off),
        spec_command_at(b1, off) matches Ok(end) ==> b1.subrange(off, end) == b2.subrange(off, end),
{
    let size = le_u32(b1, off + 4);
    assert forall|k: int| 0 <= k < size implies #[trigger] b1[off + k] == b2[off + k] by {
        assert(b1.subrange(off, off + size)[k] == b2.subrange(off, off + size)[k]);
    }
    assert(b1[off + 4] == b2[off + 4]);
    assert(b1[off + 5] == b2[off + 5]);
    assert(b1[off + 6] == b2[off + 6]);
    assert(b1[off + 7] == b2[off + 7]);
    assert(le_u32(b2, off + 4) == size);
}

/// A load command is refused as `InvalidCmdSize` exactly when its prefix is
/// in the binary and its `cmdsize` is below the 8-byte prefix or not a
/// multiple of 4: no other size is refused for being too large.
pub proof fn lemma_invalid_cmdsize_exactly(b: Seq<u8>, off: int)
    requires
        0 <= off,
    ensures
        spec_command_at(b, off) == Err::<int, ParseError>(ParseError::InvalidCmdSize) <==> (off + 8
            <= b.len() && (le_u32(b, off + 4) < 8 || le_u32(b, off + 4) % 4 != 0)),
{
}

/// A segment command whose `cmdsize` is a multiple of 4, holds the command
/// and its `nsects` section descriptors, and lies within the binary, is
/// walked past whole, however large it is, and is yielded as a segment
/// with `nsects` sections.
pub proof fn lemma_segment_command_accepted(b: Seq<u8>, off: int)
    requires
        0 <= off,
        off + SEGMENT_COMMAND_64_SIZE <= b.len(),
        le_u32(b, off) == LC_SEGMENT_64,
        le_u32(b, off + 4) % 4 == 0,
        le_u32(b, off + 4) >= SEGMENT_COMMAND_64_SIZE + SECTION_64_SIZE * le_u32(b, off + 64),
        off + le_u32(b, off + 4) <= b.len(),
    ensures
        spec_command_at(b, off) == Ok::<int, ParseError>(off + le_u32(b, off + 4)),
        forall|lc: LoadCommand|
            #[trigger] command_matches(lc, b.subrange(off, off + le_u32(b, off + 4))) ==> (lc matches LoadCommand::Segment(
                seg,
            ) && seg.sections@.len() == le_u32(b, off + 64)),
{
    let size = le_u32(b, off + 4);
    let cmd = b.subrange(off, off + size);
    assert(size >= SEGMENT_COMMAND_64_SIZE);
    assert(cmd[0] == b[off] && cmd[1] == b[off + 1] && cmd[2] == b[off + 2] && cmd[3] == b[off + 3]);
    assert(cmd[64] == b[off + 64] && cmd[65] == b[off + 65] && cmd[66] == b[off + 66] && cmd[67]
        == b[off + 67]);
    assert(le_u32(cmd, 0) == LC_SEGMENT_64);
    assert(le_u32(cmd, 64) == le_u32(b, off + 64));
    assert(segment_fits(cmd));
}

/// The architecture-table search stops at the first entry whose CPU type is
/// exactly x86-64, or at the end of the table.
proof fn lemma_first_x86_64_arch(b: Seq<u8>, n: int, k: int)
    requires
        0 <= k <= n,
    ensures
        k <= first_x86_64_arch(b, n, k) <= n,
        first_x86_64_arch(b, n, k) < n ==> be_u32(b, fat_arch_offset(first_x86_64_arch(b, n, k)))
            == CPU_TYPE_X86_64,
        forall|j: int| k <= j < first_x86_64_arch(b, n, k) ==> be_u32(b, #[trigger] fat_arch_offset(j))
            != CPU_TYPE_X86_64,
    decreases n - k,
{
    if k < n && be_u32(b, fat_arch_offset(k)) != CPU_TYPE_X86_64 {
        lemma_first_x86_64_arch(b, n, k + 1);
    }
}

/// The image loaded from a universal binary is the slice of its first
/// architecture entry whose CPU type is exactly `CPU_TYPE_X86_64` (an
/// entry of another type, such as 32-bit i386, is never picked); when the
/// table is whole and has no such entry, the binary is refused as
/// `UnsupportedArch`; when it has one whose slice lies within the binary,
/// that slice is loaded.
pub proof fn lemma_fat_slice_is_first_x86_64(b: Seq<u8>)
    requires
        is_fat(b),
        b.len() >= FAT_HEADER_SIZE,
    ensures
        spec_macho_image(b) matches Ok((lo, hi)) ==> exists|k: int|
            0 <= k < be_u32(b, 4) && fat_arch_offset(be_u32(b, 4)) <= b.len() && be_u32(
                b,
                #[trigger] fat_arch_offset(k),
            ) == CPU_TYPE_X86_64 && (forall|j: int|
                0 <= j < k ==> be_u32(b, #[trigger] fat_arch_offset(j)) != CPU_TYPE_X86_64) && lo == be_u32(
                b,
                fat_arch_offset(k) + 8,
            ) && hi == lo + be_u32(b, fat_arch_offset(k) + 12),
        fat_arch_offset(be_u32(b, 4)) <= b.len() && (forall|j: int|
            0 <= j < be_u32(b, 4) ==> be_u32(b, #[trigger] fat_arch_offset(j)) != CPU_TYPE_X86_64)
            ==> spec_macho_image(b) matches Err(ParseError::UnsupportedArch(_)),
        forall|k: int|
            0 <= k < be_u32(b, 4) && fat_arch_offset(be_u32(b, 4)) <= b.len() && be_u32(
                b,
                #[trigger] fat_arch_offset(k),
            ) == CPU_TYPE_X86_64 && (forall|j: int|
                0 <= j < k ==> be_u32(b, #[trigger] fat_arch_offset(j)) != CPU_TYPE_X86_64)
                && be_u32(b, fat_arch_offset(k) + 8) + be_u32(b, fat_arch_offset(k) + 12) <= b.len()
                ==> spec_macho_image(b) == Ok::<(int, int), ParseError>(
                (be_u32(b, fat_arch_offset(k) + 8), be_u32(b, fat_arch_offset(k) + 8) + be_u32(
                    b,
                    fat_arch_offset(k) + 12,
                )),
            ),
{
    let n = be_u32(b, 4);
    lemma_first_x86_64_arch(b, n, 0);
    let f = first_x86_64_arch(b, n, 0);
    if fat_arch_offset(n) <= b.len() && f < n {
        assert(be_u32(b, fat_arch_offset(f)) == CPU_TYPE_X86_64);
        assert forall|k: int|
            0 <= k < n && be_u32(b, #[trigger] fat_arch_offset(k)) == CPU_TYPE_X86_64 && (forall|j: int|
                0 <= j < k ==> be_u32(b, #[trigger] fat_arch_offset(j)) != CPU_TYPE_X86_64) implies k
            == f by {
            if k < f {
            } else if f < k {
                assert(be_u32(b, fat_arch_offset(f)) != CPU_TYPE_X86_64);
            }
        }
    }
    if fat_arch_offset(n) <= b.len() && (forall|j: int|
        0 <= j < n ==> be_u32(b, #[trigger] fat_arch_offset(j)) != CPU_TYPE_X86_64) {
        if f < n {
            assert(be_u32(b, fat_arch_offset(f)) != CPU_TYPE_X86_64);
        }
    }
}

/// A load command that parses spans its whole `cmdsize`: at least the
/// 8-byte prefix, a multiple of 4 bytes, and within the binary, so the walk
/// always moves forward and never leaves the binary.
pub proof fn lemma_command_advances(b: Seq<u8>, off: int)
    requires
        0 <= off,
    ensures
        spec_command_at(b, off) matches Ok(end) ==> {
            &&& off + LOAD_COMMAND_HEADER_SIZE <= end <= b.len()
            &&& (end - off) % 4 == 0
            &&& end - off == le_u32(b, off + 4)
        },
{
}

// ── Parser ────────────────────────────────────────────────────────────────────

/// Read the little-endian `u32` at `off`.
fn read_u32_le(bytes: &[u8], off: usize) -> (r: u32)
    requires
        off + 4 <= bytes@.len(),
    ensures
        r == le_u32(bytes@, off as int),
{
    bytes[off] as u32 + (bytes[off + 1] as u32) * 256 + (bytes[off + 2] as u32) * 65536 + (
    bytes[off + 3] as u32) * 16777216
}

/// Read the little-endian `u64` at `off`.
fn read_u64_le(bytes: &[u8], off: usize) -> (r: u64)
    requires
        off + 8 <= bytes.len(),
    ensures
        r == le_u64(bytes@, off as int),
{
    let lo = read_u32_le(bytes, off);
    let hi = read_u32_le(bytes, off + 4);
    lo as u64 + (hi as u64) * 4294967296
}

/// Read the Mach-O header stored at the start of `bytes`.
fn read_mach_header(bytes: &[u8]) -> (r: Result<MachHeader64, ParseError>)
    ensures
        bytes@.len() < MACH_HEADER_64_SIZE ==> r == Err::<MachHeader64, ParseError>(ParseError::UnexpectedEof),
        bytes@.len() >= MACH_HEADER_64_SIZE ==> r == Ok::<MachHeader64, ParseError>(header_at(bytes@)),
{
    if bytes.len() < MACH_HEADER_64_SIZE {
        return Err(ParseError::UnexpectedEof);
    }
    Ok(MachHeader64 {
        magic: read_u32_le(bytes, 0),
        cpu_type: read_u32_le(bytes, 4),
        cpu_subtype: read_u32_le(bytes, 8),
        file_type: read_u32_le(bytes, 12),
        n_cmds: read_u32_le(bytes, 16),
        size_of_cmds: read_u32_le(bytes, 20),
        flags: read_u32_le(bytes, 24),
        _reserved: read_u32_le(bytes, 28),
    })
}


/// Read the big-endian `u32` at `off`.
fn read_u32_be(bytes: &[u8], off: usize) -> (r: u32)
    requires
        off + 4 <= bytes@.len(),
    ensures
        r == be_u32(bytes@, off as int),
{
    (bytes[off] as u32) * 16777216 + (bytes[off + 1] as u32) * 65536 + (bytes[off + 2] as u32)
        * 256 + bytes[off + 3] as u32
}

/// Read the fat header stored at the start of `bytes`.
fn read_fat_header(bytes: &[u8]) -> (r: FatHeader)
    requires
        FAT_HEADER_SIZE <= bytes@.len(),
    ensures
        r.magic == be_u32(bytes@, 0),
        r.n_fat_arch == be_u32(bytes@, 4),
{
    FatHeader { magic: read_u32_be(bytes, 0), n_fat_arch: read_u32_be(bytes, 4) }
}

/// Read the fat architecture descriptor stored at `off`.
fn read_fat_arch(bytes: &[u8], off: usize) -> (r: FatArch)
    requires
        off + FAT_ARCH_SIZE <= bytes.len(),
    ensures
        r == fat_arch_at(bytes@, off as int),
{
    FatArch {
        cpu_type: read_u32_be(bytes, off),
        cpu_subtype: read_u32_be(bytes, off + 4),
        offset: read_u32_be(bytes, off + 8),
        size: read_u32_be(bytes, off + 12),
        align: read_u32_be(bytes, off + 16),
    }
}

/// The Mach-O image to load from `bytes`: `bytes` itself for a
/// single-architecture binary, its x86-64 slice for a universal binary.
pub fn macho_image<'a>(bytes: &'a [u8]) -> (r: Result<&'a [u8], ParseError>)
    ensures
        match spec_macho_image(bytes@) {
            Err(e) => r == Err::<&'a [u8], ParseError>(e),
            Ok((lo, hi)) => r matches Ok(img) && img@ == bytes@.subrange(lo, hi),
        },
{
    if bytes.len() < 4 {
        return Err(ParseError::UnexpectedEof);
    }
    if read_u32_be(bytes, 0) != FAT_MAGIC {
        assert(bytes@.subrange(0, bytes@.len() as int) =~= bytes@);
        return Ok(bytes);
    }
    if bytes.len() < FAT_HEADER_SIZE {
        return Err(ParseError::UnexpectedEof);
    }
    let header = read_fat_header(bytes);
    let n = header.n_fat_arch;
    let table_end: u64 = FAT_HEADER_SIZE as u64 + FAT_ARCH_SIZE as u64 * n as u64;
    if table_end > bytes.len() as u64 {
        return Err(ParseError::UnexpectedEof);
    }
    let mut k: u32 = 0;
    while k < n
        invariant
            k <= n,
            bytes@.len() >= FAT_HEADER_SIZE,
            be_u32(bytes@, 0) == FAT_MAGIC,
            n == be_u32(bytes@, 4),
            fat_arch_offset(n as int) <= bytes.len(),
            first_x86_64_arch(bytes@, n as int, 0) == first_x86_64_arch(bytes@, n as int, k as int),
        decreases n - k,
    {
        assert(FAT_ARCH_SIZE * k + FAT_ARCH_SIZE <= FAT_ARCH_SIZE * n) by (nonlinear_arith)
            requires
                k < n,
        ;
        let off: usize = FAT_HEADER_SIZE + FAT_ARCH_SIZE * (k as usize);
        assert(off == fat_arch_offset(k as int));
        let arch = read_fat_arch(bytes, off);
        if arch.cpu_type == CPU_TYPE_X86_64 {
            let end: u64 = arch.offset as u64 + arch.size as u64;
            if end > bytes.len() as u64 {
                return Err(ParseError::UnexpectedEof);
            }
            let lo = arch.offset as usize;
            let hi = end as usize;
            return Ok(&bytes[lo..hi]);
        }
        k += 1;
    }
    if n == 0 {
        Err(ParseError::UnsupportedArch(0))
    } else {
        Err(ParseError::UnsupportedArch(read_u32_be(bytes, FAT_HEADER_SIZE)))
    }
}

/// The trusted bridge to `core::str::from_utf8`: the bytes become a string
/// exactly when they are well-formed UTF-8, and that string holds the
/// characters they encode.
#[verifier::external_body]
fn str_from_utf8<'a>(bytes: &'a [u8]) -> (r: Option<&'a str>)
    ensures
        r is Some <==> valid_utf8(bytes@),
        r matches Some(s) ==> s@ == decode_utf8(bytes@),
{
    core::str::from_utf8(bytes).ok()
}

/// Copy the 16 bytes at `off`.
fn read_array16(bytes: &[u8], off: usize) -> (r: [u8; 16])
    requires
        off + 16 <= bytes.len(),
    ensures
        r@ == bytes@.subrange(off as int, off + 16),
{
    let mut r = [0u8; 16];
    let mut i: usize = 0;
    while i < 16
        invariant
            i <= 16,
            off + 16 <= bytes.len(),
            r@.len() == 16,
            forall|j: int| 0 <= j < i ==> r@[j] == bytes@[off + j],
        decreases 16 - i,
    {
        r[i] = bytes[off + i];
        i += 1;
    }
    assert(r@ =~= bytes@.subrange(off as int, off + 16));
    r
}

/// Read the section descriptor stored at `off`.
fn read_section(bytes: &[u8], off: usize) -> (r: Section64Raw)
    requires
        off + SECTION_64_SIZE <= bytes.len(),
    ensures
        section_matches(r, bytes@, off as int),
{
    Section64Raw {
        sectname: read_array16(bytes, off),
        segname: read_array16(bytes, off + 16),
        addr: read_u64_le(bytes, off + 32),
        size: read_u64_le(bytes, off + 40),
        offset: read_u32_le(bytes, off + 48),
        align: read_u32_le(bytes, off + 52),
        reloff: read_u32_le(bytes, off + 56),
        nreloc: read_u32_le(bytes, off + 60),
        flags: read_u32_le(bytes, off + 64),
        _reserved1: read_u32_le(bytes, off + 68),
        _reserved2: read_u32_le(bytes, off + 72),
        _reserved3: read_u32_le(bytes, off + 76),
    }
}

/// Read the generic load-command prefix stored at `offset`.
fn read_load_command_header(bytes: &[u8], offset: usize) -> (r: Result<LoadCommandHeader, ParseError>)
    requires
        offset <= bytes.len(),
    ensures
        offset + LOAD_COMMAND_HEADER_SIZE > bytes.len() ==> r == Err::<LoadCommandHeader, ParseError>(
            ParseError::UnexpectedEof,
        ),
        offset + LOAD_COMMAND_HEADER_SIZE <= bytes.len() ==> (r matches Ok(h) && h.cmd == le_u32(
            bytes@,
            offset as int,
        ) && h.cmdsize == le_u32(bytes@, offset + 4)),
{
    if bytes.len() - offset < LOAD_COMMAND_HEADER_SIZE {
        return Err(ParseError::UnexpectedEof);
    }
    Ok(LoadCommandHeader { cmd: read_u32_le(bytes, offset), cmdsize: read_u32_le(bytes, offset + 4) })
}

/// Read the `LC_SEGMENT_64` command stored at the start of `cmd`.
fn read_segment_command(cmd: &[u8]) -> (r: Result<SegmentCommand64, ParseError>)
    ensures
        cmd@.len() < SEGMENT_COMMAND_64_SIZE ==> r == Err::<SegmentCommand64, ParseError>(
            ParseError::UnexpectedEof,
        ),
        cmd@.len() >= SEGMENT_COMMAND_64_SIZE ==> (r matches Ok(sc) && {
            &&& sc.cmd == le_u32(cmd@, 0)
            &&& sc.cmdsize == le_u32(cmd@, 4)
            &&& sc.segname@ == cmd@.subrange(8, 24)
            &&& sc.vmaddr == le_u64(cmd@, 24)
            &&& sc.vmsize == le_u64(cmd@, 32)
            &&& sc.fileoff == le_u64(cmd@, 40)
            &&& sc.filesize == le_u64(cmd@, 48)
            &&& sc.maxprot == (le_u32(cmd@, 56) as u32) as i32
            &&& sc.initprot == (le_u32(cmd@, 60) as u32) as i32
            &&& sc.nsects == le_u32(cmd@, 64)
            &&& sc.flags == le_u32(cmd@, 68)
        }),
{
    if cmd.len() < SEGMENT_COMMAND_64_SIZE {
        return Err(ParseError::UnexpectedEof);
    }
    Ok(SegmentCommand64 {
        cmd: read_u32_le(cmd, 0),
        cmdsize: read_u32_le(cmd, 4),
        segname: read_array16(cmd, 8),
        vmaddr: read_u64_le(cmd, 24),
        vmsize: read_u64_le(cmd, 32),
        fileoff: read_u64_le(cmd, 40),
        filesize: read_u64_le(cmd, 48),
        maxprot: read_u32_le(cmd, 56) as i32,
        initprot: read_u32_le(cmd, 60) as i32,
        nsects: read_u32_le(cmd, 64),
        flags: read_u32_le(cmd, 68),
    })
}

/// Read the `LC_MAIN` command stored at the start of `cmd`.
fn read_entry_point(cmd: &[u8]) -> (r: Result<EntryPointCommand, ParseError>)
    ensures
        cmd@.len() < ENTRY_POINT_COMMAND_SIZE ==> r == Err::<EntryPointCommand, ParseError>(
            ParseError::UnexpectedEof,
        ),
        cmd@.len() >= ENTRY_POINT_COMMAND_SIZE ==> (r matches Ok(ep) && ep.cmd == le_u32(cmd@, 0)
            && ep.cmdsize == le_u32(cmd@, 4) && ep.entryoff == le_u64(cmd@, 8) && ep.stacksize
            == le_u64(cmd@, 16)),
{
    if cmd.len() < ENTRY_POINT_COMMAND_SIZE {
        return Err(ParseError::UnexpectedEof);
    }
    Ok(EntryPointCommand {
        cmd: read_u32_le(cmd, 0),
        cmdsize: read_u32_le(cmd, 4),
        entryoff: read_u64_le(cmd, 8),
        stacksize: read_u64_le(cmd, 16),
    })
}

/// Parse the Mach-O header at the start of `bytes`.
pub fn parse_header(bytes: &[u8]) -> (r: Result<MachHeader64, ParseError>)
    ensures
        r == spec_parse_header(bytes@),
{
    if bytes.len() < 4 {
        return Err(ParseError::UnexpectedEof);
    }
    let magic = read_u32_le(bytes, 0);
    match magic {
        MH_MAGIC_64 => {},
        MH_CIGAM_64 | FAT_MAGIC | FAT_CIGAM => return Err(ParseError::UnrecognisedMagic(magic)),
        other => return Err(ParseError::UnrecognisedMagic(other)),
    }
    read_mach_header(bytes)
}

/// Parse all load commands from a validated Mach-O binary: the binary
/// itself, or the x86-64 slice of a universal binary.
///
/// Returns a `LoadCommandIter` that parses the commands lazily rather than
/// allocating them all at once.
pub fn load_commands<'a>(bytes: &'a [u8]) -> (r: Result<LoadCommandIter<'a>, ParseError>)
    ensures
        match spec_macho_image(bytes@) {
            Err(e) => r == Err::<LoadCommandIter<'a>, ParseError>(e),
            Ok((lo, hi)) => match spec_parse_header(bytes@.subrange(lo, hi)) {
                Err(e) => r == Err::<LoadCommandIter<'a>, ParseError>(e),
                Ok(h) => r matches Ok(it) && it.bytes_view() == bytes@.subrange(lo, hi)
                    && it.offset() == MACH_HEADER_64_SIZE && it.remaining() == h.n_cmds,
            },
        },
{
    let image = match macho_image(bytes) {
        Ok(img) => img,
        Err(e) => return Err(e),
    };
    let header = match parse_header(image) {
        Ok(h) => h,
        Err(e) => return Err(e),
    };
    let start = MACH_HEADER_64_SIZE;
    Ok(LoadCommandIter { bytes: image, offset: start, remaining: header.n_cmds })
}

/// Lazy iterator over load commands in a Mach-O binary.
pub struct LoadCommandIter<'a> {
    bytes: &'a [u8],
    offset: usize,
    remaining: u32,
}

impl<'a> LoadCommandIter<'a> {
    #[verifier::type_invariant]
    spec fn offset_in_bounds(self) -> bool {
        self.offset <= self.bytes@.len()
    }

    /// The whole binary being walked.
    pub closed spec fn bytes_view(&self) -> Seq<u8> {
        self.bytes@
    }

    /// The offset of the next load command.
    pub closed spec fn offset(&self) -> int {
        self.offset as int
    }

    /// How many load commands are still to be yielded.
    pub closed spec fn remaining(&self) -> int {
        self.remaining as int
    }

    /// The next load command, parsed from the current offset: `None` once
    /// the header's `n_cmds` commands have been yielded.  A command that
    /// parses moves the offset past its `cmdsize` bytes; one that fails
    /// leaves the offset where it was, so that the error is reported again
    /// for each command still announced.
    pub fn next(&mut self) -> (r: Option<Result<LoadCommand<'a>, ParseError>>)
        ensures
            final(self).bytes_view() == old(self).bytes_view(),
            old(self).remaining() == 0 ==> r is None && final(self).offset() == old(self).offset()
                && final(self).remaining() == 0,
            old(self).remaining() > 0 ==> {
                &&& final(self).remaining() == old(self).remaining() - 1
                &&& r matches Some(res)
                &&& match spec_command_at(old(self).bytes_view(), old(self).offset()) {
                    Ok(end) => res matches Ok(lc) && command_matches(
                        lc,
                        old(self).bytes_view().subrange(old(self).offset(), end),
                    ) && final(self).offset() == end,
                    Err(e) => res == Err::<LoadCommand<'a>, ParseError>(e) && final(self).offset()
                        == old(self).offset(),
                }
            },
    {
        proof {
            use_type_invariant(&*self);
        }
        if self.remaining == 0 {
            return None;
        }
        self.remaining = self.remaining - 1;
        Some(self.parse_next())
    }

    fn parse_next(&mut self) -> (r: Result<LoadCommand<'a>, ParseError>)
        ensures
            final(self).bytes_view() == old(self).bytes_view(),
            final(self).remaining() == old(self).remaining(),
            match spec_command_at(old(self).bytes_view(), old(self).offset()) {
                Ok(end) => r matches Ok(lc) && command_matches(
                    lc,
                    old(self).bytes_view().subrange(old(self).offset(), end),
                ) && final(self).offset() == end,
                Err(e) => r == Err::<LoadCommand<'a>, ParseError>(e) && final(self).offset() == old(
                    self,
                ).offset(),
            },
    {
        proof {
            use_type_invariant(&*self);
        }
        let bytes: &'a [u8] = self.bytes;
        let offset = self.offset;
        let hdr = match read_load_command_header(bytes, offset) {
            Ok(h) => h,
            Err(e) => return Err(e),
        };
        if hdr.cmdsize < 8 || hdr.cmdsize % 4 != 0 {
            return Err(ParseError::InvalidCmdSize);
        }
        if hdr.cmdsize as usize > bytes.len() - offset {
            return Err(ParseError::UnexpectedEof);
        }
        let end = offset + hdr.cmdsize as usize;
        let cmd_bytes: &'a [u8] = &bytes[offset..end];
        let parsed = match hdr.cmd {
            LC_SEGMENT_64 => self.parse_segment64(cmd_bytes),
            LC_MAIN => self.parse_main(cmd_bytes),
            LC_UUID => self.parse_uuid(cmd_bytes),
            LC_LOAD_DYLIB | LC_ID_DYLIB => self.parse_dylib(cmd_bytes),
            LC_DYLD_INFO | LC_DYLD_INFO_ONLY => self.parse_dyld_info(cmd_bytes),
            _ => Ok(LoadCommand::Other { cmd: hdr.cmd, cmdsize: hdr.cmdsize }),
        };
        let lc = match parsed {
            Ok(lc) => lc,
            Err(e) => return Err(e),
        };
        self.offset = end;
        Ok(lc)
    }

    fn parse_segment64(&self, cmd: &'a [u8]) -> (r: Result<LoadCommand<'a>, ParseError>)
        ensures
            !segment_fits(cmd@) ==> r == Err::<LoadCommand<'a>, ParseError>(ParseError::UnexpectedEof),
            segment_fits(cmd@) ==> (r matches Ok(LoadCommand::Segment(seg)) && segment_matches(seg, cmd@)),
    {
        let sc = match read_segment_command(cmd) {
            Ok(sc) => sc,
            Err(e) => return Err(e),
        };

        // The segment name: the 16-byte field up to its first NUL.
        let segname_bytes: &'a [u8] = &cmd[8..24];
        let mut n: usize = 0;
        while n < 16 && segname_bytes[n] != 0
            invariant
                n <= 16,
                segname_bytes@.len() == 16,
                first_nul(segname_bytes@, 0) == first_nul(segname_bytes@, n as int),
            decreases 16 - n,
        {
            n += 1;
        }
        let raw_name: &'a [u8] = &segname_bytes[0..n];
        assert(raw_name@ == segment_name_bytes(cmd@));
        let name: &'a str = match str_from_utf8(raw_name) {
            Some(s) => s,
            None => "?",
        };
        proof {
            reveal_strlit("?");
        }

        // The sections follow the segment command itself.
        let sections_end: u64 = SEGMENT_COMMAND_64_SIZE as u64 + sc.nsects as u64
            * SECTION_64_SIZE as u64;
        if sections_end > cmd.len() as u64 {
            return Err(ParseError::UnexpectedEof);
        }
        let mut sections: Vec<Section64Raw> = Vec::new();
        let mut i: u32 = 0;
        while i < sc.nsects
            invariant
                i <= sc.nsects,
                sc.nsects == segment_nsects(cmd@),
                SEGMENT_COMMAND_64_SIZE + SECTION_64_SIZE * sc.nsects <= cmd.len(),
                sections@.len() == i,
                forall|j: int|
                    0 <= j < i ==> section_matches(
                        #[trigger] sections@[j],
                        cmd@,
                        SEGMENT_COMMAND_64_SIZE + SECTION_64_SIZE * j,
                    ),
            decreases sc.nsects - i,
        {
            let off = SEGMENT_COMMAND_64_SIZE + SECTION_64_SIZE * (i as usize);
            sections.push(read_section(cmd, off));
            i += 1;
        }

        assert(name@ == segment_name(cmd@));
        assert(sections@.len() == segment_nsects(cmd@));
        Ok(
            LoadCommand::Segment(
                Segment64 {
                    name,
                    vmaddr: sc.vmaddr,
                    vmsize: sc.vmsize,
                    fileoff: sc.fileoff,
                    filesize: sc.filesize,
                    maxprot: sc.maxprot,
                    initprot: sc.initprot,
                    sections,
                },
            ),
        )
    }

    fn parse_main(&self, cmd: &[u8]) -> (r: Result<LoadCommand<'a>, ParseError>)
        ensures
            cmd@.len() < 24 ==> r == Err::<LoadCommand<'a>, ParseError>(ParseError::UnexpectedEof),
            cmd@.len() >= 24 ==> r == Ok::<LoadCommand<'a>, ParseError>(
                LoadCommand::Main { entryoff: le_u64(cmd@, 8) as u64, stacksize: le_u64(cmd@, 16) as u64 },
            ),
    {
        let ep = match read_entry_point(cmd) {
            Ok(ep) => ep,
            Err(e) => return Err(e),
        };
        Ok(LoadCommand::Main { entryoff: ep.entryoff, stacksize: ep.stacksize })
    }

    fn parse_uuid(&self, cmd: &[u8]) -> (r: Result<LoadCommand<'a>, ParseError>)
        ensures
            cmd@.len() < 24 ==> r == Err::<LoadCommand<'a>, ParseError>(ParseError::UnexpectedEof),
            cmd@.len() >= 24 ==> (r matches Ok(LoadCommand::Uuid(uuid)) && uuid@ == cmd@.subrange(8, 24)),
    {
        if cmd.len() < 24 {
            return Err(ParseError::UnexpectedEof);
        }
        let uuid = read_array16(cmd, 8);
        Ok(LoadCommand::Uuid(uuid))
    }

    fn parse_dylib(&self, cmd: &[u8]) -> (r: Result<LoadCommand<'a>, ParseError>)
        ensures
            cmd@.len() < 24 ==> r == Err::<LoadCommand<'a>, ParseError>(ParseError::UnexpectedEof),
            cmd@.len() >= 24 ==> r == Ok::<LoadCommand<'a>, ParseError>(
                LoadCommand::LoadDylib {
                    name_offset: le_u32(cmd@, 8) as u32,
                    current_version: le_u32(cmd@, 16) as u32,
                },
            ),
    {
        if cmd.len() < 24 {
            return Err(ParseError::UnexpectedEof);
        }
        let name_offset = read_u32_le(cmd, 8);
        let current_version = read_u32_le(cmd, 16);
        Ok(LoadCommand::LoadDylib { name_offset, current_version })
    }

    fn parse_dyld_info(&self, cmd: &[u8]) -> (r: Result<LoadCommand<'a>, ParseError>)
        ensures
            cmd@.len() < 48 ==> r == Err::<LoadCommand<'a>, ParseError>(ParseError::UnexpectedEof),
            cmd@.len() >= 48 ==> r == Ok::<LoadCommand<'a>, ParseError>(
                LoadCommand::DyldInfo {
                    rebase_off: le_u32(cmd@, 8) as u32,
                    bind_off: le_u32(cmd@, 16) as u32,
                    lazy_bind_off: le_u32(cmd@, 32) as u32,
                    export_off: le_u32(cmd@, 40) as u32,
                },
            ),
    {
        if cmd.len() < 48 {
            return Err(ParseError::UnexpectedEof);
        }
        Ok(
            LoadCommand::DyldInfo {
                rebase_off: read_u32_le(cmd, 8),
                bind_off: read_u32_le(cmd, 16),
                lazy_bind_off: read_u32_le(cmd, 32),
                export_off: read_u32_le(cmd, 40),
            },
        )
    }
}

} // verus!
