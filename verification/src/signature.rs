//! The signature catalog: a deterministic, prefix-anchored classifier of
//! binary formats by magic number.
//!
//! Each recognized kind carries one or more signature patterns: ordered
//! sequences of byte matchers, each an exact byte, a single-byte wildcard,
//! or a fixed-length skip group (used where a length field sits in the
//! middle of a header, and for trailing boot-sector signatures).  Matching
//! compares numeric byte values positionally, anchored at offset zero; the
//! kinds are tried in one fixed, documented priority order and the first
//! pattern that matches wins.

use vstd::prelude::*;

verus! {

/// A recognized binary format.
#[derive(Clone, Copy, Debug, PartialEq, Eq, Structural)]
pub enum FileType {
    JPEG,
    GIF,
    PNG,
    VTF,
    MIDI,
    UnixScript,
    ELF,
    PDF,
    MBR,
    TIFF,
    WAD,
    ZIP,
    TAR,
    XML,
    TXT,
    HEIC,
    WEBP,
    NES,
    BMP,
    SPC,
    WAV,
    AVI,
    AIFF,
    MP3,
    MP4,
    OGG,
    FLAC,
    M4A,
    AAC,
}

/// One positional matcher of a signature pattern.
#[derive(Clone, Copy, Debug, PartialEq, Eq, Structural)]
pub enum ByteMatcher {
    /// The byte at the cursor must equal this value.
    Exact(u8),
    /// Any one byte is accepted.
    Wildcard,
    /// This many arbitrary bytes are accepted without comparing.
    Skip(usize),
}

/// One alternative signature of a kind: an ordered sequence of matchers.
pub struct SignaturePattern {
    pub matchers: Vec<ByteMatcher>,
}

impl View for SignaturePattern {
    type V = Seq<ByteMatcher>;

    open spec fn view(&self) -> Seq<ByteMatcher> {
        self.matchers@
    }
}

/// Whether a pattern matches a prefix of the buffer: the cursor starts at
/// offset zero, each matcher consumes what it accepts, and trailing buffer
/// bytes are ignored.
pub open spec fn pattern_matches(p: Seq<ByteMatcher>, d: Seq<u8>) -> bool
    decreases p.len(),
{
    if p.len() == 0 {
        true
    } else {
        match p[0] {
            ByteMatcher::Exact(b) => d.len() >= 1 && d[0] == b && pattern_matches(
                p.drop_first(),
                d.drop_first(),
            ),
            ByteMatcher::Wildcard => d.len() >= 1 && pattern_matches(
                p.drop_first(),
                d.drop_first(),
            ),
            ByteMatcher::Skip(n) => d.len() >= n && pattern_matches(
                p.drop_first(),
                d.skip(n as int),
            ),
        }
    }
}

/// The fewest buffer bytes a pattern can match.
pub open spec fn pattern_min_len(p: Seq<ByteMatcher>) -> int
    decreases p.len(),
{
    if p.len() == 0 {
        0
    } else {
        (match p[0] {
            ByteMatcher::Exact(_) => 1,
            ByteMatcher::Wildcard => 1,
            ByteMatcher::Skip(n) => n as int,
        }) + pattern_min_len(p.drop_first())
    }
}

/// Whether any of the alternative patterns matches the buffer.
pub open spec fn alts_match(alts: Seq<Seq<ByteMatcher>>, d: Seq<u8>) -> bool
    decreases alts.len(),
{
    if alts.len() == 0 {
        false
    } else {
        pattern_matches(alts[0], d) || alts_match(alts.drop_first(), d)
    }
}

/// Whether every alternative needs at least `b` buffer bytes to match.
pub open spec fn alts_all_need(alts: Seq<Seq<ByteMatcher>>, b: int) -> bool
    decreases alts.len(),
{
    if alts.len() == 0 {
        true
    } else {
        pattern_min_len(alts[0]) >= b && alts_all_need(alts.drop_first(), b)
    }
}

/// The signature table: the alternatives of each kind, in the order they
/// are tried.
pub open spec fn magic_spec(k: FileType) -> Seq<Seq<ByteMatcher>> {
    match k {
        // JPEG: FF D8 FF followed by a recognized APP marker form
        FileType::JPEG => seq![
            seq![ByteMatcher::Exact(0xFF), ByteMatcher::Exact(0xD8), ByteMatcher::Exact(0xFF),
                ByteMatcher::Exact(0xDB)],
            seq![ByteMatcher::Exact(0xFF), ByteMatcher::Exact(0xD8), ByteMatcher::Exact(0xFF),
                ByteMatcher::Exact(0xE0), ByteMatcher::Exact(0x00), ByteMatcher::Exact(0x10),
                ByteMatcher::Exact(0x4A), ByteMatcher::Exact(0x46), ByteMatcher::Exact(0x49),
                ByteMatcher::Exact(0x46), ByteMatcher::Exact(0x00), ByteMatcher::Exact(0x01)],
            seq![ByteMatcher::Exact(0xFF), ByteMatcher::Exact(0xD8), ByteMatcher::Exact(0xFF),
                ByteMatcher::Exact(0xEE)],
            seq![ByteMatcher::Exact(0xFF), ByteMatcher::Exact(0xD8), ByteMatcher::Exact(0xFF),
                ByteMatcher::Exact(0xE1), ByteMatcher::Skip(2), ByteMatcher::Exact(0x45),
                ByteMatcher::Exact(0x78), ByteMatcher::Exact(0x69), ByteMatcher::Exact(0x66),
                ByteMatcher::Exact(0x00), ByteMatcher::Exact(0x00)],
            seq![ByteMatcher::Exact(0xFF), ByteMatcher::Exact(0xD8), ByteMatcher::Exact(0xFF),
                ByteMatcher::Exact(0xE0)],
        ],
        // GIF89a or GIF87a
        FileType::GIF => seq![
            seq![ByteMatcher::Exact(0x47), ByteMatcher::Exact(0x49), ByteMatcher::Exact(0x46),
                ByteMatcher::Exact(0x38), ByteMatcher::Exact(0x39), ByteMatcher::Exact(0x61)],
            seq![ByteMatcher::Exact(0x47), ByteMatcher::Exact(0x49), ByteMatcher::Exact(0x46),
                ByteMatcher::Exact(0x38), ByteMatcher::Exact(0x37), ByteMatcher::Exact(0x61)],
        ],
        // \x89 PNG \r \n \x1a \n
        FileType::PNG => seq![
            seq![ByteMatcher::Exact(0x89), ByteMatcher::Exact(0x50), ByteMatcher::Exact(0x4E),
                ByteMatcher::Exact(0x47), ByteMatcher::Exact(0x0D), ByteMatcher::Exact(0x0A),
                ByteMatcher::Exact(0x1A), ByteMatcher::Exact(0x0A)],
        ],
        // NUL + FTV
        FileType::VTF => seq![
            seq![ByteMatcher::Exact(0x00), ByteMatcher::Exact(0x46), ByteMatcher::Exact(0x54),
                ByteMatcher::Exact(0x56)],
        ],
        // MThd
        FileType::MIDI => seq![
            seq![ByteMatcher::Exact(0x4D), ByteMatcher::Exact(0x54), ByteMatcher::Exact(0x68),
                ByteMatcher::Exact(0x64)],
        ],
        // #!
        FileType::UnixScript => seq![
            seq![ByteMatcher::Exact(0x23), ByteMatcher::Exact(0x21)],
        ],
        // 0x7F + ELF
        FileType::ELF => seq![
            seq![ByteMatcher::Exact(0x7F), ByteMatcher::Exact(0x45), ByteMatcher::Exact(0x4C),
                ByteMatcher::Exact(0x46)],
        ],
        // %PDF-
        FileType::PDF => seq![
            seq![ByteMatcher::Exact(0x25), ByteMatcher::Exact(0x50), ByteMatcher::Exact(0x44),
                ByteMatcher::Exact(0x46), ByteMatcher::Exact(0x2D)],
        ],
        // boot-sector signature 55 AA at offset 510
        FileType::MBR => seq![
            seq![ByteMatcher::Skip(510), ByteMatcher::Exact(0x55), ByteMatcher::Exact(0xAA)],
        ],
        // II (little endian) or MM (big endian) plus 42
        FileType::TIFF => seq![
            seq![ByteMatcher::Exact(0x49), ByteMatcher::Exact(0x49), ByteMatcher::Exact(0x2A),
                ByteMatcher::Exact(0x00)],
            seq![ByteMatcher::Exact(0x4D), ByteMatcher::Exact(0x4D), ByteMatcher::Exact(0x00),
                ByteMatcher::Exact(0x2A)],
            seq![ByteMatcher::Exact(0x49), ByteMatcher::Exact(0x49), ByteMatcher::Exact(0x2B),
                ByteMatcher::Exact(0x00)],
            seq![ByteMatcher::Exact(0x4D), ByteMatcher::Exact(0x4D), ByteMatcher::Exact(0x00),
                ByteMatcher::Exact(0x2B)],
        ],
        // IWAD / PWAD / WAD2 / WAD3
        FileType::WAD => seq![
            seq![ByteMatcher::Exact(0x49), ByteMatcher::Exact(0x57), ByteMatcher::Exact(0x41),
                ByteMatcher::Exact(0x44)],
            seq![ByteMatcher::Exact(0x50), ByteMatcher::Exact(0x57), ByteMatcher::Exact(0x41),
                ByteMatcher::Exact(0x44)],
            seq![ByteMatcher::Exact(0x57), ByteMatcher::Exact(0x41), ByteMatcher::Exact(0x44),
                ByteMatcher::Exact(0x32)],
            seq![ByteMatcher::Exact(0x57), ByteMatcher::Exact(0x41), ByteMatcher::Exact(0x44),
                ByteMatcher::Exact(0x33)],
        ],
        // PK\x03\x04
        FileType::ZIP => seq![
            seq![ByteMatcher::Exact(0x50), ByteMatcher::Exact(0x4B), ByteMatcher::Exact(0x03),
                ByteMatcher::Exact(0x04)],
        ],
        // ustar NUL 00, or ustar with two spaces
        FileType::TAR => seq![
            seq![ByteMatcher::Exact(0x75), ByteMatcher::Exact(0x73), ByteMatcher::Exact(0x74),
                ByteMatcher::Exact(0x61), ByteMatcher::Exact(0x72), ByteMatcher::Exact(0x00),
                ByteMatcher::Exact(0x30), ByteMatcher::Exact(0x30)],
            seq![ByteMatcher::Exact(0x75), ByteMatcher::Exact(0x73), ByteMatcher::Exact(0x74),
                ByteMatcher::Exact(0x61), ByteMatcher::Exact(0x72), ByteMatcher::Exact(0x20),
                ByteMatcher::Exact(0x20), ByteMatcher::Exact(0x00)],
        ],
        // "<?xml " in UTF-8 and the UTF-16/UTF-32 encodings of it
        FileType::XML => seq![
            seq![ByteMatcher::Exact(0x3C), ByteMatcher::Exact(0x3F), ByteMatcher::Exact(0x78),
                ByteMatcher::Exact(0x6D), ByteMatcher::Exact(0x6C), ByteMatcher::Exact(0x20)],
            seq![ByteMatcher::Exact(0x3C), ByteMatcher::Exact(0x00), ByteMatcher::Exact(0x3F),
                ByteMatcher::Exact(0x00), ByteMatcher::Exact(0x78), ByteMatcher::Exact(0x00),
                ByteMatcher::Exact(0x6D), ByteMatcher::Exact(0x00), ByteMatcher::Exact(0x6C),
                ByteMatcher::Exact(0x00), ByteMatcher::Exact(0x20)],
            seq![ByteMatcher::Exact(0x00), ByteMatcher::Exact(0x3C), ByteMatcher::Exact(0x00),
                ByteMatcher::Exact(0x3F), ByteMatcher::Exact(0x00), ByteMatcher::Exact(0x78),
                ByteMatcher::Exact(0x00), ByteMatcher::Exact(0x6D), ByteMatcher::Exact(0x00),
                ByteMatcher::Exact(0x6C), ByteMatcher::Exact(0x00), ByteMatcher::Exact(0x20)],
            seq![ByteMatcher::Exact(0x3C), ByteMatcher::Exact(0x00), ByteMatcher::Exact(0x00),
                ByteMatcher::Exact(0x00), ByteMatcher::Exact(0x3F), ByteMatcher::Exact(0x00),
                ByteMatcher::Exact(0x00), ByteMatcher::Exact(0x00), ByteMatcher::Exact(0x78),
                ByteMatcher::Exact(0x00), ByteMatcher::Exact(0x00), ByteMatcher::Exact(0x00),
                ByteMatcher::Exact(0x6D), ByteMatcher::Exact(0x00), ByteMatcher::Exact(0x00),
                ByteMatcher::Exact(0x00), ByteMatcher::Exact(0x6C), ByteMatcher::Exact(0x00),
                ByteMatcher::Exact(0x00), ByteMatcher::Exact(0x00), ByteMatcher::Exact(0x20),
                ByteMatcher::Exact(0x00), ByteMatcher::Exact(0x00), ByteMatcher::Exact(0x00)],
            seq![ByteMatcher::Exact(0x00), ByteMatcher::Exact(0x00), ByteMatcher::Exact(0x00),
                ByteMatcher::Exact(0x3C), ByteMatcher::Exact(0x00), ByteMatcher::Exact(0x00),
                ByteMatcher::Exact(0x00), ByteMatcher::Exact(0x3F), ByteMatcher::Exact(0x00),
                ByteMatcher::Exact(0x00), ByteMatcher::Exact(0x00), ByteMatcher::Exact(0x78),
                ByteMatcher::Exact(0x00), ByteMatcher::Exact(0x00), ByteMatcher::Exact(0x00),
                ByteMatcher::Exact(0x6D), ByteMatcher::Exact(0x00), ByteMatcher::Exact(0x00),
                ByteMatcher::Exact(0x00), ByteMatcher::Exact(0x6C), ByteMatcher::Exact(0x00),
                ByteMatcher::Exact(0x00), ByteMatcher::Exact(0x00), ByteMatcher::Exact(0x20)],
        ],
        // a Unicode byte-order mark
        FileType::TXT => seq![
            seq![ByteMatcher::Exact(0xEF), ByteMatcher::Exact(0xBB), ByteMatcher::Exact(0xBF)],
            seq![ByteMatcher::Exact(0xFF), ByteMatcher::Exact(0xFE)],
            seq![ByteMatcher::Exact(0xFE), ByteMatcher::Exact(0xFF)],
            seq![ByteMatcher::Exact(0xFF), ByteMatcher::Exact(0xFE), ByteMatcher::Exact(0x00),
                ByteMatcher::Exact(0x00)],
            seq![ByteMatcher::Exact(0x00), ByteMatcher::Exact(0x00), ByteMatcher::Exact(0xFE),
                ByteMatcher::Exact(0xFF)],
        ],
        // ftypheic
        FileType::HEIC => seq![
            seq![ByteMatcher::Exact(0x66), ByteMatcher::Exact(0x74), ByteMatcher::Exact(0x79),
                ByteMatcher::Exact(0x70), ByteMatcher::Exact(0x68), ByteMatcher::Exact(0x65),
                ByteMatcher::Exact(0x69), ByteMatcher::Exact(0x63)],
        ],
        // RIFF + 4-byte size + WEBP
        FileType::WEBP => seq![
            seq![ByteMatcher::Exact(0x52), ByteMatcher::Exact(0x49), ByteMatcher::Exact(0x46),
                ByteMatcher::Exact(0x46), ByteMatcher::Skip(4), ByteMatcher::Exact(0x57),
                ByteMatcher::Exact(0x45), ByteMatcher::Exact(0x42), ByteMatcher::Exact(0x50)],
        ],
        // NES \x1a
        FileType::NES => seq![
            seq![ByteMatcher::Exact(0x4E), ByteMatcher::Exact(0x45), ByteMatcher::Exact(0x53),
                ByteMatcher::Exact(0x1A)],
        ],
        // BM
        FileType::BMP => seq![
            seq![ByteMatcher::Exact(0x42), ByteMatcher::Exact(0x4D)],
        ],
        // SNES-SPC700 Sound File Data v0.30 + 1A 1A
        FileType::SPC => seq![
            seq![ByteMatcher::Exact(0x53), ByteMatcher::Exact(0x4E), ByteMatcher::Exact(0x45),
                ByteMatcher::Exact(0x53), ByteMatcher::Exact(0x2D), ByteMatcher::Exact(0x53),
                ByteMatcher::Exact(0x50), ByteMatcher::Exact(0x43), ByteMatcher::Exact(0x37),
                ByteMatcher::Exact(0x30), ByteMatcher::Exact(0x30), ByteMatcher::Exact(0x20),
                ByteMatcher::Exact(0x53), ByteMatcher::Exact(0x6F), ByteMatcher::Exact(0x75),
                ByteMatcher::Exact(0x6E), ByteMatcher::Exact(0x64), ByteMatcher::Exact(0x20),
                ByteMatcher::Exact(0x46), ByteMatcher::Exact(0x69), ByteMatcher::Exact(0x6C),
                ByteMatcher::Exact(0x65), ByteMatcher::Exact(0x20), ByteMatcher::Exact(0x44),
                ByteMatcher::Exact(0x61), ByteMatcher::Exact(0x74), ByteMatcher::Exact(0x61),
                ByteMatcher::Exact(0x20), ByteMatcher::Exact(0x76), ByteMatcher::Exact(0x30),
                ByteMatcher::Exact(0x2E), ByteMatcher::Exact(0x33), ByteMatcher::Exact(0x30),
                ByteMatcher::Exact(0x1A), ByteMatcher::Exact(0x1A)],
        ],
        // RIFF + 4-byte size + WAVE
        FileType::WAV => seq![
            seq![ByteMatcher::Exact(0x52), ByteMatcher::Exact(0x49), ByteMatcher::Exact(0x46),
                ByteMatcher::Exact(0x46), ByteMatcher::Skip(4), ByteMatcher::Exact(0x57),
                ByteMatcher::Exact(0x41), ByteMatcher::Exact(0x56), ByteMatcher::Exact(0x45)],
        ],
        // RIFF + 4-byte size + 'AVI '
        FileType::AVI => seq![
            seq![ByteMatcher::Exact(0x52), ByteMatcher::Exact(0x49), ByteMatcher::Exact(0x46),
                ByteMatcher::Exact(0x46), ByteMatcher::Skip(4), ByteMatcher::Exact(0x41),
                ByteMatcher::Exact(0x56), ByteMatcher::Exact(0x49), ByteMatcher::Exact(0x20)],
        ],
        // FORM + 4-byte size + AIFF
        FileType::AIFF => seq![
            seq![ByteMatcher::Exact(0x46), ByteMatcher::Exact(0x4F), ByteMatcher::Exact(0x52),
                ByteMatcher::Exact(0x4D), ByteMatcher::Skip(4), ByteMatcher::Exact(0x41),
                ByteMatcher::Exact(0x49), ByteMatcher::Exact(0x46), ByteMatcher::Exact(0x46)],
        ],
        // an MPEG audio frame sync, or an ID3 tag
        FileType::MP3 => seq![
            seq![ByteMatcher::Exact(0xFF), ByteMatcher::Exact(0xFB)],
            seq![ByteMatcher::Exact(0xFF), ByteMatcher::Exact(0xF3)],
            seq![ByteMatcher::Exact(0xFF), ByteMatcher::Exact(0xF2)],
            seq![ByteMatcher::Exact(0x49), ByteMatcher::Exact(0x44), ByteMatcher::Exact(0x33)],
        ],
        // ftypMSNV
        FileType::MP4 => seq![
            seq![ByteMatcher::Exact(0x66), ByteMatcher::Exact(0x74), ByteMatcher::Exact(0x79),
                ByteMatcher::Exact(0x70), ByteMatcher::Exact(0x4D), ByteMatcher::Exact(0x53),
                ByteMatcher::Exact(0x4E), ByteMatcher::Exact(0x56)],
        ],
        // OggS
        FileType::OGG => seq![
            seq![ByteMatcher::Exact(0x4F), ByteMatcher::Exact(0x67), ByteMatcher::Exact(0x67),
                ByteMatcher::Exact(0x53)],
        ],
        // fLaC
        FileType::FLAC => seq![
            seq![ByteMatcher::Exact(0x66), ByteMatcher::Exact(0x4C), ByteMatcher::Exact(0x61),
                ByteMatcher::Exact(0x43)],
        ],
        // a 28- or 32-byte box followed by ftypM4A and a space
        FileType::M4A => seq![
            seq![ByteMatcher::Exact(0x00), ByteMatcher::Exact(0x00), ByteMatcher::Exact(0x00),
                ByteMatcher::Exact(0x1C), ByteMatcher::Exact(0x66), ByteMatcher::Exact(0x74),
                ByteMatcher::Exact(0x79), ByteMatcher::Exact(0x70), ByteMatcher::Exact(0x4D),
                ByteMatcher::Exact(0x34), ByteMatcher::Exact(0x41), ByteMatcher::Exact(0x20)],
            seq![ByteMatcher::Exact(0x00), ByteMatcher::Exact(0x00), ByteMatcher::Exact(0x00),
                ByteMatcher::Exact(0x20), ByteMatcher::Exact(0x66), ByteMatcher::Exact(0x74),
                ByteMatcher::Exact(0x79), ByteMatcher::Exact(0x70), ByteMatcher::Exact(0x4D),
                ByteMatcher::Exact(0x34), ByteMatcher::Exact(0x41), ByteMatcher::Exact(0x20)],
        ],
        // an ADTS frame sync
        FileType::AAC => seq![
            seq![ByteMatcher::Exact(0xFF), ByteMatcher::Exact(0xF1)],
            seq![ByteMatcher::Exact(0xFF), ByteMatcher::Exact(0xF9)],
        ],
    }
}

/// Whether some signature of the kind matches the buffer.
pub open spec fn kind_matches(k: FileType, d: Seq<u8>) -> bool {
    alts_match(magic_spec(k), d)
}

/// The fixed priority order in which kinds are tried.
pub open spec fn kind_order() -> Seq<FileType> {
    seq![FileType::JPEG, FileType::GIF, FileType::PNG, FileType::VTF, FileType::MIDI,
        FileType::UnixScript, FileType::ELF, FileType::PDF, FileType::MBR, FileType::TIFF,
        FileType::WAD, FileType::ZIP, FileType::TAR, FileType::XML, FileType::TXT, FileType::HEIC,
        FileType::WEBP, FileType::NES, FileType::BMP, FileType::SPC, FileType::WAV, FileType::AVI,
        FileType::AIFF, FileType::MP3, FileType::MP4, FileType::OGG, FileType::FLAC, FileType::M4A,
        FileType::AAC]
}

/// The first kind at or after position `i` of the priority order whose
/// signature matches the buffer.
pub open spec fn first_match_from(d: Seq<u8>, i: int) -> Option<FileType>
    decreases kind_order().len() - i,
{
    if i < 0 || i >= kind_order().len() {
        None
    } else if kind_matches(kind_order()[i], d) {
        Some(kind_order()[i])
    } else {
        first_match_from(d, i + 1)
    }
}

/// What the detector returns on a buffer: the first kind, in priority
/// order, one of whose signatures matches the prefix of the buffer.
pub open spec fn detect_spec(d: Seq<u8>) -> Option<FileType> {
    first_match_from(d, 0)
}

/// The canonical minimal prefix of each kind: its shortest signature with
/// every wildcard and skip position filled with zero bytes.
pub open spec fn canonical_prefix(k: FileType) -> Seq<u8> {
    match k {
        FileType::JPEG => seq![0xFF, 0xD8, 0xFF, 0xDB],
        FileType::GIF => seq![0x47, 0x49, 0x46, 0x38, 0x39, 0x61],
        FileType::PNG => seq![0x89, 0x50, 0x4E, 0x47, 0x0D, 0x0A, 0x1A, 0x0A],
        FileType::VTF => seq![0x00, 0x46, 0x54, 0x56],
        FileType::MIDI => seq![0x4D, 0x54, 0x68, 0x64],
        FileType::UnixScript => seq![0x23, 0x21],
        FileType::ELF => seq![0x7F, 0x45, 0x4C, 0x46],
        FileType::PDF => seq![0x25, 0x50, 0x44, 0x46, 0x2D],
        FileType::MBR => Seq::new(512, |i: int| if i == 510 { 0x55u8 } else if i == 511 { 0xAAu8 } else { 0x00u8 }),
        FileType::TIFF => seq![0x49, 0x49, 0x2A, 0x00],
        FileType::WAD => seq![0x49, 0x57, 0x41, 0x44],
        FileType::ZIP => seq![0x50, 0x4B, 0x03, 0x04],
        FileType::TAR => seq![0x75, 0x73, 0x74, 0x61, 0x72, 0x00, 0x30, 0x30],
        FileType::XML => seq![0x3C, 0x3F, 0x78, 0x6D, 0x6C, 0x20],
        FileType::TXT => seq![0xFF, 0xFE],
        FileType::HEIC => seq![0x66, 0x74, 0x79, 0x70, 0x68, 0x65, 0x69, 0x63],
        FileType::WEBP => seq![0x52, 0x49, 0x46, 0x46, 0x00, 0x00, 0x00, 0x00, 0x57, 0x45, 0x42,
            0x50],
        FileType::NES => seq![0x4E, 0x45, 0x53, 0x1A],
        FileType::BMP => seq![0x42, 0x4D],
        FileType::SPC => seq![0x53, 0x4E, 0x45, 0x53, 0x2D, 0x53, 0x50, 0x43, 0x37, 0x30, 0x30,
            0x20, 0x53, 0x6F, 0x75, 0x6E, 0x64, 0x20, 0x46, 0x69, 0x6C, 0x65, 0x20, 0x44, 0x61,
            0x74, 0x61, 0x20, 0x76, 0x30, 0x2E, 0x33, 0x30, 0x1A, 0x1A],
        FileType::WAV => seq![0x52, 0x49, 0x46, 0x46, 0x00, 0x00, 0x00, 0x00, 0x57, 0x41, 0x56,
            0x45],
        FileType::AVI => seq![0x52, 0x49, 0x46, 0x46, 0x00, 0x00, 0x00, 0x00, 0x41, 0x56, 0x49,
            0x20],
        FileType::AIFF => seq![0x46, 0x4F, 0x52, 0x4D, 0x00, 0x00, 0x00, 0x00, 0x41, 0x49, 0x46,
            0x46],
        FileType::MP3 => seq![0xFF, 0xFB],
        FileType::MP4 => seq![0x66, 0x74, 0x79, 0x70, 0x4D, 0x53, 0x4E, 0x56],
        FileType::OGG => seq![0x4F, 0x67, 0x67, 0x53],
        FileType::FLAC => seq![0x66, 0x4C, 0x61, 0x43],
        FileType::M4A => seq![0x00, 0x00, 0x00, 0x1C, 0x66, 0x74, 0x79, 0x70, 0x4D, 0x34, 0x41,
            0x20],
        FileType::AAC => seq![0xFF, 0xF1],
    }
}

impl FileType {
    /// The signature alternatives of this kind, as executable data; they
    /// mirror `magic_spec` exactly.
    pub fn magic(&self) -> (r: Vec<SignaturePattern>)
        ensures
            r@.len() == magic_spec(*self).len(),
            forall|i: int| 0 <= i < r@.len() ==> (#[trigger] r@[i])@ == magic_spec(*self)[i],
    {
        match *self {
            FileType::JPEG => {
                let r: Vec<SignaturePattern> = vec![
                    SignaturePattern { matchers: vec![ByteMatcher::Exact(0xFF),
                        ByteMatcher::Exact(0xD8), ByteMatcher::Exact(0xFF),
                        ByteMatcher::Exact(0xDB)] },
                    SignaturePattern { matchers: vec![ByteMatcher::Exact(0xFF),
                        ByteMatcher::Exact(0xD8), ByteMatcher::Exact(0xFF),
                        ByteMatcher::Exact(0xE0), ByteMatcher::Exact(0x00),
                        ByteMatcher::Exact(0x10), ByteMatcher::Exact(0x4A),
                        ByteMatcher::Exact(0x46), ByteMatcher::Exact(0x49),
                        ByteMatcher::Exact(0x46), ByteMatcher::Exact(0x00),
                        ByteMatcher::Exact(0x01)] },
                    SignaturePattern { matchers: vec![ByteMatcher::Exact(0xFF),
                        ByteMatcher::Exact(0xD8), ByteMatcher::Exact(0xFF),
                        ByteMatcher::Exact(0xEE)] },
                    SignaturePattern { matchers: vec![ByteMatcher::Exact(0xFF),
                        ByteMatcher::Exact(0xD8), ByteMatcher::Exact(0xFF),
                        ByteMatcher::Exact(0xE1), ByteMatcher::Skip(2), ByteMatcher::Exact(0x45),
                        ByteMatcher::Exact(0x78), ByteMatcher::Exact(0x69),
                        ByteMatcher::Exact(0x66), ByteMatcher::Exact(0x00),
                        ByteMatcher::Exact(0x00)] },
                    SignaturePattern { matchers: vec![ByteMatcher::Exact(0xFF),
                        ByteMatcher::Exact(0xD8), ByteMatcher::Exact(0xFF),
                        ByteMatcher::Exact(0xE0)] },
                ];
                proof {
                    assert((r@[0])@ =~= magic_spec(FileType::JPEG)[0]);
                    assert((r@[1])@ =~= magic_spec(FileType::JPEG)[1]);
                    assert((r@[2])@ =~= magic_spec(FileType::JPEG)[2]);
                    assert((r@[3])@ =~= magic_spec(FileType::JPEG)[3]);
                    assert((r@[4])@ =~= magic_spec(FileType::JPEG)[4]);
                    assert(forall|i: int| 0 <= i < r@.len() ==> (#[trigger] r@[i])@ == magic_spec(FileType::JPEG)[i]);
                }
                r
            },
            FileType::GIF => {
                let r: Vec<SignaturePattern> = vec![
                    SignaturePattern { matchers: vec![ByteMatcher::Exact(0x47),
                        ByteMatcher::Exact(0x49), ByteMatcher::Exact(0x46),
                        ByteMatcher::Exact(0x38), ByteMatcher::Exact(0x39),
                        ByteMatcher::Exact(0x61)] },
                    SignaturePattern { matchers: vec![ByteMatcher::Exact(0x47),
                        ByteMatcher::Exact(0x49), ByteMatcher::Exact(0x46),
                        ByteMatcher::Exact(0x38), ByteMatcher::Exact(0x37),
                        ByteMatcher::Exact(0x61)] },
                ];
                proof {
                    assert((r@[0])@ =~= magic_spec(FileType::GIF)[0]);
                    assert((r@[1])@ =~= magic_spec(FileType::GIF)[1]);
                    assert(forall|i: int| 0 <= i < r@.len() ==> (#[trigger] r@[i])@ == magic_spec(FileType::GIF)[i]);
                }
                r
            },
            FileType::PNG => {
                let r: Vec<SignaturePattern> = vec![
                    SignaturePattern { matchers: vec![ByteMatcher::Exact(0x89),
                        ByteMatcher::Exact(0x50), ByteMatcher::Exact(0x4E),
                        ByteMatcher::Exact(0x47), ByteMatcher::Exact(0x0D),
                        ByteMatcher::Exact(0x0A), ByteMatcher::Exact(0x1A),
                        ByteMatcher::Exact(0x0A)] },
                ];
                proof {
                    assert((r@[0])@ =~= magic_spec(FileType::PNG)[0]);
                    assert(forall|i: int| 0 <= i < r@.len() ==> (#[trigger] r@[i])@ == magic_spec(FileType::PNG)[i]);
                }
                r
            },
            FileType::VTF => {
                let r: Vec<SignaturePattern> = vec![
                    SignaturePattern { matchers: vec![ByteMatcher::Exact(0x00),
                        ByteMatcher::Exact(0x46), ByteMatcher::Exact(0x54),
                        ByteMatcher::Exact(0x56)] },
                ];
                proof {
                    assert((r@[0])@ =~= magic_spec(FileType::VTF)[0]);
                    assert(forall|i: int| 0 <= i < r@.len() ==> (#[trigger] r@[i])@ == magic_spec(FileType::VTF)[i]);
                }
                r
            },
            FileType::MIDI => {
                let r: Vec<SignaturePattern> = vec![
                    SignaturePattern { matchers: vec![ByteMatcher::Exact(0x4D),
                        ByteMatcher::Exact(0x54), ByteMatcher::Exact(0x68),
                        ByteMatcher::Exact(0x64)] },
                ];
                proof {
                    assert((r@[0])@ =~= magic_spec(FileType::MIDI)[0]);
                    assert(forall|i: int| 0 <= i < r@.len() ==> (#[trigger] r@[i])@ == magic_spec(FileType::MIDI)[i]);
                }
                r
            },
            FileType::UnixScript => {
                let r: Vec<SignaturePattern> = vec![
                    SignaturePattern { matchers: vec![ByteMatcher::Exact(0x23),
                        ByteMatcher::Exact(0x21)] },
                ];
                proof {
                    assert((r@[0])@ =~= magic_spec(FileType::UnixScript)[0]);
                    assert(forall|i: int| 0 <= i < r@.len() ==> (#[trigger] r@[i])@ == magic_spec(FileType::UnixScript)[i]);
                }
                r
            },
            FileType::ELF => {
                let r: Vec<SignaturePattern> = vec![
                    SignaturePattern { matchers: vec![ByteMatcher::Exact(0x7F),
                        ByteMatcher::Exact(0x45), ByteMatcher::Exact(0x4C),
                        ByteMatcher::Exact(0x46)] },
                ];
                proof {
                    assert((r@[0])@ =~= magic_spec(FileType::ELF)[0]);
                    assert(forall|i: int| 0 <= i < r@.len() ==> (#[trigger] r@[i])@ == magic_spec(FileType::ELF)[i]);
                }
                r
            },
            FileType::PDF => {
                let r: Vec<SignaturePattern> = vec![
                    SignaturePattern { matchers: vec![ByteMatcher::Exact(0x25),
                        ByteMatcher::Exact(0x50), ByteMatcher::Exact(0x44),
                        ByteMatcher::Exact(0x46), ByteMatcher::Exact(0x2D)] },
                ];
                proof {
                    assert((r@[0])@ =~= magic_spec(FileType::PDF)[0]);
                    assert(forall|i: int| 0 <= i < r@.len() ==> (#[trigger] r@[i])@ == magic_spec(FileType::PDF)[i]);
                }
                r
            },
            FileType::MBR => {
                let r: Vec<SignaturePattern> = vec![
                    SignaturePattern { matchers: vec![ByteMatcher::Skip(510),
                        ByteMatcher::Exact(0x55), ByteMatcher::Exact(0xAA)] },
                ];
                proof {
                    assert((r@[0])@ =~= magic_spec(FileType::MBR)[0]);
                    assert(forall|i: int| 0 <= i < r@.len() ==> (#[trigger] r@[i])@ == magic_spec(FileType::MBR)[i]);
                }
                r
            },
            FileType::TIFF => {
                let r: Vec<SignaturePattern> = vec![
                    SignaturePattern { matchers: vec![ByteMatcher::Exact(0x49),
                        ByteMatcher::Exact(0x49), ByteMatcher::Exact(0x2A),
                        ByteMatcher::Exact(0x00)] },
                    SignaturePattern { matchers: vec![ByteMatcher::Exact(0x4D),
                        ByteMatcher::Exact(0x4D), ByteMatcher::Exact(0x00),
                        ByteMatcher::Exact(0x2A)] },
                    SignaturePattern { matchers: vec![ByteMatcher::Exact(0x49),
                        ByteMatcher::Exact(0x49), ByteMatcher::Exact(0x2B),
                        ByteMatcher::Exact(0x00)] },
                    SignaturePattern { matchers: vec![ByteMatcher::Exact(0x4D),
                        ByteMatcher::Exact(0x4D), ByteMatcher::Exact(0x00),
                        ByteMatcher::Exact(0x2B)] },
                ];
                proof {
                    assert((r@[0])@ =~= magic_spec(FileType::TIFF)[0]);
                    assert((r@[1])@ =~= magic_spec(FileType::TIFF)[1]);
                    assert((r@[2])@ =~= magic_spec(FileType::TIFF)[2]);
                    assert((r@[3])@ =~= magic_spec(FileType::TIFF)[3]);
                    assert(forall|i: int| 0 <= i < r@.len() ==> (#[trigger] r@[i])@ == magic_spec(FileType::TIFF)[i]);
                }
                r
            },
            FileType::WAD => {
                let r: Vec<SignaturePattern> = vec![
                    SignaturePattern { matchers: vec![ByteMatcher::Exact(0x49),
                        ByteMatcher::Exact(0x57), ByteMatcher::Exact(0x41),
                        ByteMatcher::Exact(0x44)] },
                    SignaturePattern { matchers: vec![ByteMatcher::Exact(0x50),
                        ByteMatcher::Exact(0x57), ByteMatcher::Exact(0x41),
                        ByteMatcher::Exact(0x44)] },
                    SignaturePattern { matchers: vec![ByteMatcher::Exact(0x57),
                        ByteMatcher::Exact(0x41), ByteMatcher::Exact(0x44),
                        ByteMatcher::Exact(0x32)] },
                    SignaturePattern { matchers: vec![ByteMatcher::Exact(0x57),
                        ByteMatcher::Exact(0x41), ByteMatcher::Exact(0x44),
                        ByteMatcher::Exact(0x33)] },
                ];
                proof {
                    assert((r@[0])@ =~= magic_spec(FileType::WAD)[0]);
                    assert((r@[1])@ =~= magic_spec(FileType::WAD)[1]);
                    assert((r@[2])@ =~= magic_spec(FileType::WAD)[2]);
                    assert((r@[3])@ =~= magic_spec(FileType::WAD)[3]);
                    assert(forall|i: int| 0 <= i < r@.len() ==> (#[trigger] r@[i])@ == magic_spec(FileType::WAD)[i]);
                }
                r
            },
            FileType::ZIP => {
                let r: Vec<SignaturePattern> = vec![
                    SignaturePattern { matchers: vec![ByteMatcher::Exact(0x50),
                        ByteMatcher::Exact(0x4B), ByteMatcher::Exact(0x03),
                        ByteMatcher::Exact(0x04)] },
                ];
                proof {
                    assert((r@[0])@ =~= magic_spec(FileType::ZIP)[0]);
                    assert(forall|i: int| 0 <= i < r@.len() ==> (#[trigger] r@[i])@ == magic_spec(FileType::ZIP)[i]);
                }
                r
            },
            FileType::TAR => {
                let r: Vec<SignaturePattern> = vec![
                    SignaturePattern { matchers: vec![ByteMatcher::Exact(0x75),
                        ByteMatcher::Exact(0x73), ByteMatcher::Exact(0x74),
                        ByteMatcher::Exact(0x61), ByteMatcher::Exact(0x72),
                        ByteMatcher::Exact(0x00), ByteMatcher::Exact(0x30),
                        ByteMatcher::Exact(0x30)] },
                    SignaturePattern { matchers: vec![ByteMatcher::Exact(0x75),
                        ByteMatcher::Exact(0x73), ByteMatcher::Exact(0x74),
                        ByteMatcher::Exact(0x61), ByteMatcher::Exact(0x72),
                        ByteMatcher::Exact(0x20), ByteMatcher::Exact(0x20),
                        ByteMatcher::Exact(0x00)] },
                ];
                proof {
                    assert((r@[0])@ =~= magic_spec(FileType::TAR)[0]);
                    assert((r@[1])@ =~= magic_spec(FileType::TAR)[1]);
                    assert(forall|i: int| 0 <= i < r@.len() ==> (#[trigger] r@[i])@ == magic_spec(FileType::TAR)[i]);
                }
                r
            },
            FileType::XML => {
                let r: Vec<SignaturePattern> = vec![
                    SignaturePattern { matchers: vec![ByteMatcher::Exact(0x3C),
                        ByteMatcher::Exact(0x3F), ByteMatcher::Exact(0x78),
                        ByteMatcher::Exact(0x6D), ByteMatcher::Exact(0x6C),
                        ByteMatcher::Exact(0x20)] },
                    SignaturePattern { matchers: vec![ByteMatcher::Exact(0x3C),
                        ByteMatcher::Exact(0x00), ByteMatcher::Exact(0x3F),
                        ByteMatcher::Exact(0x00), ByteMatcher::Exact(0x78),
                        ByteMatcher::Exact(0x00), ByteMatcher::Exact(0x6D),
                        ByteMatcher::Exact(0x00), ByteMatcher::Exact(0x6C),
                        ByteMatcher::Exact(0x00), ByteMatcher::Exact(0x20)] },
                    SignaturePattern { matchers: vec![ByteMatcher::Exact(0x00),
                        ByteMatcher::Exact(0x3C), ByteMatcher::Exact(0x00),
                        ByteMatcher::Exact(0x3F), ByteMatcher::Exact(0x00),
                        ByteMatcher::Exact(0x78), ByteMatcher::Exact(0x00),
                        ByteMatcher::Exact(0x6D), ByteMatcher::Exact(0x00),
                        ByteMatcher::Exact(0x6C), ByteMatcher::Exact(0x00),
                        ByteMatcher::Exact(0x20)] },
                    SignaturePattern { matchers: vec![ByteMatcher::Exact(0x3C),
                        ByteMatcher::Exact(0x00), ByteMatcher::Exact(0x00),
                        ByteMatcher::Exact(0x00), ByteMatcher::Exact(0x3F),
                        ByteMatcher::Exact(0x00), ByteMatcher::Exact(0x00),
                        ByteMatcher::Exact(0x00), ByteMatcher::Exact(0x78),
                        ByteMatcher::Exact(0x00), ByteMatcher::Exact(0x00),
                        ByteMatcher::Exact(0x00), ByteMatcher::Exact(0x6D),
                        ByteMatcher::Exact(0x00), ByteMatcher::Exact(0x00),
                        ByteMatcher::Exact(0x00), ByteMatcher::Exact(0x6C),
                        ByteMatcher::Exact(0x00), ByteMatcher::Exact(0x00),
                        ByteMatcher::Exact(0x00), ByteMatcher::Exact(0x20),
                        ByteMatcher::Exact(0x00), ByteMatcher::Exact(0x00),
                        ByteMatcher::Exact(0x00)] },
                    SignaturePattern { matchers: vec![ByteMatcher::Exact(0x00),
                        ByteMatcher::Exact(0x00), ByteMatcher::Exact(0x00),
                        ByteMatcher::Exact(0x3C), ByteMatcher::Exact(0x00),
                        ByteMatcher::Exact(0x00), ByteMatcher::Exact(0x00),
                        ByteMatcher::Exact(0x3F), ByteMatcher::Exact(0x00),
                        ByteMatcher::Exact(0x00), ByteMatcher::Exact(0x00),
                        ByteMatcher::Exact(0x78), ByteMatcher::Exact(0x00),
                        ByteMatcher::Exact(0x00), ByteMatcher::Exact(0x00),
                        ByteMatcher::Exact(0x6D), ByteMatcher::Exact(0x00),
                        ByteMatcher::Exact(0x00), ByteMatcher::Exact(0x00),
                        ByteMatcher::Exact(0x6C), ByteMatcher::Exact(0x00),
                        ByteMatcher::Exact(0x00), ByteMatcher::Exact(0x00),
                        ByteMatcher::Exact(0x20)] },
                ];
                proof {
                    assert((r@[0])@ =~= magic_spec(FileType::XML)[0]);
                    assert((r@[1])@ =~= magic_spec(FileType::XML)[1]);
                    assert((r@[2])@ =~= magic_spec(FileType::XML)[2]);
                    assert((r@[3])@ =~= magic_spec(FileType::XML)[3]);
                    assert((r@[4])@ =~= magic_spec(FileType::XML)[4]);
                    assert(forall|i: int| 0 <= i < r@.len() ==> (#[trigger] r@[i])@ == magic_spec(FileType::XML)[i]);
                }
                r
            },
            FileType::TXT => {
                let r: Vec<SignaturePattern> = vec![
                    SignaturePattern { matchers: vec![ByteMatcher::Exact(0xEF),
                        ByteMatcher::Exact(0xBB), ByteMatcher::Exact(0xBF)] },
                    SignaturePattern { matchers: vec![ByteMatcher::Exact(0xFF),
                        ByteMatcher::Exact(0xFE)] },
                    SignaturePattern { matchers: vec![ByteMatcher::Exact(0xFE),
                        ByteMatcher::Exact(0xFF)] },
                    SignaturePattern { matchers: vec![ByteMatcher::Exact(0xFF),
                        ByteMatcher::Exact(0xFE), ByteMatcher::Exact(0x00),
                        ByteMatcher::Exact(0x00)] },
                    SignaturePattern { matchers: vec![ByteMatcher::Exact(0x00),
                        ByteMatcher::Exact(0x00), ByteMatcher::Exact(0xFE),
                        ByteMatcher::Exact(0xFF)] },
                ];
                proof {
                    assert((r@[0])@ =~= magic_spec(FileType::TXT)[0]);
                    assert((r@[1])@ =~= magic_spec(FileType::TXT)[1]);
                    assert((r@[2])@ =~= magic_spec(FileType::TXT)[2]);
                    assert((r@[3])@ =~= magic_spec(FileType::TXT)[3]);
                    assert((r@[4])@ =~= magic_spec(FileType::TXT)[4]);
                    assert(forall|i: int| 0 <= i < r@.len() ==> (#[trigger] r@[i])@ == magic_spec(FileType::TXT)[i]);
                }
                r
            },
            FileType::HEIC => {
                let r: Vec<SignaturePattern> = vec![
                    SignaturePattern { matchers: vec![ByteMatcher::Exact(0x66),
                        ByteMatcher::Exact(0x74), ByteMatcher::Exact(0x79),
                        ByteMatcher::Exact(0x70), ByteMatcher::Exact(0x68),
                        ByteMatcher::Exact(0x65), ByteMatcher::Exact(0x69),
                        ByteMatcher::Exact(0x63)] },
                ];
                proof {
                    assert((r@[0])@ =~= magic_spec(FileType::HEIC)[0]);
                    assert(forall|i: int| 0 <= i < r@.len() ==> (#[trigger] r@[i])@ == magic_spec(FileType::HEIC)[i]);
                }
                r
            },
            FileType::WEBP => {
                let r: Vec<SignaturePattern> = vec![
                    SignaturePattern { matchers: vec![ByteMatcher::Exact(0x52),
                        ByteMatcher::Exact(0x49), ByteMatcher::Exact(0x46),
                        ByteMatcher::Exact(0x46), ByteMatcher::Skip(4), ByteMatcher::Exact(0x57),
                        ByteMatcher::Exact(0x45), ByteMatcher::Exact(0x42),
                        ByteMatcher::Exact(0x50)] },
                ];
                proof {
                    assert((r@[0])@ =~= magic_spec(FileType::WEBP)[0]);
                    assert(forall|i: int| 0 <= i < r@.len() ==> (#[trigger] r@[i])@ == magic_spec(FileType::WEBP)[i]);
                }
                r
            },
            FileType::NES => {
                let r: Vec<SignaturePattern> = vec![
                    SignaturePattern { matchers: vec![ByteMatcher::Exact(0x4E),
                        ByteMatcher::Exact(0x45), ByteMatcher::Exact(0x53),
                        ByteMatcher::Exact(0x1A)] },
                ];
                proof {
                    assert((r@[0])@ =~= magic_spec(FileType::NES)[0]);
                    assert(forall|i: int| 0 <= i < r@.len() ==> (#[trigger] r@[i])@ == magic_spec(FileType::NES)[i]);
                }
                r
            },
            FileType::BMP => {
                let r: Vec<SignaturePattern> = vec![
                    SignaturePattern { matchers: vec![ByteMatcher::Exact(0x42),
                        ByteMatcher::Exact(0x4D)] },
                ];
                proof {
                    assert((r@[0])@ =~= magic_spec(FileType::BMP)[0]);
                    assert(forall|i: int| 0 <= i < r@.len() ==> (#[trigger] r@[i])@ == magic_spec(FileType::BMP)[i]);
                }
                r
            },
            FileType::SPC => {
                let r: Vec<SignaturePattern> = vec![
                    SignaturePattern { matchers: vec![ByteMatcher::Exact(0x53),
                        ByteMatcher::Exact(0x4E), ByteMatcher::Exact(0x45),
                        ByteMatcher::Exact(0x53), ByteMatcher::Exact(0x2D),
                        ByteMatcher::Exact(0x53), ByteMatcher::Exact(0x50),
                        ByteMatcher::Exact(0x43), ByteMatcher::Exact(0x37),
                        ByteMatcher::Exact(0x30), ByteMatcher::Exact(0x30),
                        ByteMatcher::Exact(0x20), ByteMatcher::Exact(0x53),
                        ByteMatcher::Exact(0x6F), ByteMatcher::Exact(0x75),
                        ByteMatcher::Exact(0x6E), ByteMatcher::Exact(0x64),
                        ByteMatcher::Exact(0x20), ByteMatcher::Exact(0x46),
                        ByteMatcher::Exact(0x69), ByteMatcher::Exact(0x6C),
                        ByteMatcher::Exact(0x65), ByteMatcher::Exact(0x20),
                        ByteMatcher::Exact(0x44), ByteMatcher::Exact(0x61),
                        ByteMatcher::Exact(0x74), ByteMatcher::Exact(0x61),
                        ByteMatcher::Exact(0x20), ByteMatcher::Exact(0x76),
                        ByteMatcher::Exact(0x30), ByteMatcher::Exact(0x2E),
                        ByteMatcher::Exact(0x33), ByteMatcher::Exact(0x30),
                        ByteMatcher::Exact(0x1A), ByteMatcher::Exact(0x1A)] },
                ];
                proof {
                    assert((r@[0])@ =~= magic_spec(FileType::SPC)[0]);
                    assert(forall|i: int| 0 <= i < r@.len() ==> (#[trigger] r@[i])@ == magic_spec(FileType::SPC)[i]);
                }
                r
            },
            FileType::WAV => {
                let r: Vec<SignaturePattern> = vec![
                    SignaturePattern { matchers: vec![ByteMatcher::Exact(0x52),
                        ByteMatcher::Exact(0x49), ByteMatcher::Exact(0x46),
                        ByteMatcher::Exact(0x46), ByteMatcher::Skip(4), ByteMatcher::Exact(0x57),
                        ByteMatcher::Exact(0x41), ByteMatcher::Exact(0x56),
                        ByteMatcher::Exact(0x45)] },
                ];
                proof {
                    assert((r@[0])@ =~= magic_spec(FileType::WAV)[0]);
                    assert(forall|i: int| 0 <= i < r@.len() ==> (#[trigger] r@[i])@ == magic_spec(FileType::WAV)[i]);
                }
                r
            },
            FileType::AVI => {
                let r: Vec<SignaturePattern> = vec![
                    SignaturePattern { matchers: vec![ByteMatcher::Exact(0x52),
                        ByteMatcher::Exact(0x49), ByteMatcher::Exact(0x46),
                        ByteMatcher::Exact(0x46), ByteMatcher::Skip(4), ByteMatcher::Exact(0x41),
                        ByteMatcher::Exact(0x56), ByteMatcher::Exact(0x49),
                        ByteMatcher::Exact(0x20)] },
                ];
                proof {
                    assert((r@[0])@ =~= magic_spec(FileType::AVI)[0]);
                    assert(forall|i: int| 0 <= i < r@.len() ==> (#[trigger] r@[i])@ == magic_spec(FileType::AVI)[i]);
                }
                r
            },
            FileType::AIFF => {
                let r: Vec<SignaturePattern> = vec![
                    SignaturePattern { matchers: vec![ByteMatcher::Exact(0x46),
                        ByteMatcher::Exact(0x4F), ByteMatcher::Exact(0x52),
                        ByteMatcher::Exact(0x4D), ByteMatcher::Skip(4), ByteMatcher::Exact(0x41),
                        ByteMatcher::Exact(0x49), ByteMatcher::Exact(0x46),
                        ByteMatcher::Exact(0x46)] },
                ];
                proof {
                    assert((r@[0])@ =~= magic_spec(FileType::AIFF)[0]);
                    assert(forall|i: int| 0 <= i < r@.len() ==> (#[trigger] r@[i])@ == magic_spec(FileType::AIFF)[i]);
                }
                r
            },
            FileType::MP3 => {
                let r: Vec<SignaturePattern> = vec![
                    SignaturePattern { matchers: vec![ByteMatcher::Exact(0xFF),
                        ByteMatcher::Exact(0xFB)] },
                    SignaturePattern { matchers: vec![ByteMatcher::Exact(0xFF),
                        ByteMatcher::Exact(0xF3)] },
                    SignaturePattern { matchers: vec![ByteMatcher::Exact(0xFF),
                        ByteMatcher::Exact(0xF2)] },
                    SignaturePattern { matchers: vec![ByteMatcher::Exact(0x49),
                        ByteMatcher::Exact(0x44), ByteMatcher::Exact(0x33)] },
                ];
                proof {
                    assert((r@[0])@ =~= magic_spec(FileType::MP3)[0]);
                    assert((r@[1])@ =~= magic_spec(FileType::MP3)[1]);
                    assert((r@[2])@ =~= magic_spec(FileType::MP3)[2]);
                    assert((r@[3])@ =~= magic_spec(FileType::MP3)[3]);
                    assert(forall|i: int| 0 <= i < r@.len() ==> (#[trigger] r@[i])@ == magic_spec(FileType::MP3)[i]);
                }
                r
            },
            FileType::MP4 => {
                let r: Vec<SignaturePattern> = vec![
                    SignaturePattern { matchers: vec![ByteMatcher::Exact(0x66),
                        ByteMatcher::Exact(0x74), ByteMatcher::Exact(0x79),
                        ByteMatcher::Exact(0x70), ByteMatcher::Exact(0x4D),
                        ByteMatcher::Exact(0x53), ByteMatcher::Exact(0x4E),
                        ByteMatcher::Exact(0x56)] },
                ];
                proof {
                    assert((r@[0])@ =~= magic_spec(FileType::MP4)[0]);
                    assert(forall|i: int| 0 <= i < r@.len() ==> (#[trigger] r@[i])@ == magic_spec(FileType::MP4)[i]);
                }
                r
            },
            FileType::OGG => {
                let r: Vec<SignaturePattern> = vec![
                    SignaturePattern { matchers: vec![ByteMatcher::Exact(0x4F),
                        ByteMatcher::Exact(0x67), ByteMatcher::Exact(0x67),
                        ByteMatcher::Exact(0x53)] },
                ];
                proof {
                    assert((r@[0])@ =~= magic_spec(FileType::OGG)[0]);
                    assert(forall|i: int| 0 <= i < r@.len() ==> (#[trigger] r@[i])@ == magic_spec(FileType::OGG)[i]);
                }
                r
            },
            FileType::FLAC => {
                let r: Vec<SignaturePattern> = vec![
                    SignaturePattern { matchers: vec![ByteMatcher::Exact(0x66),
                        ByteMatcher::Exact(0x4C), ByteMatcher::Exact(0x61),
                        ByteMatcher::Exact(0x43)] },
                ];
                proof {
                    assert((r@[0])@ =~= magic_spec(FileType::FLAC)[0]);
                    assert(forall|i: int| 0 <= i < r@.len() ==> (#[trigger] r@[i])@ == magic_spec(FileType::FLAC)[i]);
                }
                r
            },
            FileType::M4A => {
                let r: Vec<SignaturePattern> = vec![
                    SignaturePattern { matchers: vec![ByteMatcher::Exact(0x00),
                        ByteMatcher::Exact(0x00), ByteMatcher::Exact(0x00),
                        ByteMatcher::Exact(0x1C), ByteMatcher::Exact(0x66),
                        ByteMatcher::Exact(0x74), ByteMatcher::Exact(0x79),
                        ByteMatcher::Exact(0x70), ByteMatcher::Exact(0x4D),
                        ByteMatcher::Exact(0x34), ByteMatcher::Exact(0x41),
                        ByteMatcher::Exact(0x20)] },
                    SignaturePattern { matchers: vec![ByteMatcher::Exact(0x00),
                        ByteMatcher::Exact(0x00), ByteMatcher::Exact(0x00),
                        ByteMatcher::Exact(0x20), ByteMatcher::Exact(0x66),
                        ByteMatcher::Exact(0x74), ByteMatcher::Exact(0x79),
                        ByteMatcher::Exact(0x70), ByteMatcher::Exact(0x4D),
                        ByteMatcher::Exact(0x34), ByteMatcher::Exact(0x41),
                        ByteMatcher::Exact(0x20)] },
                ];
                proof {
                    assert((r@[0])@ =~= magic_spec(FileType::M4A)[0]);
                    assert((r@[1])@ =~= magic_spec(FileType::M4A)[1]);
                    assert(forall|i: int| 0 <= i < r@.len() ==> (#[trigger] r@[i])@ == magic_spec(FileType::M4A)[i]);
                }
                r
            },
            FileType::AAC => {
                let r: Vec<SignaturePattern> = vec![
                    SignaturePattern { matchers: vec![ByteMatcher::Exact(0xFF),
                        ByteMatcher::Exact(0xF1)] },
                    SignaturePattern { matchers: vec![ByteMatcher::Exact(0xFF),
                        ByteMatcher::Exact(0xF9)] },
                ];
                proof {
                    assert((r@[0])@ =~= magic_spec(FileType::AAC)[0]);
                    assert((r@[1])@ =~= magic_spec(FileType::AAC)[1]);
                    assert(forall|i: int| 0 <= i < r@.len() ==> (#[trigger] r@[i])@ == magic_spec(FileType::AAC)[i]);
                }
                r
            },
        }
    }

    /// The embedding outcome of this kind: the cover-art encoding it can
    /// be embedded as, or an explicit unsupported marker.
    pub fn mime(&self) -> (r: EncodingOutcome)
        ensures
            r == mime_spec(*self),
    {
        match *self {
            FileType::JPEG => EncodingOutcome::Embeddable(EmbedEncoding::Jpeg),
            FileType::GIF => EncodingOutcome::Embeddable(EmbedEncoding::Gif),
            FileType::PNG => EncodingOutcome::Embeddable(EmbedEncoding::Png),
            FileType::TIFF => EncodingOutcome::Embeddable(EmbedEncoding::Tiff),
            FileType::BMP => EncodingOutcome::Embeddable(EmbedEncoding::Bmp),
            _ => EncodingOutcome::Unsupported,
        }
    }
}

/// A raster encoding that the tag writer can embed as cover art.
#[derive(Clone, Copy, Debug, PartialEq, Eq, Structural)]
pub enum EmbedEncoding {
    Jpeg,
    Png,
    Tiff,
    Bmp,
    Gif,
}

/// The total mapping from a kind to its embedding outcome: every kind
/// yields either a concrete embeddable encoding or an explicit
/// "unsupported" result.
#[derive(Clone, Copy, Debug, PartialEq, Eq, Structural)]
pub enum EncodingOutcome {
    Embeddable(EmbedEncoding),
    Unsupported,
}

/// The embedding outcome of each kind.
pub open spec fn mime_spec(k: FileType) -> EncodingOutcome {
    match k {
        FileType::JPEG => EncodingOutcome::Embeddable(EmbedEncoding::Jpeg),
        FileType::GIF => EncodingOutcome::Embeddable(EmbedEncoding::Gif),
        FileType::PNG => EncodingOutcome::Embeddable(EmbedEncoding::Png),
        FileType::TIFF => EncodingOutcome::Embeddable(EmbedEncoding::Tiff),
        FileType::BMP => EncodingOutcome::Embeddable(EmbedEncoding::Bmp),
        _ => EncodingOutcome::Unsupported,
    }
}

/// All kinds, in the fixed priority order in which they are tried.
pub fn all_kinds() -> (r: Vec<FileType>)
    ensures
        r@ == kind_order(),
{
    let r: Vec<FileType> = vec![
        FileType::JPEG, FileType::GIF, FileType::PNG, FileType::VTF, FileType::MIDI,
            FileType::UnixScript, FileType::ELF, FileType::PDF, FileType::MBR, FileType::TIFF,
            FileType::WAD, FileType::ZIP, FileType::TAR, FileType::XML, FileType::TXT,
            FileType::HEIC, FileType::WEBP, FileType::NES, FileType::BMP, FileType::SPC,
            FileType::WAV, FileType::AVI, FileType::AIFF, FileType::MP3, FileType::MP4,
            FileType::OGG, FileType::FLAC, FileType::M4A, FileType::AAC
    ];
    proof {
        assert(r@ =~= kind_order());
    }
    r
}

/// Whether the pattern matches a prefix of the buffer.
pub fn match_pattern(pattern: &SignaturePattern, data: &Vec<u8>) -> (r: bool)
    ensures
        r == pattern_matches(pattern@, data@),
{
    let n = pattern.matchers.len();
    let mut j: usize = 0;
    let mut c: usize = 0;
    proof {
        assert(pattern@.skip(0) =~= pattern@);
        assert(data@.skip(0) =~= data@);
    }
    while j < n
        invariant
            n == pattern@.len(),
            j <= n,
            c <= data@.len(),
            pattern_matches(pattern@, data@) == pattern_matches(
                pattern@.skip(j as int),
                data@.skip(c as int),
            ),
        decreases n - j,
    {
        let ghost pj = pattern@.skip(j as int);
        let ghost dc = data@.skip(c as int);
        proof {
            assert(pj[0] == pattern@[j as int]);
            assert(pj.drop_first() =~= pattern@.skip(j as int + 1));
            assert(dc.len() == data@.len() - c);
        }
        match pattern.matchers[j] {
            ByteMatcher::Exact(b) => {
                if c >= data.len() {
                    proof {
                        assert(!pattern_matches(pj, dc));
                    }
                    return false;
                }
                proof {
                    assert(dc[0] == data@[c as int]);
                    assert(dc.drop_first() =~= data@.skip(c as int + 1));
                }
                if data[c] != b {
                    proof {
                        assert(!pattern_matches(pj, dc));
                    }
                    return false;
                }
                c += 1;
            },
            ByteMatcher::Wildcard => {
                if c >= data.len() {
                    proof {
                        assert(!pattern_matches(pj, dc));
                    }
                    return false;
                }
                proof {
                    assert(dc.drop_first() =~= data@.skip(c as int + 1));
                }
                c += 1;
            },
            ByteMatcher::Skip(s) => {
                if s > data.len() - c {
                    proof {
                        assert(!pattern_matches(pj, dc));
                    }
                    return false;
                }
                proof {
                    assert(dc.skip(s as int) =~= data@.skip(c as int + s as int));
                }
                c += s;
            },
        }
        j += 1;
    }
    proof {
        assert(pattern@.skip(n as int) =~= Seq::<ByteMatcher>::empty());
    }
    true
}

/// Whether some signature of the kind matches the buffer.
pub fn kind_has_match(k: FileType, data: &Vec<u8>) -> (r: bool)
    ensures
        r == kind_matches(k, data@),
{
    let pats = k.magic();
    let n = pats.len();
    let mut i: usize = 0;
    proof {
        assert(magic_spec(k).skip(0) =~= magic_spec(k));
    }
    while i < n
        invariant
            n == pats@.len(),
            pats@.len() == magic_spec(k).len(),
            forall|t: int| 0 <= t < n ==> (#[trigger] pats@[t])@ == magic_spec(k)[t],
            i <= n,
            kind_matches(k, data@) == alts_match(magic_spec(k).skip(i as int), data@),
        decreases n - i,
    {
        let ghost ai = magic_spec(k).skip(i as int);
        proof {
            assert(ai[0] == magic_spec(k)[i as int]);
            assert(ai.drop_first() =~= magic_spec(k).skip(i as int + 1));
        }
        if match_pattern(&pats[i], data) {
            return true;
        }
        i += 1;
    }
    proof {
        assert(magic_spec(k).skip(n as int) =~= Seq::<Seq<ByteMatcher>>::empty());
    }
    false
}

/// Classify a buffer by magic number: the first kind in priority order
/// whose signature matches the prefix of the buffer, if any.
pub fn magictype(data: &Vec<u8>) -> (r: Option<FileType>)
    ensures
        r == detect_spec(data@),
{
    let kinds = all_kinds();
    let n = kinds.len();
    let mut i: usize = 0;
    while i < n
        invariant
            kinds@ == kind_order(),
            n == kind_order().len(),
            i <= n,
            detect_spec(data@) == first_match_from(data@, i as int),
        decreases n - i,
    {
        let k = kinds[i];
        if kind_has_match(k, data) {
            return Some(k);
        }
        i += 1;
    }
    None
}

} // verus!
