//! Signature detection: given the first bytes of a file (at most 32 are
//! ever needed), find the file format implied by well-known magic numbers.
//!
//! The rules form an ordered table and the first match wins. Most rules are
//! literal prefixes; the RIFF and `ftyp` container rules additionally inspect
//! bytes 8..12 and fall back to "no match" when the outer signature matches
//! but the inner tag is unrecognised.

use vstd::prelude::*;

verus! {

/// A file format that the signature table can recognise.
#[derive(Clone, Copy, Debug, PartialEq, Eq, Structural)]
pub enum FileKind {
    Gif,
    Mp3,
    Png,
    Pdf,
    Ogg,
    Mkv,
    Flac,
    Jpg,
    Webp,
    Wav,
    Mov,
    Mp4,
}

/// `GIF87a` or `GIF89a` at the start.
pub open spec fn is_gif(b: Seq<u8>) -> bool {
    b.len() >= 6 && b[0] == 0x47 && b[1] == 0x49 && b[2] == 0x46 && b[3] == 0x38 && (b[4] == 0x37
        || b[4] == 0x39) && b[5] == 0x61
}

/// An MPEG audio frame sync (`FF FB`, `FF F3`, `FF F2`) or an `ID3` tag.
pub open spec fn is_mp3(b: Seq<u8>) -> bool {
    (b.len() >= 2 && b[0] == 0xFF && (b[1] == 0xFB || b[1] == 0xF3 || b[1] == 0xF2)) || (b.len()
        >= 3 && b[0] == 0x49 && b[1] == 0x44 && b[2] == 0x33)
}

/// The eight-byte PNG signature.
pub open spec fn is_png(b: Seq<u8>) -> bool {
    b.len() >= 8 && b[0] == 0x89 && b[1] == 0x50 && b[2] == 0x4E && b[3] == 0x47 && b[4] == 0x0D
        && b[5] == 0x0A && b[6] == 0x1A && b[7] == 0x0A
}

/// `%PDF-` at the start.
pub open spec fn is_pdf(b: Seq<u8>) -> bool {
    b.len() >= 5 && b[0] == 0x25 && b[1] == 0x50 && b[2] == 0x44 && b[3] == 0x46 && b[4] == 0x2D
}

/// `OggS` at the start.
pub open spec fn is_ogg(b: Seq<u8>) -> bool {
    b.len() >= 4 && b[0] == 0x4F && b[1] == 0x67 && b[2] == 0x67 && b[3] == 0x53
}

/// The EBML header that opens a Matroska container.
pub open spec fn is_mkv(b: Seq<u8>) -> bool {
    b.len() >= 4 && b[0] == 0x1A && b[1] == 0x45 && b[2] == 0xDF && b[3] == 0xA3
}

/// `fLaC` at the start.
pub open spec fn is_flac(b: Seq<u8>) -> bool {
    b.len() >= 4 && b[0] == 0x66 && b[1] == 0x4C && b[2] == 0x61 && b[3] == 0x43
}

/// The JPEG start-of-image marker.
pub open spec fn is_jpg(b: Seq<u8>) -> bool {
    b.len() >= 3 && b[0] == 0xFF && b[1] == 0xD8 && b[2] == 0xFF
}

/// `RIFF` at the start, with at least 12 bytes available for the inner tag.
pub open spec fn is_riff(b: Seq<u8>) -> bool {
    b.len() >= 12 && b[0] == 0x52 && b[1] == 0x49 && b[2] == 0x46 && b[3] == 0x46
}

/// `ftyp` at offset 4, with at least 12 bytes available for the brand.
pub open spec fn is_ftyp(b: Seq<u8>) -> bool {
    b.len() >= 12 && b[4] == 0x66 && b[5] == 0x74 && b[6] == 0x79 && b[7] == 0x70
}

/// The four bytes at offset 8..12 equal the given tag.
pub open spec fn tag_at_8(b: Seq<u8>, t0: u8, t1: u8, t2: u8, t3: u8) -> bool {
    b.len() >= 12 && b[8] == t0 && b[9] == t1 && b[10] == t2 && b[11] == t3
}

/// One of the `ftyp` brands that this table maps to MP4:
/// `avc1`, `isom`, `mmp4`, `mp41`, `mp42`, `mp71`, `msnv`, `M4V `.
pub open spec fn is_mp4_brand(b: Seq<u8>) -> bool {
    tag_at_8(b, 0x61, 0x76, 0x63, 0x31) || tag_at_8(b, 0x69, 0x73, 0x6F, 0x6D) || tag_at_8(
        b,
        0x6D,
        0x6D,
        0x70,
        0x34,
    ) || tag_at_8(b, 0x6D, 0x70, 0x34, 0x31) || tag_at_8(b, 0x6D, 0x70, 0x34, 0x32) || tag_at_8(
        b,
        0x6D,
        0x70,
        0x37,
        0x31,
    ) || tag_at_8(b, 0x6D, 0x73, 0x6E, 0x76) || tag_at_8(b, 0x4D, 0x34, 0x56, 0x20)
}

/// The whole ordered table: the first rule that matches decides the result,
/// and a matching container rule with an unrecognised inner tag yields
/// `None` rather than falling through to later rules.
pub open spec fn spec_detect(b: Seq<u8>) -> Option<FileKind> {
    if is_gif(b) {
        Some(FileKind::Gif)
    } else if is_mp3(b) {
        Some(FileKind::Mp3)
    } else if is_png(b) {
        Some(FileKind::Png)
    } else if is_pdf(b) {
        Some(FileKind::Pdf)
    } else if is_ogg(b) {
        Some(FileKind::Ogg)
    } else if is_mkv(b) {
        Some(FileKind::Mkv)
    } else if is_flac(b) {
        Some(FileKind::Flac)
    } else if is_jpg(b) {
        Some(FileKind::Jpg)
    } else if is_riff(b) {
        if tag_at_8(b, 0x57, 0x45, 0x42, 0x50) {
            Some(FileKind::Webp)
        } else if tag_at_8(b, 0x57, 0x41, 0x56, 0x45) {
            Some(FileKind::Wav)
        } else {
            None
        }
    } else if is_ftyp(b) {
        if tag_at_8(b, 0x71, 0x74, 0x20, 0x20) {
            Some(FileKind::Mov)
        } else if is_mp4_brand(b) {
            Some(FileKind::Mp4)
        } else {
            None
        }
    } else {
        None
    }
}

/// Runs the signature table over a byte prefix. Absence of a match is not
/// an error: a buffer that matches no rule yields `None`.
pub fn detect(bytes: &[u8]) -> (r: Option<FileKind>)
    ensures
        r == spec_detect(bytes@),
{
    let n = bytes.len();
    if n >= 6 && bytes[0] == 0x47 && bytes[1] == 0x49 && bytes[2] == 0x46 && bytes[3] == 0x38 && (
    bytes[4] == 0x37 || bytes[4] == 0x39) && bytes[5] == 0x61 {
        Some(FileKind::Gif)
    } else if (n >= 2 && bytes[0] == 0xFF && (bytes[1] == 0xFB || bytes[1] == 0xF3 || bytes[1]
        == 0xF2)) || (n >= 3 && bytes[0] == 0x49 && bytes[1] == 0x44 && bytes[2] == 0x33) {
        Some(FileKind::Mp3)
    } else if n >= 8 && bytes[0] == 0x89 && bytes[1] == 0x50 && bytes[2] == 0x4E && bytes[3]
        == 0x47 && bytes[4] == 0x0D && bytes[5] == 0x0A && bytes[6] == 0x1A && bytes[7] == 0x0A {
        Some(FileKind::Png)
    } else if n >= 5 && bytes[0] == 0x25 && bytes[1] == 0x50 && bytes[2] == 0x44 && bytes[3]
        == 0x46 && bytes[4] == 0x2D {
        Some(FileKind::Pdf)
    } else if n >= 4 && bytes[0] == 0x4F && bytes[1] == 0x67 && bytes[2] == 0x67 && bytes[3]
        == 0x53 {
        Some(FileKind::Ogg)
    } else if n >= 4 && bytes[0] == 0x1A && bytes[1] == 0x45 && bytes[2] == 0xDF && bytes[3]
        == 0xA3 {
        Some(FileKind::Mkv)
    } else if n >= 4 && bytes[0] == 0x66 && bytes[1] == 0x4C && bytes[2] == 0x61 && bytes[3]
        == 0x43 {
        Some(FileKind::Flac)
    } else if n >= 3 && bytes[0] == 0xFF && bytes[1] == 0xD8 && bytes[2] == 0xFF {
        Some(FileKind::Jpg)
    } else if n >= 12 && bytes[0] == 0x52 && bytes[1] == 0x49 && bytes[2] == 0x46 && bytes[3]
        == 0x46 {
        if bytes[8] == 0x57 && bytes[9] == 0x45 && bytes[10] == 0x42 && bytes[11] == 0x50 {
            Some(FileKind::Webp)
        } else if bytes[8] == 0x57 && bytes[9] == 0x41 && bytes[10] == 0x56 && bytes[11] == 0x45 {
            Some(FileKind::Wav)
        } else {
            None
        }
    } else if n >= 12 && bytes[4] == 0x66 && bytes[5] == 0x74 && bytes[6] == 0x79 && bytes[7]
        == 0x70 {
        if bytes[8] == 0x71 && bytes[9] == 0x74 && bytes[10] == 0x20 && bytes[11] == 0x20 {
            Some(FileKind::Mov)
        } else if detect_mp4_brand(bytes) {
            Some(FileKind::Mp4)
        } else {
            None
        }
    } else {
        None
    }
}

/// Tests the MP4 brand list at offset 8..12.
fn detect_mp4_brand(bytes: &[u8]) -> (r: bool)
    requires
        bytes@.len() >= 12,
    ensures
        r == is_mp4_brand(bytes@),
{
    (bytes[8] == 0x61 && bytes[9] == 0x76 && bytes[10] == 0x63 && bytes[11] == 0x31) || (bytes[8]
        == 0x69 && bytes[9] == 0x73 && bytes[10] == 0x6F && bytes[11] == 0x6D) || (bytes[8] == 0x6D
        && bytes[9] == 0x6D && bytes[10] == 0x70 && bytes[11] == 0x34) || (bytes[8] == 0x6D
        && bytes[9] == 0x70 && bytes[10] == 0x34 && bytes[11] == 0x31) || (bytes[8] == 0x6D
        && bytes[9] == 0x70 && bytes[10] == 0x34 && bytes[11] == 0x32) || (bytes[8] == 0x6D
        && bytes[9] == 0x70 && bytes[10] == 0x37 && bytes[11] == 0x31) || (bytes[8] == 0x6D
        && bytes[9] == 0x73 && bytes[10] == 0x6E && bytes[11] == 0x76) || (bytes[8] == 0x4D
        && bytes[9] == 0x34 && bytes[10] == 0x56 && bytes[11] == 0x20)
}

impl FileKind {
    /// The canonical extension for this format, as a character sequence.
    pub open spec fn ext_seq(self) -> Seq<char> {
        match self {
            FileKind::Gif => "gif"@,
            FileKind::Mp3 => "mp3"@,
            FileKind::Png => "png"@,
            FileKind::Pdf => "pdf"@,
            FileKind::Ogg => "ogg"@,
            FileKind::Mkv => "mkv"@,
            FileKind::Flac => "flac"@,
            FileKind::Jpg => "jpg"@,
            FileKind::Webp => "webp"@,
            FileKind::Wav => "wav"@,
            FileKind::Mov => "mov"@,
            FileKind::Mp4 => "mp4"@,
        }
    }

    /// The canonical extension for this format.
    pub fn extension(&self) -> (r: &'static str)
        ensures
            r@ == self.ext_seq(),
    {
        match self {
            FileKind::Gif => "gif",
            FileKind::Mp3 => "mp3",
            FileKind::Png => "png",
            FileKind::Pdf => "pdf",
            FileKind::Ogg => "ogg",
            FileKind::Mkv => "mkv",
            FileKind::Flac => "flac",
            FileKind::Jpg => "jpg",
            FileKind::Webp => "webp",
            FileKind::Wav => "wav",
            FileKind::Mov => "mov",
            FileKind::Mp4 => "mp4",
        }
    }
}

/// A buffer whose first bytes equal one of the table's literal patterns is
/// detected as that pattern's format, whatever the trailing bytes hold.
pub proof fn lemma_prefix_determines(b: Seq<u8>)
    ensures
        is_gif(b) ==> spec_detect(b) == Some(FileKind::Gif),
        is_mp3(b) ==> spec_detect(b) == Some(FileKind::Mp3),
        is_png(b) ==> spec_detect(b) == Some(FileKind::Png),
        is_pdf(b) ==> spec_detect(b) == Some(FileKind::Pdf),
        is_ogg(b) ==> spec_detect(b) == Some(FileKind::Ogg),
        is_mkv(b) ==> spec_detect(b) == Some(FileKind::Mkv),
        is_flac(b) ==> spec_detect(b) == Some(FileKind::Flac),
        is_jpg(b) ==> spec_detect(b) == Some(FileKind::Jpg),
{
}

/// A buffer shorter than a rule's required range never matches that rule:
/// short input rules formats out rather than producing false positives.
pub proof fn lemma_short_buffer_rules_out(b: Seq<u8>)
    ensures
        b.len() < 12 ==> spec_detect(b) != Some(FileKind::Webp) && spec_detect(b) != Some(
            FileKind::Wav,
        ) && spec_detect(b) != Some(FileKind::Mov) && spec_detect(b) != Some(FileKind::Mp4),
        b.len() < 8 ==> spec_detect(b) != Some(FileKind::Png),
        b.len() < 6 ==> spec_detect(b) != Some(FileKind::Gif),
        b.len() < 5 ==> spec_detect(b) != Some(FileKind::Pdf),
        b.len() < 4 ==> spec_detect(b) != Some(FileKind::Ogg) && spec_detect(b) != Some(
            FileKind::Mkv,
        ) && spec_detect(b) != Some(FileKind::Flac),
        b.len() < 3 ==> spec_detect(b) != Some(FileKind::Jpg),
        b.len() < 2 ==> spec_detect(b) is None,
{
}

} // verus!
