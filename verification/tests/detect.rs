use kti::detect::{detect, FileKind};

#[test]
fn detects_png_signature() {
    let bytes = [0x89, 0x50, 0x4E, 0x47, 0x0D, 0x0A, 0x1A, 0x0A, 0x00, 0x00, 0x00, 0x0D];
    assert_eq!(detect(&bytes), Some(FileKind::Png));
}

#[test]
fn detects_riff_webp() {
    let bytes = [0x52, 0x49, 0x46, 0x46, 0x00, 0x00, 0x00, 0x00, 0x57, 0x45, 0x42, 0x50];
    assert_eq!(detect(&bytes), Some(FileKind::Webp));
}

#[test]
fn detects_riff_wave() {
    let bytes = [0x52, 0x49, 0x46, 0x46, 0x00, 0x00, 0x00, 0x00, 0x57, 0x41, 0x56, 0x45];
    assert_eq!(detect(&bytes), Some(FileKind::Wav));
}

#[test]
fn detects_ftyp_mp42() {
    let bytes = [0x00, 0x00, 0x00, 0x20, 0x66, 0x74, 0x79, 0x70, 0x6D, 0x70, 0x34, 0x32];
    assert_eq!(detect(&bytes), Some(FileKind::Mp4));
}

#[test]
fn detects_jpeg_marker() {
    let bytes = [0xFF, 0xD8, 0xFF, 0xE0];
    assert_eq!(detect(&bytes), Some(FileKind::Jpg));
}

#[test]
fn garbage_buffer_is_unknown() {
    let bytes = [0x00, 0x01, 0x02, 0x03];
    assert_eq!(detect(&bytes), None);
}

#[test]
fn detects_both_gif_versions() {
    // "GIF87a" and "GIF89a"
    let gif87 = [0x47, 0x49, 0x46, 0x38, 0x37, 0x61, 0xAA, 0xBB];
    let gif89 = [0x47, 0x49, 0x46, 0x38, 0x39, 0x61];
    assert_eq!(detect(&gif87), Some(FileKind::Gif));
    assert_eq!(detect(&gif89), Some(FileKind::Gif));
    let gif88 = [0x47, 0x49, 0x46, 0x38, 0x38, 0x61];
    assert_eq!(detect(&gif88), None);
}

#[test]
fn detects_all_mp3_patterns() {
    assert_eq!(detect(&[0xFF, 0xFB]), Some(FileKind::Mp3));
    assert_eq!(detect(&[0xFF, 0xF3, 0x00]), Some(FileKind::Mp3));
    assert_eq!(detect(&[0xFF, 0xF2, 0x11, 0x22]), Some(FileKind::Mp3));
    assert_eq!(detect(&[0x49, 0x44, 0x33, 0x04]), Some(FileKind::Mp3));
}

#[test]
fn detects_pdf() {
    // "%PDF-1.7"
    let bytes = [0x25, 0x50, 0x44, 0x46, 0x2D, 0x31, 0x2E, 0x37];
    assert_eq!(detect(&bytes), Some(FileKind::Pdf));
}

#[test]
fn detects_ogg() {
    let bytes = [0x4F, 0x67, 0x67, 0x53, 0x00];
    assert_eq!(detect(&bytes), Some(FileKind::Ogg));
}

#[test]
fn detects_mkv() {
    let bytes = [0x1A, 0x45, 0xDF, 0xA3, 0x42];
    assert_eq!(detect(&bytes), Some(FileKind::Mkv));
}

#[test]
fn detects_flac() {
    // "fLaC"
    let bytes = [0x66, 0x4C, 0x61, 0x43, 0x00];
    assert_eq!(detect(&bytes), Some(FileKind::Flac));
}

#[test]
fn trailing_bytes_do_not_matter() {
    let mut bytes = vec![0x89, 0x50, 0x4E, 0x47, 0x0D, 0x0A, 0x1A, 0x0A];
    bytes.extend([0xDE, 0xAD, 0xBE, 0xEF, 0x00, 0x47, 0x49, 0x46, 0x38, 0x39, 0x61]);
    assert_eq!(detect(&bytes), Some(FileKind::Png));
}

#[test]
fn detects_ftyp_qt_as_mov() {
    // brand "qt  "
    let bytes = [0x00, 0x00, 0x00, 0x14, 0x66, 0x74, 0x79, 0x70, 0x71, 0x74, 0x20, 0x20];
    assert_eq!(detect(&bytes), Some(FileKind::Mov));
}

#[test]
fn detects_every_mp4_brand() {
    let brands: [&[u8; 4]; 8] = [
        b"avc1", b"isom", b"mmp4", b"mp41", b"mp42", b"mp71", b"msnv", b"M4V ",
    ];
    for brand in brands {
        let mut bytes = vec![0x00, 0x00, 0x00, 0x20, 0x66, 0x74, 0x79, 0x70];
        bytes.extend_from_slice(brand);
        assert_eq!(detect(&bytes), Some(FileKind::Mp4), "brand {:?}", brand);
    }
}

#[test]
fn unknown_ftyp_brand_is_unknown() {
    // brand "zzzz"
    let bytes = [0x00, 0x00, 0x00, 0x20, 0x66, 0x74, 0x79, 0x70, 0x7A, 0x7A, 0x7A, 0x7A];
    assert_eq!(detect(&bytes), None);
}

#[test]
fn unknown_riff_payload_is_unknown() {
    // "RIFF" with payload tag "AVI " is not in the table and does not fall
    // through to any later rule
    let bytes = [0x52, 0x49, 0x46, 0x46, 0x00, 0x00, 0x00, 0x00, 0x41, 0x56, 0x49, 0x20];
    assert_eq!(detect(&bytes), None);
}

#[test]
fn empty_buffer_is_unknown() {
    assert_eq!(detect(&[]), None);
}

#[test]
fn short_buffers_never_match() {
    // each of these is the true signature cut one byte short
    assert_eq!(detect(&[0x47, 0x49, 0x46, 0x38, 0x37]), None);
    assert_eq!(detect(&[0x89, 0x50, 0x4E, 0x47, 0x0D, 0x0A, 0x1A]), None);
    assert_eq!(detect(&[0x25, 0x50, 0x44, 0x46]), None);
    assert_eq!(detect(&[0x4F, 0x67, 0x67]), None);
    assert_eq!(detect(&[0x1A, 0x45, 0xDF]), None);
    assert_eq!(detect(&[0x66, 0x4C, 0x61]), None);
    assert_eq!(detect(&[0xFF, 0xD8]), None);
    assert_eq!(detect(&[0xFF]), None);
    // a RIFF/ftyp container needs 12 bytes before its inner tag is read
    let riff11 = [0x52, 0x49, 0x46, 0x46, 0x00, 0x00, 0x00, 0x00, 0x57, 0x45, 0x42];
    assert_eq!(detect(&riff11), None);
    let ftyp11 = [0x00, 0x00, 0x00, 0x20, 0x66, 0x74, 0x79, 0x70, 0x6D, 0x70, 0x34];
    assert_eq!(detect(&ftyp11), None);
}

#[test]
fn extension_strings_are_canonical() {
    assert_eq!(FileKind::Gif.extension(), "gif");
    assert_eq!(FileKind::Mp3.extension(), "mp3");
    assert_eq!(FileKind::Png.extension(), "png");
    assert_eq!(FileKind::Pdf.extension(), "pdf");
    assert_eq!(FileKind::Ogg.extension(), "ogg");
    assert_eq!(FileKind::Mkv.extension(), "mkv");
    assert_eq!(FileKind::Flac.extension(), "flac");
    assert_eq!(FileKind::Jpg.extension(), "jpg");
    assert_eq!(FileKind::Webp.extension(), "webp");
    assert_eq!(FileKind::Wav.extension(), "wav");
    assert_eq!(FileKind::Mov.extension(), "mov");
    assert_eq!(FileKind::Mp4.extension(), "mp4");
}
