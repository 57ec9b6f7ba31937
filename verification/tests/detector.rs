use smwc2wav::signature::{
    all_kinds, magictype, match_pattern, ByteMatcher, EmbedEncoding, EncodingOutcome, FileType,
    SignaturePattern,
};

fn detect(bytes: &[u8]) -> Option<FileType> {
    magictype(&bytes.to_vec())
}

#[test]
fn riff_wave_is_wav_not_a_generic_container() {
    // RIFF....WAVE
    let b = vec![0x52, 0x49, 0x46, 0x46, 0x00, 0x00, 0x00, 0x00, 0x57, 0x41, 0x56, 0x45];
    assert_eq!(detect(&b), Some(FileType::WAV));
}

#[test]
fn riff_webp_is_webp() {
    let b = vec![0x52, 0x49, 0x46, 0x46, 0x12, 0x34, 0x56, 0x78, 0x57, 0x45, 0x42, 0x50];
    assert_eq!(detect(&b), Some(FileType::WEBP));
}

#[test]
fn riff_avi_is_avi() {
    let b = vec![0x52, 0x49, 0x46, 0x46, 0x99, 0x00, 0x00, 0x00, 0x41, 0x56, 0x49, 0x20];
    assert_eq!(detect(&b), Some(FileType::AVI));
}

#[test]
fn canonical_prefixes_detect_their_kind() {
    assert_eq!(detect(&[0xFF, 0xD8, 0xFF, 0xDB]), Some(FileType::JPEG));
    assert_eq!(detect(&[0x47, 0x49, 0x46, 0x38, 0x39, 0x61]), Some(FileType::GIF));
    assert_eq!(detect(&[0x47, 0x49, 0x46, 0x38, 0x37, 0x61]), Some(FileType::GIF));
    assert_eq!(
        detect(&[0x89, 0x50, 0x4E, 0x47, 0x0D, 0x0A, 0x1A, 0x0A]),
        Some(FileType::PNG)
    );
    assert_eq!(detect(&[0x50, 0x4B, 0x03, 0x04]), Some(FileType::ZIP));
    assert_eq!(detect(&[0x4F, 0x67, 0x67, 0x53]), Some(FileType::OGG));
    assert_eq!(detect(&[0x66, 0x4C, 0x61, 0x43]), Some(FileType::FLAC));
    assert_eq!(detect(&[0xFF, 0xFB]), Some(FileType::MP3));
    assert_eq!(detect(&[0x49, 0x44, 0x33, 0x04]), Some(FileType::MP3));
    assert_eq!(detect(&[0xFF, 0xF1]), Some(FileType::AAC));
    assert_eq!(detect(&[0x23, 0x21, 0x2F]), Some(FileType::UnixScript));
    assert_eq!(detect(&[0x42, 0x4D]), Some(FileType::BMP));
    assert_eq!(detect(&[0x7F, 0x45, 0x4C, 0x46]), Some(FileType::ELF));
}

#[test]
fn spc_header_detects_spc() {
    let mut b: Vec<u8> = b"SNES-SPC700 Sound File Data v0.30".to_vec();
    b.push(0x1A);
    b.push(0x1A);
    assert_eq!(detect(&b), Some(FileType::SPC));
}

#[test]
fn boot_sector_signature_detects_mbr() {
    let mut b = vec![0u8; 512];
    b[510] = 0x55;
    b[511] = 0xAA;
    assert_eq!(detect(&b), Some(FileType::MBR));
}

#[test]
fn too_few_bytes_detect_nothing() {
    assert_eq!(detect(&[]), None);
    assert_eq!(detect(&[0xFF]), None);
    assert_eq!(detect(&[0x89, 0x50, 0x4E]), None);
    // eleven of the twelve WAV canonical bytes
    let b = vec![0x52, 0x49, 0x46, 0x46, 0x00, 0x00, 0x00, 0x00, 0x57, 0x41, 0x56];
    assert_eq!(detect(&b), None);
    let mut mbr = vec![0u8; 511];
    mbr[510] = 0x55;
    assert_eq!(detect(&mbr), None);
}

#[test]
fn unmatched_buffers_detect_nothing() {
    assert_eq!(detect(&[0x01, 0x02, 0x03, 0x04, 0x05, 0x06, 0x07, 0x08]), None);
    assert_eq!(detect(b"hello world, plain text"), None);
}

#[test]
fn exif_jpeg_wildcards_accept_any_length_bytes() {
    let b = vec![
        0xFF, 0xD8, 0xFF, 0xE1, 0xAB, 0xCD, 0x45, 0x78, 0x69, 0x66, 0x00, 0x00,
    ];
    assert_eq!(detect(&b), Some(FileType::JPEG));
}

#[test]
fn match_pattern_checks_exact_wildcard_and_skip() {
    let p = SignaturePattern {
        matchers: vec![
            ByteMatcher::Exact(0x10),
            ByteMatcher::Wildcard,
            ByteMatcher::Skip(2),
            ByteMatcher::Exact(0x20),
        ],
    };
    assert!(match_pattern(&p, &vec![0x10, 0xAA, 0xBB, 0xCC, 0x20]));
    assert!(match_pattern(&p, &vec![0x10, 0xAA, 0xBB, 0xCC, 0x20, 0x99]));
    assert!(!match_pattern(&p, &vec![0x11, 0xAA, 0xBB, 0xCC, 0x20]));
    assert!(!match_pattern(&p, &vec![0x10, 0xAA, 0xBB, 0xCC, 0x21]));
    assert!(!match_pattern(&p, &vec![0x10, 0xAA, 0xBB, 0xCC]));
}

#[test]
fn priority_order_is_fixed_and_total() {
    let kinds = all_kinds();
    assert_eq!(kinds.len(), 29);
    assert_eq!(kinds[0], FileType::JPEG);
    assert_eq!(kinds[28], FileType::AAC);
}

#[test]
fn mime_maps_every_kind_totally() {
    assert_eq!(
        FileType::JPEG.mime(),
        EncodingOutcome::Embeddable(EmbedEncoding::Jpeg)
    );
    assert_eq!(
        FileType::PNG.mime(),
        EncodingOutcome::Embeddable(EmbedEncoding::Png)
    );
    assert_eq!(
        FileType::TIFF.mime(),
        EncodingOutcome::Embeddable(EmbedEncoding::Tiff)
    );
    assert_eq!(
        FileType::BMP.mime(),
        EncodingOutcome::Embeddable(EmbedEncoding::Bmp)
    );
    assert_eq!(
        FileType::GIF.mime(),
        EncodingOutcome::Embeddable(EmbedEncoding::Gif)
    );
    for k in all_kinds() {
        match k.mime() {
            EncodingOutcome::Embeddable(_) => assert!(matches!(
                k,
                FileType::JPEG | FileType::PNG | FileType::TIFF | FileType::BMP | FileType::GIF
            )),
            EncodingOutcome::Unsupported => {}
        }
    }
}
